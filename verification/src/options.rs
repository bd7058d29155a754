//! The configuration that a handle is created from.

use vstd::prelude::*;
use crate::models::Model;
use crate::models::ModelStore;

verus! {

/// The bundled models that a configuration can name.
#[derive(Debug, Clone, Copy, PartialEq, Eq, Structural)]
pub enum OptionsModel {
    RealESRAnimeVideoV3x2,
    RealESRAnimeVideoV3x3,
    RealESRAnimeVideoV3x4,
    RealESRGANPlusx4,
    RealESRGANPlusx4Anime,
}

impl OptionsModel {
    /// The name under which the store holds this model.
    pub open spec fn name(self) -> Model {
        match self {
            OptionsModel::RealESRAnimeVideoV3x2 => Model::RealESRAnimeVideoV3x2,
            OptionsModel::RealESRAnimeVideoV3x3 => Model::RealESRAnimeVideoV3x3,
            OptionsModel::RealESRAnimeVideoV3x4 => Model::RealESRAnimeVideoV3x4,
            OptionsModel::RealESRGANPlusx4 => Model::RealESRGANPlusx4,
            OptionsModel::RealESRGANPlusx4Anime => Model::RealESRGANPlusx4Anime,
        }
    }

    /// The name under which the store holds this model.
    pub fn model(&self) -> (model: Model)
        ensures
            model == self.name(),
    {
        match self {
            OptionsModel::RealESRAnimeVideoV3x2 => Model::RealESRAnimeVideoV3x2,
            OptionsModel::RealESRAnimeVideoV3x3 => Model::RealESRAnimeVideoV3x3,
            OptionsModel::RealESRAnimeVideoV3x4 => Model::RealESRAnimeVideoV3x4,
            OptionsModel::RealESRGANPlusx4 => Model::RealESRGANPlusx4,
            OptionsModel::RealESRGANPlusx4Anime => Model::RealESRGANPlusx4Anime,
        }
    }

    /// The parameter bytes and the weight bytes that `store` holds for this
    /// model, in that order.
    pub fn get_bytes<'a>(&self, store: &ModelStore<'a>) -> (bytes: (&'a [u8], &'a [u8]))
        ensures
            bytes.0 == store.param(self.name()),
            bytes.1 == store.bin(self.name()),
    {
        self.model().get_bytes(store)
    }

    /// The factor by which this model enlarges each side of an image.
    pub fn get_scale_factor(&self) -> (factor: i32)
        ensures
            factor == self.name().scale(),
            2 <= factor <= 4,
    {
        let factor: u8 = self.model().get_scale_factor();
        factor as i32
    }
}

/// The scale factors that a configuration can ask for.
#[derive(Debug, Clone, Copy, PartialEq, Eq, Structural)]
pub enum OptionsScaleFactor {
    Double,
    Triple,
    Quadruple,
}

impl OptionsScaleFactor {
    /// The factor as a number: 2, 3 or 4.
    pub open spec fn factor(self) -> int {
        match self {
            OptionsScaleFactor::Double => 2,
            OptionsScaleFactor::Triple => 3,
            OptionsScaleFactor::Quadruple => 4,
        }
    }

    /// The factor as a number: 2, 3 or 4.
    pub fn value(&self) -> (factor: i32)
        ensures
            factor == self.factor(),
    {
        match self {
            OptionsScaleFactor::Double => 2,
            OptionsScaleFactor::Triple => 3,
            OptionsScaleFactor::Quadruple => 4,
        }
    }
}

/// What an engine is created from.
///
/// `gpuid` is the index of the GPU to run on, or -1 to let the engine fall
/// back to the CPU. `tilesize` 0 lets the engine choose its tiles. `param`
/// and `bin` are the model's parameter and weight bytes; an engine cannot be
/// created while either is empty.
#[derive(Debug, Clone, Copy)]
pub struct Options<'a> {
    pub gpuid: i32,
    pub tta_mode: bool,
    pub tilesize: i32,
    pub scale_factor: i32,
    pub param: &'a [u8],
    pub bin: &'a [u8],
}

impl<'a> Default for Options<'a> {
    /// GPU 0, no test-time augmentation, tiles chosen by the engine, scale
    /// factor 4, and no model.
    fn default() -> (options: Self)
        ensures
            options.gpuid == 0,
            !options.tta_mode,
            options.tilesize == 0,
            options.scale_factor == 4,
            options.param@.len() == 0,
            options.bin@.len() == 0,
    {
        let nothing: &[u8] = &[];
        Options {
            gpuid: 0,
            tta_mode: false,
            tilesize: 0,
            scale_factor: 4,
            param: nothing,
            bin: nothing,
        }
    }
}

impl<'a> Options<'a> {
    /// Takes the bytes that `store` holds for `model`, and the model's scale
    /// factor with them.
    pub fn model(self, model: OptionsModel, store: &ModelStore<'a>) -> (options: Self)
        ensures
            options == (Options {
                param: store.param(model.name()),
                bin: store.bin(model.name()),
                scale_factor: model.name().scale() as i32,
                ..self
            }),
    {
        let (param, bin) = model.get_bytes(store);
        Options { param, bin, scale_factor: model.get_scale_factor(), ..self }
    }

    /// Takes `param` and `bin` as the model. The scale factor stays as it
    /// is.
    pub fn model_bytes(self, param: &'a [u8], bin: &'a [u8]) -> (options: Self)
        ensures
            options == (Options { param, bin, ..self }),
    {
        Options { param, bin, ..self }
    }

    /// Selects the GPU with index `gpuid`.
    pub fn gpuid(self, gpuid: u8) -> (options: Self)
        ensures
            options == (Options { gpuid: gpuid as i32, ..self }),
            options.gpuid == gpuid,
    {
        Options { gpuid: gpuid as i32, ..self }
    }

    /// Switches test-time augmentation on or off.
    pub fn tta_mode(self, tta_mode: bool) -> (options: Self)
        ensures
            options == (Options { tta_mode, ..self }),
    {
        Options { tta_mode, ..self }
    }

    /// Sets the tile size. The engine takes it as a 32-bit signed number:
    /// of a larger `tilesize` only the low 32 bits are kept.
    pub fn tilesize(self, tilesize: usize) -> (options: Self)
        ensures
            options == (Options { tilesize: tilesize as i32, ..self }),
            tilesize <= i32::MAX ==> options.tilesize == tilesize,
    {
        let low: i32 = #[verifier::truncate]
        (tilesize as i32);
        Options { tilesize: low, ..self }
    }

    /// Sets the scale factor.
    pub fn scale_factor(self, scale_factor: OptionsScaleFactor) -> (options: Self)
        ensures
            options == (Options { scale_factor: scale_factor.factor() as i32, ..self }),
    {
        Options { scale_factor: scale_factor.value(), ..self }
    }
}

} // verus!
