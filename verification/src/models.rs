//! The models that can be bundled with an application.

use vstd::prelude::*;

verus! {

/// The names of the models that can be bundled with an application.
#[derive(Debug, Clone, Copy, PartialEq, Eq, Structural)]
pub enum Model {
    RealESRAnimeVideoV3x2,
    RealESRAnimeVideoV3x3,
    RealESRAnimeVideoV3x4,
    RealESRGANPlusx4,
    RealESRGANPlusx4Anime,
}

/// How many names `Model` has.
pub const MODEL_COUNT: usize = 5;

impl Model {
    /// The factor by which the named model enlarges each side of an image.
    pub open spec fn scale(self) -> int {
        match self {
            Model::RealESRAnimeVideoV3x2 => 2,
            Model::RealESRAnimeVideoV3x3 => 3,
            Model::RealESRAnimeVideoV3x4 => 4,
            Model::RealESRGANPlusx4 => 4,
            Model::RealESRGANPlusx4Anime => 4,
        }
    }

    /// The position of the name in the declaration, which is also its slot
    /// in a `ModelStore`.
    pub open spec fn slot(self) -> int {
        match self {
            Model::RealESRAnimeVideoV3x2 => 0,
            Model::RealESRAnimeVideoV3x3 => 1,
            Model::RealESRAnimeVideoV3x4 => 2,
            Model::RealESRGANPlusx4 => 3,
            Model::RealESRGANPlusx4Anime => 4,
        }
    }

    /// The slot of the name in a `ModelStore`.
    fn index(&self) -> (i: usize)
        ensures
            i == self.slot(),
            i < MODEL_COUNT,
    {
        match self {
            Model::RealESRAnimeVideoV3x2 => 0,
            Model::RealESRAnimeVideoV3x3 => 1,
            Model::RealESRAnimeVideoV3x4 => 2,
            Model::RealESRGANPlusx4 => 3,
            Model::RealESRGANPlusx4Anime => 4,
        }
    }

    /// The parameter bytes and the weight bytes that `store` holds under
    /// this name, in that order.
    pub fn get_bytes<'a>(&self, store: &ModelStore<'a>) -> (bytes: (&'a [u8], &'a [u8]))
        ensures
            bytes.0 == store.param(*self),
            bytes.1 == store.bin(*self),
    {
        proof {
            use_type_invariant(store);
        }
        store.entries[self.index()]
    }

    /// The factor by which the named model enlarges each side of an image.
    pub fn get_scale_factor(&self) -> (factor: u8)
        ensures
            factor == self.scale(),
            2 <= factor <= 4,
    {
        match self {
            Model::RealESRAnimeVideoV3x2 => 2,
            Model::RealESRAnimeVideoV3x3 => 3,
            Model::RealESRAnimeVideoV3x4 => 4,
            Model::RealESRGANPlusx4 => 4,
            Model::RealESRGANPlusx4Anime => 4,
        }
    }
}

/// The bundled models: for every name a pair of byte strings, the
/// parameters and the weights. A name under which nothing was bundled
/// holds two empty strings.
///
/// The bytes are borrowed for `'a`; an application that bakes the models
/// into its binary lends them for `'static`.
pub struct ModelStore<'a> {
    entries: Vec<(&'a [u8], &'a [u8])>,
}

impl<'a> ModelStore<'a> {
    /// There is one entry for every name.
    #[verifier::type_invariant]
    spec fn one_entry_per_name(&self) -> bool {
        self.entries@.len() == MODEL_COUNT
    }

    /// The parameter bytes held under `model`.
    pub closed spec fn param(&self, model: Model) -> &'a [u8] {
        self.entries@[model.slot()].0
    }

    /// The weight bytes held under `model`.
    pub closed spec fn bin(&self, model: Model) -> &'a [u8] {
        self.entries@[model.slot()].1
    }

    /// A store in which nothing is bundled.
    pub fn new() -> (store: ModelStore<'a>)
        ensures
            forall|model: Model| #[trigger] store.param(model)@.len() == 0,
            forall|model: Model| #[trigger] store.bin(model)@.len() == 0,
    {
        let nothing: &[u8] = &[];
        let mut entries: Vec<(&'a [u8], &'a [u8])> = Vec::new();
        entries.push((nothing, nothing));
        entries.push((nothing, nothing));
        entries.push((nothing, nothing));
        entries.push((nothing, nothing));
        entries.push((nothing, nothing));
        ModelStore { entries }
    }

    /// Bundles `param` and `bin` under `model`, in place of what was held
    /// there. Every other name keeps its bytes.
    pub fn bundle(self, model: Model, param: &'a [u8], bin: &'a [u8]) -> (store: ModelStore<'a>)
        ensures
            store.param(model) == param,
            store.bin(model) == bin,
            forall|other: Model|
                other != model ==> #[trigger] store.param(other) == self.param(other),
            forall|other: Model| other != model ==> #[trigger] store.bin(other) == self.bin(other),
    {
        proof {
            use_type_invariant(&self);
        }
        let mut entries = self.entries;
        entries.set(model.index(), (param, bin));
        ModelStore { entries }
    }

    /// The parameter bytes, the weight bytes and the scale factor of
    /// `model`.
    pub fn describe(&self, model: Model) -> (entry: (&'a [u8], &'a [u8], u8))
        ensures
            entry.0 == self.param(model),
            entry.1 == self.bin(model),
            entry.2 == model.scale(),
    {
        let (param, bin) = model.get_bytes(self);
        (param, bin, model.get_scale_factor())
    }
}

} // verus!
