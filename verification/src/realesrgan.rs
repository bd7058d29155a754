//! The handle on an engine instance: who owns it, and what it asks the
//! engine to do with an image.

use vstd::prelude::*;
use crate::creation::Call;
use crate::creation::Creation;
use crate::creation::Progress;
use crate::error::Error;
use crate::options::Options;

verus! {

/// Whether `len` bytes are a whole number of blocks of `block` bytes. No
/// length is a whole number of empty blocks.
pub open spec fn whole_blocks(len: int, block: int) -> bool {
    block > 0 && len % block == 0
}

/// The length of the buffer that holds a `width` by `height` image of
/// `channels` bytes per pixel after each side was enlarged `scale` times.
pub open spec fn output_length(width: int, height: int, scale: int, channels: int) -> int {
    (width * scale) * (height * scale) * channels
}

/// The buffer of the enlarged image is the square of the scale factor times
/// as long as the input, whatever the number of channels.
pub proof fn lemma_output_length_is_scale_squared(len: int, width: int, height: int, scale: int)
    requires
        whole_blocks(len, width * height),
    ensures
        output_length(width, height, scale, len / (width * height)) == scale * scale * len,
{
    let block = width * height;
    let channels = len / block;
    assert(len == block * channels) by {
        vstd::arithmetic::div_mod::lemma_fundamental_div_mod(len, block);
    }
    assert((width * scale) * (height * scale) * channels == scale * scale * (block * channels))
        by (nonlinear_arith)
        requires
            block == width * height,
    ;
}

/// On a handle that has an instance, an input that is no whole number of
/// `width * height` blocks is turned down with `InvalidInput`, which
/// reports the block size and the length of the input.
pub proof fn lemma_uneven_length_is_turned_down(
    engine: RealEsrgan,
    len: int,
    width: int,
    height: int,
)
    requires
        engine.pointer() != 0,
        !whole_blocks(len, width * height),
    ensures
        engine.rejection(len, width, height) == Some(
            Error::InvalidInput {
                expected_length: (width * height) as usize,
                actual_length: len as usize,
            },
        ),
        forall|answer: Answer| #[trigger]
            engine.processed(len, width, height, answer) == Err::<Seq<u8>, Error>(
                Error::InvalidInput {
                    expected_length: (width * height) as usize,
                    actual_length: len as usize,
                },
            ),
{
}

/// On a handle that has an instance, an input that is a whole number of
/// blocks gives, where the engine returns status 0, the buffer as the engine
/// left it. The engine is handed `output_length` bytes to write to, and
/// cannot make them more or fewer: the result is that long, which is the
/// square of the scale factor times the length of the input.
pub proof fn lemma_output_has_the_enlarged_length(
    engine: RealEsrgan,
    len: int,
    width: int,
    height: int,
    transform: Transform,
    answer: Answer,
)
    requires
        engine.pointer() != 0,
        whole_blocks(len, width * height),
        engine.makes_ready(len, width, height, transform),
        answer.code == 0,
        answer.output.len() == transform.output@.len(),
        len >= 0,
    ensures
        engine.processed(len, width, height, answer) == Ok::<Seq<u8>, Error>(answer.output),
        answer.output.len() == output_length(
            width,
            height,
            engine.options().scale_factor as int,
            len / (width * height),
        ),
        answer.output.len() == engine.options().scale_factor * engine.options().scale_factor
            * len,
{
    let scale = engine.options().scale_factor as int;
    lemma_output_length_is_scale_squared(len, width, height, scale);
    assert(scale * scale * len >= 0) by (nonlinear_arith)
        requires
            len >= 0,
    ;
}

/// A handle on one engine instance.
///
/// The instance lives outside this crate and is known here by its address
/// alone; address 0 stands for no instance. The handle counts its owners:
/// it has an instance exactly as long as it has an owner.
#[derive(Debug)]
pub struct RealEsrgan<'a> {
    slot: Slot,
    options: Options<'a>,
}

/// What a handle holds on to: a live instance with its owners, or nothing
/// any more.
#[derive(Debug)]
enum Slot {
    Live { pointer: usize, owners: usize },
    Released,
}

/// What an owner can do with its share of a handle.
pub enum Turn {
    /// Hand a share to one more owner.
    Share,
    /// Give its own share up.
    Release,
}

/// The number of owners after `turn`, where there were `owners` before.
/// What has no owner left is gone for good: it cannot be shared again.
pub open spec fn owners_after(owners: nat, turn: Turn) -> nat {
    if owners == 0 {
        0
    } else {
        match turn {
            Turn::Share => owners + 1,
            Turn::Release => (owners - 1) as nat,
        }
    }
}

/// Whether `turn` takes the last owner away, so that the instance is to be
/// freed.
pub open spec fn frees(owners: nat, turn: Turn) -> bool {
    owners == 1 && turn is Release
}

/// The number of owners after all of `turns`, in order.
pub open spec fn owners_at_end(owners: nat, turns: Seq<Turn>) -> nat
    decreases turns.len(),
{
    if turns.len() == 0 {
        owners
    } else {
        owners_at_end(owners_after(owners, turns.first()), turns.drop_first())
    }
}

/// How often the instance is freed in the course of `turns`.
pub open spec fn times_freed(owners: nat, turns: Seq<Turn>) -> nat
    decreases turns.len(),
{
    if turns.len() == 0 {
        0
    } else {
        let rest = times_freed(owners_after(owners, turns.first()), turns.drop_first());
        if frees(owners, turns.first()) {
            rest + 1
        } else {
            rest
        }
    }
}

/// Whatever the owners do, in whatever order, the instance is freed once
/// when the last owner has gone, and never while one is left.
pub proof fn lemma_freed_exactly_once(owners: nat, turns: Seq<Turn>)
    requires
        owners > 0,
    ensures
        times_freed(owners, turns) == if owners_at_end(owners, turns) == 0 {
            1nat
        } else {
            0nat
        },
    decreases turns.len(),
{
    if turns.len() > 0 {
        let then = owners_after(owners, turns.first());
        if then > 0 {
            lemma_freed_exactly_once(then, turns.drop_first());
        } else {
            lemma_gone_for_good(turns.drop_first());
        }
    }
}

/// Once the last owner has gone, nothing is shared and nothing is freed
/// any more.
pub proof fn lemma_gone_for_good(turns: Seq<Turn>)
    ensures
        owners_at_end(0, turns) == 0,
        times_freed(0, turns) == 0,
    decreases turns.len(),
{
    if turns.len() > 0 {
        lemma_gone_for_good(turns.drop_first());
    }
}

/// One call of the engine's transform, made ready: the instance to call,
/// the dimensions to hand over, and the buffer that the engine is to fill.
#[derive(Debug)]
pub struct Transform {
    pub pointer: usize,
    pub width: i32,
    pub height: i32,
    pub channels: i32,
    pub output: Vec<u8>,
}

/// What the engine made of one transform: the status it returned and the
/// buffer as it left it.
pub struct Answer {
    pub code: i32,
    pub output: Seq<u8>,
}

impl Transform {
    /// Ends the call with the status that the engine returned: the filled
    /// buffer for status 0, `ProcessingFailed` with the status otherwise.
    pub fn complete(self, code: i32) -> (result: Result<Vec<u8>, Error>)
        ensures
            code == 0 ==> result is Ok && result->Ok_0 == self.output,
            code != 0 ==> result == Err::<Vec<u8>, Error>(Error::ProcessingFailed { code }),
    {
        if code == 0 {
            Ok(self.output)
        } else {
            Err(Error::ProcessingFailed { code })
        }
    }
}

impl<'a> RealEsrgan<'a> {
    /// A live instance is not at address 0 and has an owner.
    #[verifier::type_invariant]
    spec fn owned_while_live(&self) -> bool {
        self.slot matches Slot::Live { pointer, owners } ==> pointer != 0 && owners > 0
    }

    /// The address of the engine instance, 0 once it was released. What has
    /// no owner has no instance.
    pub closed spec fn pointer(&self) -> usize {
        match self.slot {
            Slot::Live { pointer, owners } => if owners > 0 {
                pointer
            } else {
                0
            },
            Slot::Released => 0,
        }
    }

    /// The number of owners that share the handle. What has no instance
    /// has no owner.
    pub closed spec fn owners(&self) -> usize {
        match self.slot {
            Slot::Live { pointer, owners } => if pointer != 0 {
                owners
            } else {
                0
            },
            Slot::Released => 0,
        }
    }

    /// A handle has an instance exactly as long as it has an owner.
    pub proof fn lemma_owned_while_live(self)
        ensures
            self.owners() > 0 <==> self.pointer() != 0,
    {
    }

    /// The configuration that the engine was created from.
    pub closed spec fn options(&self) -> Options<'a> {
        self.options
    }

    /// The handle on a newly created instance at `pointer`, which is not 0:
    /// it has one owner.
    pub closed spec fn fresh(pointer: usize, options: Options<'a>) -> RealEsrgan<'a> {
        RealEsrgan { slot: Slot::Live { pointer, owners: 1 }, options }
    }

    /// What `fresh` holds.
    pub proof fn lemma_fresh(pointer: usize, options: Options<'a>)
        requires
            pointer != 0,
        ensures
            Self::fresh(pointer, options).pointer() == pointer,
            Self::fresh(pointer, options).owners() == 1,
            Self::fresh(pointer, options).options() == options,
    {
    }

    /// Makes the handle on a newly created instance at `pointer`.
    pub(crate) fn created(pointer: usize, options: Options<'a>) -> (handle: RealEsrgan<'a>)
        requires
            pointer != 0,
        ensures
            handle == Self::fresh(pointer, options),
    {
        RealEsrgan { slot: Slot::Live { pointer, owners: 1 }, options }
    }

    /// Starts the creation of a handle from `options`. The creation goes on
    /// call by call, see `Creation::resume`, and is described as a whole by
    /// `creation::lemma_create`.
    pub fn new(options: Options<'a>) -> (progress: Progress<'a>)
        ensures
            progress == Creation::begin(options),
            progress matches Progress::Pending(creation, call) && creation.options() == options
                && creation.pending() == call && call == if options.gpuid == -1 {
                Creation::init_call(options)
            } else {
                Call::CountGpus
            },
    {
        Creation::start(options)
    }

    /// The address of the engine instance, for a call on it. A handle whose
    /// instance was released has none to give.
    pub fn address(&self) -> (result: Result<usize, Error>)
        ensures
            result == if self.pointer() == 0 {
                Err::<usize, Error>(Error::InvalidPointer)
            } else {
                Ok::<usize, Error>(self.pointer())
            },
    {
        proof {
            use_type_invariant(self);
        }
        match self.slot {
            Slot::Live { pointer, .. } => Ok(pointer),
            Slot::Released => Err(Error::InvalidPointer),
        }
    }

    /// The factor by which the engine enlarges each side of an image.
    pub fn scale_factor(&self) -> (scale: i32)
        ensures
            scale == self.options().scale_factor,
    {
        self.options.scale_factor
    }

    /// The number of owners that share the handle.
    pub fn owner_count(&self) -> (count: usize)
        ensures
            count == self.owners(),
    {
        proof {
            use_type_invariant(self);
        }
        match self.slot {
            Slot::Live { owners, .. } => owners,
            Slot::Released => 0,
        }
    }

    /// Counts one more owner in. A handle whose instance was released
    /// cannot be shared.
    pub fn share(&mut self) -> (result: Result<(), Error>)
        requires
            old(self).owners() < usize::MAX,
        ensures
            final(self).owners() == owners_after(old(self).owners() as nat, Turn::Share),
            final(self).pointer() == old(self).pointer(),
            final(self).options() == old(self).options(),
            result == if old(self).pointer() == 0 {
                Err::<(), Error>(Error::InvalidPointer)
            } else {
                Ok::<(), Error>(())
            },
    {
        proof {
            use_type_invariant(&*self);
        }
        match self.slot {
            Slot::Live { pointer, owners } => {
                self.slot = Slot::Live { pointer, owners: owners + 1 };
                Ok(())
            },
            Slot::Released => Err(Error::InvalidPointer),
        }
    }

    /// Counts one owner out. When it was the last, the handle lets go of the
    /// instance and returns its address, which the caller is to free.
    pub fn release(&mut self) -> (freed: Option<usize>)
        ensures
            final(self).owners() == owners_after(old(self).owners() as nat, Turn::Release),
            final(self).pointer() == if final(self).owners() == 0 {
                0
            } else {
                old(self).pointer()
            },
            final(self).options() == old(self).options(),
            freed == if frees(old(self).owners() as nat, Turn::Release) {
                Some(old(self).pointer())
            } else {
                None
            },
    {
        proof {
            use_type_invariant(&*self);
        }
        match self.slot {
            Slot::Live { pointer, owners } => {
                if owners == 1 {
                    self.slot = Slot::Released;
                    Some(pointer)
                } else {
                    self.slot = Slot::Live { pointer, owners: owners - 1 };
                    None
                }
            },
            Slot::Released => None,
        }
    }

    /// Why `process` turns down an input of `len` bytes for a `width` by
    /// `height` image, if it does: the handle has no instance, or `len` is
    /// not a whole number of `width * height` blocks.
    pub open spec fn rejection(&self, len: int, width: int, height: int) -> Option<Error> {
        if self.pointer() == 0 {
            Some(Error::InvalidPointer)
        } else if !whole_blocks(len, width * height) {
            Some(
                Error::InvalidInput {
                    expected_length: (width * height) as usize,
                    actual_length: len as usize,
                },
            )
        } else {
            None
        }
    }

    /// Whether `transform` is the call that `process` makes ready for an
    /// input of `len` bytes that it does not turn down: on the handle's
    /// instance, with the dimensions cut to 32 bits, the channels that the
    /// input holds per pixel, and a zeroed buffer of `output_length` bytes.
    pub open spec fn makes_ready(
        &self,
        len: int,
        width: int,
        height: int,
        transform: Transform,
    ) -> bool {
        let channels = len / (width * height);
        let scale = self.options().scale_factor as int;
        &&& transform.pointer == self.pointer()
        &&& transform.width == width as i32
        &&& transform.height == height as i32
        &&& transform.channels == channels as i32
        &&& transform.output@ == Seq::new(
            output_length(width, height, scale, channels) as nat,
            |i: int| 0u8,
        )
    }

    /// What enlarging an input of `len` bytes comes to when the engine
    /// answers the call with `answer`: the error of `rejection` if the call
    /// is never made, the buffer as the engine left it for status 0, and
    /// `ProcessingFailed` with the status otherwise.
    pub open spec fn processed(&self, len: int, width: int, height: int, answer: Answer) -> Result<
        Seq<u8>,
        Error,
    > {
        match self.rejection(len, width, height) {
            Some(error) => Err(error),
            None => if answer.code == 0 {
                Ok(answer.output)
            } else {
                Err(Error::ProcessingFailed { code: answer.code })
            },
        }
    }

    /// Whether the sizes that `process` computes for such an input fit the
    /// machine: the block size in `usize`, and for an input that is not
    /// turned down, each side and the area of the enlarged image in `usize`
    /// and its buffer in `isize`. A handle without an instance computes
    /// nothing, so every input fits it.
    pub open spec fn can_process(&self, len: int, width: int, height: int) -> bool {
        let scale = self.options().scale_factor as int;
        self.pointer() != 0 ==> {
            &&& width * height <= usize::MAX
            &&& whole_blocks(len, width * height) ==> {
                &&& scale >= 0
                &&& width * scale <= usize::MAX
                &&& height * scale <= usize::MAX
                &&& (width * scale) * (height * scale) <= usize::MAX
                &&& output_length(width, height, scale, len / (width * height)) <= isize::MAX
            }
        }
    }

    /// Whether `can_process` holds of an input of `len` bytes.
    pub fn sizes_fit(&self, len: usize, width: usize, height: usize) -> (fit: bool)
        ensures
            fit == self.can_process(len as int, width as int, height as int),
    {
        if self.address().is_err() {
            return true;
        }
        let block = match width.checked_mul(height) {
            Some(block) => block,
            None => return false,
        };
        if block == 0 || len % block != 0 {
            return true;
        }
        if self.options.scale_factor < 0 {
            return false;
        }
        let scale = self.options.scale_factor as usize;
        let across = match width.checked_mul(scale) {
            Some(across) => across,
            None => return false,
        };
        let down = match height.checked_mul(scale) {
            Some(down) => down,
            None => return false,
        };
        let area = match across.checked_mul(down) {
            Some(area) => area,
            None => return false,
        };
        match area.checked_mul(len / block) {
            Some(length) => length <= isize::MAX as usize,
            None => false,
        }
    }

    /// Why `process` turns down an input of `len` bytes, if it does.
    pub fn rejects(&self, len: usize, width: usize, height: usize) -> (error: Option<Error>)
        requires
            self.can_process(len as int, width as int, height as int),
        ensures
            error == self.rejection(len as int, width as int, height as int),
    {
        if self.address().is_err() {
            return Some(Error::InvalidPointer);
        }
        let expected_length = width * height;
        if expected_length == 0 || len % expected_length != 0 {
            return Some(Error::InvalidInput { expected_length, actual_length: len });
        }
        None
    }

    /// Makes ready the enlargement of a `width` by `height` image whose
    /// pixels lie in `input` row by row, the channels of a pixel side by
    /// side. The number of channels is what `input` holds per pixel.
    ///
    /// The call is turned down as `rejection` says. Otherwise the result is
    /// the call to make on the engine, with a zeroed buffer of
    /// `output_length` bytes. The engine takes the dimensions as 32-bit
    /// signed numbers: of a larger one only the low 32 bits are handed over.
    pub fn process(&self, input: &[u8], width: usize, height: usize) -> (result: Result<
        Transform,
        Error,
    >)
        requires
            self.can_process(input@.len() as int, width as int, height as int),
        ensures
            match result {
                Ok(transform) => {
                    &&& self.rejection(input@.len() as int, width as int, height as int) is None
                    &&& self.makes_ready(
                        input@.len() as int,
                        width as int,
                        height as int,
                        transform,
                    )
                },
                Err(error) => self.rejection(input@.len() as int, width as int, height as int)
                    == Some(error),
            },
    {
        if let Some(error) = self.rejects(input.len(), width, height) {
            return Err(error);
        }
        let pointer = self.address()?;
        let channels = input.len() / (width * height);
        let scale = self.options.scale_factor as usize;
        let length = (width * scale) * (height * scale) * channels;
        let output = vec![0u8; length];
        assert(output@ =~= Seq::new(length as nat, |i: int| 0u8));
        Ok(
            Transform {
                pointer,
                width: #[verifier::truncate]
                (width as i32),
                height: #[verifier::truncate]
                (height as i32),
                channels: #[verifier::truncate]
                (channels as i32),
                output,
            },
        )
    }
}

} // verus!
