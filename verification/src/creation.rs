//! Creating a handle: the calls to make on the engine's side, in their
//! order, and what each reply leads to.

use vstd::prelude::*;
use crate::error::Error;
use crate::options::Options;
use crate::realesrgan::RealEsrgan;

verus! {

/// A call on the engine's side that creating a handle asks its driver to
/// make.
#[derive(Debug, Clone, Copy, PartialEq, Eq)]
pub enum Call<'a> {
    /// Ask how many GPUs there are. Answered by `Reply::GpuCount`.
    CountGpus,
    /// Release the process-wide GPU context. Answered by `Reply::Done`.
    DestroyGpuInstance,
    /// Allocate an engine instance. Answered by `Reply::Instance`.
    Init { gpuid: i32, tta_mode: bool, scale: i32, tilesize: i32 },
    /// Open one in-memory stream over `param` and one over `bin`. Answered
    /// by `Reply::Streams`.
    OpenStreams { param: &'a [u8], bin: &'a [u8] },
    /// Have the instance at `pointer` read the model from the two open
    /// streams. Answered by `Reply::Loaded`.
    LoadFiles { pointer: usize },
    /// Close the streams that are marked. Answered by `Reply::Done`.
    CloseStreams { param_stream: bool, bin_stream: bool },
    /// Register the hook that releases the process-wide GPU context when the
    /// process exits. Answered by `Reply::Done`.
    RegisterExitHook,
}

/// What came back from a `Call`.
#[derive(Debug, Clone, Copy, PartialEq, Eq)]
pub enum Reply {
    /// The number of GPUs.
    GpuCount(i32),
    /// The address of the new instance, 0 if none could be allocated.
    Instance(usize),
    /// For each stream, whether it was opened.
    Streams { param: bool, bin: bool },
    /// The status of the load, 0 for success.
    Loaded(i32),
    /// The call was made; it returns nothing.
    Done,
}

/// Whether this process has registered its exit hook.
#[derive(Debug)]
pub struct ExitHook {
    registered: bool,
}

impl ExitHook {
    /// Whether the hook is registered.
    pub closed spec fn registered(&self) -> bool {
        self.registered
    }

    /// The state of a process that has registered nothing yet.
    pub fn new() -> (hook: ExitHook)
        ensures
            !hook.registered(),
    {
        ExitHook { registered: false }
    }

    /// Marks the hook as registered, and says whether this call was the
    /// first to do so.
    pub fn register(&mut self) -> (first: bool)
        ensures
            first == !old(self).registered(),
            final(self).registered(),
    {
        let first = !self.registered;
        self.registered = true;
        first
    }
}

/// How far a creation has come: the call that it waits for, with what is
/// known by then.
enum Phase {
    CountingGpus,
    DestroyingGpuInstance { available: i32 },
    Initializing,
    OpeningStreams { pointer: usize },
    ClosingUnusedStreams { param: bool, bin: bool },
    Loading { pointer: usize },
    ClosingStreams { pointer: usize, code: i32 },
    RegisteringExitHook { pointer: usize },
}

/// A creation under way: the configuration, and how far it has come.
pub struct Creation<'a> {
    options: Options<'a>,
    phase: Phase,
}

/// Where a creation stands after a step.
pub enum Progress<'a> {
    /// The driver is to make the call and to resume the creation with its
    /// reply.
    Pending(Creation<'a>, Call<'a>),
    /// The creation has ended.
    Finished(Result<RealEsrgan<'a>, Error>),
}

impl Phase {
    /// The address of the instance, once one is allocated.
    spec fn pointer(self) -> Option<usize> {
        match self {
            Phase::OpeningStreams { pointer } => Some(pointer),
            Phase::Loading { pointer } => Some(pointer),
            Phase::ClosingStreams { pointer, code } => Some(pointer),
            Phase::RegisteringExitHook { pointer } => Some(pointer),
            _ => None,
        }
    }
}

impl<'a> Creation<'a> {
    /// An instance that was allocated is never at address 0.
    #[verifier::type_invariant]
    spec fn holds_live_instance(&self) -> bool {
        self.phase.pointer() != Some(0usize)
    }

    /// The configuration that the handle is created from.
    pub closed spec fn options(&self) -> Options<'a> {
        self.options
    }

    /// The call whose reply the creation waits for.
    pub closed spec fn pending(&self) -> Call<'a> {
        match self.phase {
            Phase::CountingGpus => Call::CountGpus,
            Phase::DestroyingGpuInstance { available } => Call::DestroyGpuInstance,
            Phase::Initializing => Self::init_call(self.options),
            Phase::OpeningStreams { pointer } => Call::OpenStreams {
                param: self.options.param,
                bin: self.options.bin,
            },
            Phase::ClosingUnusedStreams { param, bin } => Call::CloseStreams {
                param_stream: param,
                bin_stream: bin,
            },
            Phase::Loading { pointer } => Call::LoadFiles { pointer },
            Phase::ClosingStreams { pointer, code } => Call::CloseStreams {
                param_stream: true,
                bin_stream: true,
            },
            Phase::RegisteringExitHook { pointer } => Call::RegisterExitHook,
        }
    }

    /// The call that allocates an instance for `options`.
    pub open spec fn init_call(options: Options<'a>) -> Call<'a> {
        Call::Init {
            gpuid: options.gpuid,
            tta_mode: options.tta_mode,
            scale: options.scale_factor,
            tilesize: options.tilesize,
        }
    }

    /// Where the creation of a handle from `options` starts: a GPU that is
    /// named is looked for first; with `gpuid` -1 none is named, and the
    /// instance is allocated at once.
    pub closed spec fn begin(options: Options<'a>) -> Progress<'a> {
        if options.gpuid == -1 {
            Self::allocate(options)
        } else {
            Progress::Pending(Creation { options, phase: Phase::CountingGpus }, Call::CountGpus)
        }
    }

    /// The step that asks for the instance to be allocated.
    spec fn allocate(options: Options<'a>) -> Progress<'a> {
        Progress::Pending(
            Creation { options, phase: Phase::Initializing },
            Self::init_call(options),
        )
    }

    /// The first step of loading the model into the instance at `pointer`:
    /// a model with no parameter bytes or no weight bytes is turned down
    /// before anything is opened, and so is any model where there is no
    /// instance.
    pub closed spec fn load(options: Options<'a>, pointer: usize) -> Progress<'a> {
        if options.param@.len() == 0 || options.bin@.len() == 0 {
            Progress::Finished(Err(Error::InvalidModel))
        } else if pointer == 0 {
            Progress::Finished(Err(Error::InvalidPointer))
        } else {
            Progress::Pending(
                Creation { options, phase: Phase::OpeningStreams { pointer } },
                Call::OpenStreams { param: options.param, bin: options.bin },
            )
        }
    }

    /// The step that `reply` leads to, and the state of the exit hook after
    /// it. A reply that does not answer the pending call changes nothing:
    /// the same call is asked for again.
    pub closed spec fn next(self, reply: Reply, hook: ExitHook) -> (Progress<'a>, ExitHook) {
        let options = self.options;
        match (self.phase, reply) {
            (Phase::CountingGpus, Reply::GpuCount(count)) => {
                if RealEsrgan::gpu_missing(options.gpuid, count) {
                    (
                        Progress::Pending(
                            Creation {
                                options,
                                phase: Phase::DestroyingGpuInstance { available: count },
                            },
                            Call::DestroyGpuInstance,
                        ),
                        hook,
                    )
                } else {
                    (Self::allocate(options), hook)
                }
            },
            (Phase::DestroyingGpuInstance { available }, Reply::Done) => (
                Progress::Finished(
                    Err(Error::GpuNotFound { requested: options.gpuid, available }),
                ),
                hook,
            ),
            (Phase::Initializing, Reply::Instance(pointer)) => {
                if pointer == 0 {
                    (Progress::Finished(Err(Error::InitializationFailed)), hook)
                } else {
                    (Self::load(options, pointer), hook)
                }
            },
            (Phase::OpeningStreams { pointer }, Reply::Streams { param, bin }) => {
                if param && bin {
                    (
                        Progress::Pending(
                            Creation { options, phase: Phase::Loading { pointer } },
                            Call::LoadFiles { pointer },
                        ),
                        hook,
                    )
                } else if param || bin {
                    (
                        Progress::Pending(
                            Creation { options, phase: Phase::ClosingUnusedStreams { param, bin } },
                            Call::CloseStreams { param_stream: param, bin_stream: bin },
                        ),
                        hook,
                    )
                } else {
                    (Progress::Finished(Err(Error::FilePointerCreationFailed)), hook)
                }
            },
            (Phase::ClosingUnusedStreams { param, bin }, Reply::Done) => (
                Progress::Finished(Err(Error::FilePointerCreationFailed)),
                hook,
            ),
            (Phase::Loading { pointer }, Reply::Loaded(code)) => (
                Progress::Pending(
                    Creation { options, phase: Phase::ClosingStreams { pointer, code } },
                    Call::CloseStreams { param_stream: true, bin_stream: true },
                ),
                hook,
            ),
            (Phase::ClosingStreams { pointer, code }, Reply::Done) => {
                if code != 0 {
                    (Progress::Finished(Err(Error::ModelLoadFailed { code })), hook)
                } else if hook.registered {
                    (Progress::Finished(Ok(RealEsrgan::fresh(pointer, options))), hook)
                } else {
                    (
                        Progress::Pending(
                            Creation { options, phase: Phase::RegisteringExitHook { pointer } },
                            Call::RegisterExitHook,
                        ),
                        ExitHook { registered: true },
                    )
                }
            },
            (Phase::RegisteringExitHook { pointer }, Reply::Done) => (
                Progress::Finished(Ok(RealEsrgan::fresh(pointer, options))),
                hook,
            ),
            _ => (Progress::Pending(self, self.pending()), hook),
        }
    }

    /// Asks for the instance to be allocated.
    fn init(options: Options<'a>) -> (progress: Progress<'a>)
        ensures
            progress == Self::allocate(options),
    {
        let call = Call::Init {
            gpuid: options.gpuid,
            tta_mode: options.tta_mode,
            scale: options.scale_factor,
            tilesize: options.tilesize,
        };
        Progress::Pending(Creation { options, phase: Phase::Initializing }, call)
    }

    /// The call whose reply the creation waits for.
    fn pending_call(&self) -> (call: Call<'a>)
        ensures
            call == self.pending(),
    {
        match self.phase {
            Phase::CountingGpus => Call::CountGpus,
            Phase::DestroyingGpuInstance { .. } => Call::DestroyGpuInstance,
            Phase::Initializing => Call::Init {
                gpuid: self.options.gpuid,
                tta_mode: self.options.tta_mode,
                scale: self.options.scale_factor,
                tilesize: self.options.tilesize,
            },
            Phase::OpeningStreams { .. } => Call::OpenStreams {
                param: self.options.param,
                bin: self.options.bin,
            },
            Phase::ClosingUnusedStreams { param, bin } => Call::CloseStreams {
                param_stream: param,
                bin_stream: bin,
            },
            Phase::Loading { pointer } => Call::LoadFiles { pointer },
            Phase::ClosingStreams { .. } => Call::CloseStreams {
                param_stream: true,
                bin_stream: true,
            },
            Phase::RegisteringExitHook { .. } => Call::RegisterExitHook,
        }
    }

    /// Starts the creation of a handle from `options`.
    pub(crate) fn start(options: Options<'a>) -> (progress: Progress<'a>)
        ensures
            progress == Self::begin(options),
            progress matches Progress::Pending(creation, call) && creation.options() == options
                && creation.pending() == call && call == if options.gpuid == -1 {
                Self::init_call(options)
            } else {
                Call::CountGpus
            },
    {
        if options.gpuid == -1 {
            Self::init(options)
        } else {
            Progress::Pending(Creation { options, phase: Phase::CountingGpus }, Call::CountGpus)
        }
    }

    /// Takes the creation one step on with the reply to its pending call,
    /// as `next` says. The exit hook is that of the process: it is marked by
    /// the step that asks for its registration.
    pub fn resume(self, reply: Reply, hook: &mut ExitHook) -> (progress: Progress<'a>)
        ensures
            (progress, *final(hook)) == self.next(reply, *old(hook)),
            progress matches Progress::Pending(creation, call) ==> creation.options()
                == self.options() && creation.pending() == call,
            old(hook).registered() ==> final(hook).registered(),
    {
        proof {
            use_type_invariant(&self);
        }
        let Creation { options, phase } = self;
        match (phase, reply) {
            (Phase::CountingGpus, Reply::GpuCount(count)) => {
                match RealEsrgan::validate_gpu(options.gpuid, count) {
                    Err(_) => Progress::Pending(
                        Creation {
                            options,
                            phase: Phase::DestroyingGpuInstance { available: count },
                        },
                        Call::DestroyGpuInstance,
                    ),
                    Ok(_) => Self::init(options),
                }
            },
            (Phase::DestroyingGpuInstance { available }, Reply::Done) => Progress::Finished(
                Err(Error::GpuNotFound { requested: options.gpuid, available }),
            ),
            (Phase::Initializing, Reply::Instance(pointer)) => {
                if pointer == 0 {
                    Progress::Finished(Err(Error::InitializationFailed))
                } else {
                    RealEsrgan::load_model(options, pointer)
                }
            },
            (Phase::OpeningStreams { pointer }, Reply::Streams { param, bin }) => {
                if param && bin {
                    Progress::Pending(
                        Creation { options, phase: Phase::Loading { pointer } },
                        Call::LoadFiles { pointer },
                    )
                } else if param || bin {
                    Progress::Pending(
                        Creation { options, phase: Phase::ClosingUnusedStreams { param, bin } },
                        Call::CloseStreams { param_stream: param, bin_stream: bin },
                    )
                } else {
                    Progress::Finished(Err(Error::FilePointerCreationFailed))
                }
            },
            (Phase::ClosingUnusedStreams { .. }, Reply::Done) => Progress::Finished(
                Err(Error::FilePointerCreationFailed),
            ),
            (Phase::Loading { pointer }, Reply::Loaded(code)) => Progress::Pending(
                Creation { options, phase: Phase::ClosingStreams { pointer, code } },
                Call::CloseStreams { param_stream: true, bin_stream: true },
            ),
            (Phase::ClosingStreams { pointer, code }, Reply::Done) => {
                if code != 0 {
                    Progress::Finished(Err(Error::ModelLoadFailed { code }))
                } else if hook.register() {
                    Progress::Pending(
                        Creation { options, phase: Phase::RegisteringExitHook { pointer } },
                        Call::RegisterExitHook,
                    )
                } else {
                    Progress::Finished(Ok(RealEsrgan::created(pointer, options)))
                }
            },
            (Phase::RegisteringExitHook { pointer }, Reply::Done) => Progress::Finished(
                Ok(RealEsrgan::created(pointer, options)),
            ),
            (phase, _) => {
                let creation = Creation { options, phase };
                let call = creation.pending_call();
                Progress::Pending(creation, call)
            },
        }
    }
}

impl<'a> RealEsrgan<'a> {
    /// Whether the GPU index `gpu` is missing where `count` GPUs are
    /// present: it names a GPU, which -1 does not, and is not below `count`.
    pub open spec fn gpu_missing(gpu: i32, count: i32) -> bool {
        gpu != -1 && gpu >= count
    }

    /// Checks the GPU index `gpu` against the `count` of GPUs present. With
    /// -1 no GPU is named, and the check passes whatever `count` is. A GPU
    /// that is missing gives `GpuNotFound` with the index and the count.
    pub fn validate_gpu(gpu: i32, count: i32) -> (result: Result<(), Error>)
        ensures
            result == if Self::gpu_missing(gpu, count) {
                Err::<(), Error>(Error::GpuNotFound { requested: gpu, available: count })
            } else {
                Ok::<(), Error>(())
            },
    {
        if gpu != -1 && gpu >= count {
            Err(Error::GpuNotFound { requested: gpu, available: count })
        } else {
            Ok(())
        }
    }

    /// Starts loading the model of `options` into the instance at
    /// `pointer`. A model without parameter bytes or without weight bytes
    /// fails at once with `InvalidModel`, and any other model fails with
    /// `InvalidPointer` where there is no instance: in both cases no call
    /// is asked for. Otherwise the streams over the model are to be opened.
    pub fn load_model(options: Options<'a>, pointer: usize) -> (progress: Progress<'a>)
        ensures
            progress == Creation::load(options, pointer),
            options.param@.len() == 0 || options.bin@.len() == 0 ==> progress
                == Progress::Finished(Err(Error::InvalidModel)),
            options.param@.len() > 0 && options.bin@.len() > 0 && pointer == 0 ==> progress
                == Progress::Finished(Err(Error::InvalidPointer)),
            options.param@.len() > 0 && options.bin@.len() > 0 && pointer != 0 ==> (
            progress matches Progress::Pending(creation, call) && creation.options() == options
                && creation.pending() == call && call == (Call::OpenStreams {
                param: options.param,
                bin: options.bin,
            })),
    {
        if options.param.len() == 0 || options.bin.len() == 0 {
            return Progress::Finished(Err(Error::InvalidModel));
        }
        if pointer == 0 {
            return Progress::Finished(Err(Error::InvalidPointer));
        }
        let call = Call::OpenStreams { param: options.param, bin: options.bin };
        Progress::Pending(Creation { options, phase: Phase::OpeningStreams { pointer } }, call)
    }
}

/// Whether `reply` is the kind of reply that answers `call`.
pub open spec fn answers(call: Call, reply: Reply) -> bool {
    match call {
        Call::CountGpus => reply is GpuCount,
        Call::Init { .. } => reply is Instance,
        Call::OpenStreams { .. } => reply is Streams,
        Call::LoadFiles { .. } => reply is Loaded,
        Call::DestroyGpuInstance => reply is Done,
        Call::CloseStreams { .. } => reply is Done,
        Call::RegisterExitHook => reply is Done,
    }
}

/// A reply that does not answer the pending call changes nothing: the
/// creation stays where it is and asks for the same call again.
pub proof fn lemma_stray_reply_is_ignored<'a>(creation: Creation<'a>, reply: Reply, hook: ExitHook)
    requires
        !answers(creation.pending(), reply),
    ensures
        creation.next(reply, hook) == (Progress::Pending(creation, creation.pending()), hook),
{
}

/// One way the engine's side can behave: what it answers to each kind of
/// call.
pub struct World {
    pub gpu_count: i32,
    pub instance: usize,
    pub param_stream: bool,
    pub bin_stream: bool,
    pub load_code: i32,
}

impl World {
    /// The reply of this world to `call`.
    pub open spec fn answer(self, call: Call) -> Reply {
        match call {
            Call::CountGpus => Reply::GpuCount(self.gpu_count),
            Call::DestroyGpuInstance => Reply::Done,
            Call::Init { .. } => Reply::Instance(self.instance),
            Call::OpenStreams { .. } => Reply::Streams {
                param: self.param_stream,
                bin: self.bin_stream,
            },
            Call::LoadFiles { .. } => Reply::Loaded(self.load_code),
            Call::CloseStreams { .. } => Reply::Done,
            Call::RegisterExitHook => Reply::Done,
        }
    }
}

/// A creation driven to its end: how it ended, the calls that were made, in
/// order, and the exit hook afterwards.
pub struct Run<'a> {
    pub result: Option<Result<RealEsrgan<'a>, Error>>,
    pub calls: Seq<Call<'a>>,
    pub hook: ExitHook,
}

/// Drives `progress` in `world` for at most `steps` calls. The result is
/// `None` if the creation has not ended by then.
pub open spec fn drive<'a>(progress: Progress<'a>, world: World, hook: ExitHook, steps: nat) -> Run<
    'a,
>
    decreases steps,
{
    match progress {
        Progress::Finished(result) => Run { result: Some(result), calls: Seq::empty(), hook },
        Progress::Pending(creation, call) => {
            if steps == 0 {
                Run { result: None, calls: Seq::empty(), hook }
            } else {
                let (then, hook_then) = creation.next(world.answer(call), hook);
                let rest = drive(then, world, hook_then, (steps - 1) as nat);
                Run { result: rest.result, calls: seq![call] + rest.calls, hook: rest.hook }
            }
        },
    }
}

/// The creation of a handle from `options` in `world`, from its start to
/// its end. No creation makes more than six calls.
pub open spec fn create<'a>(options: Options<'a>, world: World, hook: ExitHook) -> Run<'a> {
    drive(Creation::begin(options), world, hook, 6)
}

/// Whether `options` name a GPU that `world` does not have.
pub open spec fn gpu_not_found(options: Options, world: World) -> bool {
    RealEsrgan::gpu_missing(options.gpuid, world.gpu_count)
}

/// Why the creation of a handle from `options` fails in `world`, if it
/// does. The checks are made in this order: the GPU, the instance, the
/// model bytes, the streams, the load.
pub open spec fn failure(options: Options, world: World) -> Option<Error> {
    if gpu_not_found(options, world) {
        Some(Error::GpuNotFound { requested: options.gpuid, available: world.gpu_count })
    } else if world.instance == 0 {
        Some(Error::InitializationFailed)
    } else if options.param@.len() == 0 || options.bin@.len() == 0 {
        Some(Error::InvalidModel)
    } else if !world.param_stream || !world.bin_stream {
        Some(Error::FilePointerCreationFailed)
    } else if world.load_code != 0 {
        Some(Error::ModelLoadFailed { code: world.load_code })
    } else {
        None
    }
}

/// The calls that look for the GPU which `options` name.
pub open spec fn gpu_calls<'a>(options: Options<'a>, world: World) -> Seq<Call<'a>> {
    if options.gpuid == -1 {
        Seq::empty()
    } else if options.gpuid >= world.gpu_count {
        seq![Call::CountGpus, Call::DestroyGpuInstance]
    } else {
        seq![Call::CountGpus]
    }
}

/// The calls that load the model of `options` into a new instance of
/// `world`. Every stream that was opened is closed again, whether the load
/// succeeds, fails, or is never made.
pub open spec fn load_calls<'a>(options: Options<'a>, world: World) -> Seq<Call<'a>> {
    let open = Call::OpenStreams { param: options.param, bin: options.bin };
    if options.param@.len() == 0 || options.bin@.len() == 0 {
        Seq::empty()
    } else if world.param_stream && world.bin_stream {
        seq![
            open,
            Call::LoadFiles { pointer: world.instance },
            Call::CloseStreams { param_stream: true, bin_stream: true },
        ]
    } else if world.param_stream || world.bin_stream {
        seq![
            open,
            Call::CloseStreams { param_stream: world.param_stream, bin_stream: world.bin_stream },
        ]
    } else {
        seq![open]
    }
}

/// The calls that the creation of a handle from `options` makes in `world`,
/// in order, where `registered` says whether the process had its exit hook
/// before.
pub open spec fn calls<'a>(options: Options<'a>, world: World, registered: bool) -> Seq<Call<'a>> {
    if gpu_not_found(options, world) {
        gpu_calls(options, world)
    } else if world.instance == 0 {
        gpu_calls(options, world) + seq![Creation::init_call(options)]
    } else if failure(options, world) is Some || registered {
        gpu_calls(options, world) + seq![Creation::init_call(options)] + load_calls(options, world)
    } else {
        gpu_calls(options, world) + seq![Creation::init_call(options)] + load_calls(options, world)
            + seq![Call::RegisterExitHook]
    }
}

/// A creation ends, whatever the engine's side answers. It fails exactly
/// as `failure` says, and otherwise gives a handle with one owner on the
/// instance that was allocated, holding the configuration unchanged. It
/// makes the calls that `calls` lists and no others. The exit hook is
/// registered by the first creation that succeeds, and by no other.
pub proof fn lemma_create<'a>(options: Options<'a>, world: World, hook: ExitHook)
    ensures
        match create(options, world, hook).result {
            Some(Ok(handle)) => {
                &&& failure(options, world) is None
                &&& handle == RealEsrgan::fresh(world.instance, options)
                &&& handle.pointer() == world.instance
                &&& handle.owners() == 1
                &&& handle.options() == options
            },
            Some(Err(error)) => failure(options, world) == Some(error),
            None => false,
        },
        create(options, world, hook).calls == calls(options, world, hook.registered()),
        create(options, world, hook).hook.registered() == (hook.registered() || failure(
            options,
            world,
        ) is None),
{
    reveal_with_fuel(drive, 7);
    if world.instance != 0 {
        RealEsrgan::lemma_fresh(world.instance, options);
    }
}

/// With `gpuid` -1 no GPU is looked for: the creation asks for no GPU
/// count, starts by allocating the instance, and does not fail with
/// `GpuNotFound`, however many GPUs there are.
pub proof fn lemma_cpu_fallback_skips_gpu_check<'a>(
    options: Options<'a>,
    world: World,
    hook: ExitHook,
)
    requires
        options.gpuid == -1,
    ensures
        !(create(options, world, hook).result matches Some(Err(Error::GpuNotFound { .. }))),
        !create(options, world, hook).calls.contains(Call::CountGpus),
        create(options, world, hook).calls[0] == Creation::init_call(options),
{
    lemma_create(options, world, hook);
}

/// A GPU index from 0 up that is not below the number of GPUs fails the
/// creation with `GpuNotFound`, which reports the index asked for and the
/// number that was counted. The GPU context is released, and no instance is
/// allocated.
pub proof fn lemma_missing_gpu_is_reported<'a>(options: Options<'a>, world: World, hook: ExitHook)
    requires
        options.gpuid >= 0,
        options.gpuid >= world.gpu_count,
    ensures
        create(options, world, hook).result == Some(
            Err::<RealEsrgan<'a>, Error>(
                Error::GpuNotFound { requested: options.gpuid, available: world.gpu_count },
            ),
        ),
        create(options, world, hook).calls == seq![Call::CountGpus, Call::DestroyGpuInstance],
        create(options, world, hook).hook == hook,
{
    lemma_create(options, world, hook);
}

/// A model without parameter bytes or without weight bytes gives no handle,
/// and nothing of it reaches the engine: no stream is opened over it and no
/// load is asked for.
pub proof fn lemma_empty_model_is_never_loaded<'a>(
    options: Options<'a>,
    world: World,
    hook: ExitHook,
)
    requires
        options.param@.len() == 0 || options.bin@.len() == 0,
    ensures
        create(options, world, hook).result matches Some(Err(_)),
        forall|i: int|
            0 <= i < create(options, world, hook).calls.len() ==> {
                let call = #[trigger] create(options, world, hook).calls[i];
                call is CountGpus || call is DestroyGpuInstance || call is Init
            },
        create(options, world, hook).hook == hook,
{
    lemma_create(options, world, hook);
}

/// Where the GPU is found and an instance is allocated, a model without
/// parameter bytes or without weight bytes fails the creation with
/// `InvalidModel`, and allocating the instance is the last call made.
pub proof fn lemma_empty_model_is_invalid<'a>(options: Options<'a>, world: World, hook: ExitHook)
    requires
        options.param@.len() == 0 || options.bin@.len() == 0,
        !gpu_not_found(options, world),
        world.instance != 0,
    ensures
        create(options, world, hook).result == Some(
            Err::<RealEsrgan<'a>, Error>(Error::InvalidModel),
        ),
        create(options, world, hook).calls.last() == Creation::init_call(options),
{
    lemma_create(options, world, hook);
}

/// Which of the two streams are open after `calls`, the parameter stream
/// first, where `world` says which of them an `OpenStreams` opens.
pub open spec fn streams_open(calls: Seq<Call>, world: World) -> (bool, bool)
    decreases calls.len(),
{
    if calls.len() == 0 {
        (false, false)
    } else {
        let before = streams_open(calls.drop_last(), world);
        match calls.last() {
            Call::OpenStreams { .. } => (world.param_stream, world.bin_stream),
            Call::CloseStreams { param_stream, bin_stream } => (
                before.0 && !param_stream,
                before.1 && !bin_stream,
            ),
            _ => before,
        }
    }
}

/// Whether `calls` use the streams in order: streams are opened only while
/// none is open, the model is loaded only while both are open, and a stream
/// is closed only while it is open.
pub open spec fn streams_in_order(calls: Seq<Call>, world: World) -> bool
    decreases calls.len(),
{
    if calls.len() == 0 {
        true
    } else {
        let before = streams_open(calls.drop_last(), world);
        &&& streams_in_order(calls.drop_last(), world)
        &&& match calls.last() {
            Call::OpenStreams { .. } => !before.0 && !before.1,
            Call::LoadFiles { .. } => before.0 && before.1,
            Call::CloseStreams { param_stream, bin_stream } => (param_stream ==> before.0) && (
            bin_stream ==> before.1),
            _ => true,
        }
    }
}

/// A creation uses the streams in order and leaves none open, whether it
/// succeeds or fails.
pub proof fn lemma_streams_do_not_leak<'a>(options: Options<'a>, world: World, hook: ExitHook)
    ensures
        streams_in_order(create(options, world, hook).calls, world),
        streams_open(create(options, world, hook).calls, world) == (false, false),
{
    lemma_create(options, world, hook);
    let made = calls(options, world, hook.registered());
    lemma_streams_of_prefix(made, world, made.len() as int);
    assert(made.take(made.len() as int) =~= made);
}

/// The streams after the first `upto` calls of a creation: none is open
/// before they are opened and after they are closed, and they are used in
/// order throughout.
proof fn lemma_streams_of_prefix(made: Seq<Call>, world: World, upto: int)
    requires
        0 <= upto <= made.len(),
        exists|options: Options, registered: bool| made == calls(options, world, registered),
    ensures
        streams_in_order(made.take(upto), world),
        streams_open(made.take(upto), world) == if upto > 0 && made[upto - 1] is OpenStreams {
            (world.param_stream, world.bin_stream)
        } else if upto > 0 && made[upto - 1] is LoadFiles {
            (true, true)
        } else {
            (false, false)
        },
    decreases upto,
{
    if upto > 0 {
        lemma_streams_of_prefix(made, world, upto - 1);
        assert(made.take(upto).drop_last() =~= made.take(upto - 1));
    }
}

} // verus!
