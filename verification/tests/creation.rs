use realesrgan_rs::creation::Call;
use realesrgan_rs::creation::ExitHook;
use realesrgan_rs::creation::Progress;
use realesrgan_rs::creation::Reply;
use realesrgan_rs::Error;
use realesrgan_rs::Options;
use realesrgan_rs::RealEsrgan;

const PARAM: [u8; 3] = [1, 2, 3];
const BIN: [u8; 2] = [4, 5];

struct Engine {
    gpu_count: i32,
    instance: usize,
    param_stream: bool,
    bin_stream: bool,
    load_code: i32,
}

fn sound_engine() -> Engine {
    Engine { gpu_count: 2, instance: 0x1000, param_stream: true, bin_stream: true, load_code: 0 }
}

fn answer(engine: &Engine, call: Call) -> Reply {
    match call {
        Call::CountGpus => Reply::GpuCount(engine.gpu_count),
        Call::DestroyGpuInstance => Reply::Done,
        Call::Init { .. } => Reply::Instance(engine.instance),
        Call::OpenStreams { .. } => {
            Reply::Streams { param: engine.param_stream, bin: engine.bin_stream }
        }
        Call::LoadFiles { .. } => Reply::Loaded(engine.load_code),
        Call::CloseStreams { .. } => Reply::Done,
        Call::RegisterExitHook => Reply::Done,
    }
}

fn create<'a>(
    options: Options<'a>,
    engine: &Engine,
    hook: &mut ExitHook,
) -> (Result<RealEsrgan<'a>, Error>, Vec<Call<'a>>) {
    let mut calls = Vec::new();
    let mut progress = RealEsrgan::new(options);
    loop {
        match progress {
            Progress::Finished(result) => return (result, calls),
            Progress::Pending(creation, call) => {
                assert!(calls.len() < 6);
                calls.push(call);
                progress = creation.resume(answer(engine, call), hook);
            }
        }
    }
}

fn with_model<'a>() -> Options<'a> {
    Options::default().model_bytes(&PARAM, &BIN)
}

fn init_call(gpuid: i32) -> Call<'static> {
    Call::Init { gpuid, tta_mode: false, scale: 4, tilesize: 0 }
}

fn open_call() -> Call<'static> {
    Call::OpenStreams { param: &PARAM, bin: &BIN }
}

fn close_both() -> Call<'static> {
    Call::CloseStreams { param_stream: true, bin_stream: true }
}

#[test]
fn creation_succeeds_and_registers_the_exit_hook() {
    let mut hook = ExitHook::new();
    let (result, calls) = create(with_model(), &sound_engine(), &mut hook);
    let handle = result.unwrap();
    assert_eq!(handle.address(), Ok(0x1000));
    assert_eq!(handle.scale_factor(), 4);
    assert_eq!(
        calls,
        vec![
            Call::CountGpus,
            init_call(0),
            open_call(),
            Call::LoadFiles { pointer: 0x1000 },
            close_both(),
            Call::RegisterExitHook,
        ]
    );
}

#[test]
fn exit_hook_is_registered_by_the_first_creation_only() {
    let mut hook = ExitHook::new();
    let (first, first_calls) = create(with_model(), &sound_engine(), &mut hook);
    let (second, second_calls) = create(with_model(), &sound_engine(), &mut hook);
    let (third, third_calls) = create(with_model(), &sound_engine(), &mut hook);
    assert!(first.is_ok() && second.is_ok() && third.is_ok());
    assert_eq!(first_calls.last(), Some(&Call::RegisterExitHook));
    assert_eq!(second_calls.last(), Some(&close_both()));
    assert_eq!(third_calls.last(), Some(&close_both()));
    assert!(!second_calls.contains(&Call::RegisterExitHook));
    assert!(!third_calls.contains(&Call::RegisterExitHook));
}

#[test]
fn failed_creation_registers_no_exit_hook() {
    let mut hook = ExitHook::new();
    let broken = Engine { load_code: -3, ..sound_engine() };
    let (failed, failed_calls) = create(with_model(), &broken, &mut hook);
    assert_eq!(failed.unwrap_err(), Error::ModelLoadFailed { code: -3 });
    assert!(!failed_calls.contains(&Call::RegisterExitHook));
    let (_, calls) = create(with_model(), &sound_engine(), &mut hook);
    assert_eq!(calls.last(), Some(&Call::RegisterExitHook));
}

#[test]
fn exit_hook_says_which_registration_is_the_first() {
    let mut hook = ExitHook::new();
    assert!(hook.register());
    assert!(!hook.register());
    assert!(!hook.register());
}

#[test]
fn cpu_fallback_never_counts_gpus() {
    for gpu_count in [-7, 0, 1, i32::MAX] {
        let mut options = with_model();
        options.gpuid = -1;
        let engine = Engine { gpu_count, ..sound_engine() };
        let (result, calls) = create(options, &engine, &mut ExitHook::new());
        assert!(result.is_ok());
        assert_eq!(calls[0], init_call(-1));
        assert!(!calls.contains(&Call::CountGpus));
        assert!(!calls.contains(&Call::DestroyGpuInstance));
    }
}

#[test]
fn missing_gpu_is_reported_with_the_count() {
    let options = with_model().gpuid(2);
    let (result, calls) = create(options, &sound_engine(), &mut ExitHook::new());
    assert_eq!(result.unwrap_err(), Error::GpuNotFound { requested: 2, available: 2 });
    assert_eq!(calls, vec![Call::CountGpus, Call::DestroyGpuInstance]);

    let none = Engine { gpu_count: 0, ..sound_engine() };
    let (result, calls) = create(with_model(), &none, &mut ExitHook::new());
    assert_eq!(result.unwrap_err(), Error::GpuNotFound { requested: 0, available: 0 });
    assert_eq!(calls, vec![Call::CountGpus, Call::DestroyGpuInstance]);

    let negative = Engine { gpu_count: -1, ..sound_engine() };
    let (result, _) = create(with_model().gpuid(200), &negative, &mut ExitHook::new());
    assert_eq!(result.unwrap_err(), Error::GpuNotFound { requested: 200, available: -1 });
}

#[test]
fn last_gpu_is_found() {
    let options = with_model().gpuid(1);
    let (result, calls) = create(options, &sound_engine(), &mut ExitHook::new());
    assert!(result.is_ok());
    assert_eq!(calls[0], Call::CountGpus);
    assert_eq!(calls[1], init_call(1));
}

#[test]
fn init_call_carries_the_configuration() {
    let mut options = with_model().gpuid(1).tta_mode(true).tilesize(128);
    options.scale_factor = 3;
    let (_, calls) = create(options, &sound_engine(), &mut ExitHook::new());
    assert_eq!(calls[1], Call::Init { gpuid: 1, tta_mode: true, scale: 3, tilesize: 128 });
}

#[test]
fn null_instance_fails_the_initialization() {
    let engine = Engine { instance: 0, ..sound_engine() };
    let (result, calls) = create(with_model(), &engine, &mut ExitHook::new());
    assert_eq!(result.unwrap_err(), Error::InitializationFailed);
    assert_eq!(calls, vec![Call::CountGpus, init_call(0)]);
}

#[test]
fn empty_model_is_invalid_and_never_opened() {
    let empty: [u8; 0] = [];
    let cases = [
        Options::default(),
        Options::default().model_bytes(&PARAM, &empty),
        Options::default().model_bytes(&empty, &BIN),
    ];
    for options in cases {
        let mut hook = ExitHook::new();
        let (result, calls) = create(options, &sound_engine(), &mut hook);
        assert_eq!(result.unwrap_err(), Error::InvalidModel);
        assert_eq!(calls, vec![Call::CountGpus, init_call(0)]);
        assert!(hook.register());
    }
}

#[test]
fn empty_model_on_a_missing_gpu_reports_the_gpu() {
    let options = Options::default().gpuid(9);
    let (result, calls) = create(options, &sound_engine(), &mut ExitHook::new());
    assert_eq!(result.unwrap_err(), Error::GpuNotFound { requested: 9, available: 2 });
    assert_eq!(calls, vec![Call::CountGpus, Call::DestroyGpuInstance]);
}

#[test]
fn stream_that_was_opened_is_closed_when_the_other_fails() {
    let engine = Engine { bin_stream: false, ..sound_engine() };
    let (result, calls) = create(with_model(), &engine, &mut ExitHook::new());
    assert_eq!(result.unwrap_err(), Error::FilePointerCreationFailed);
    assert_eq!(
        calls,
        vec![
            Call::CountGpus,
            init_call(0),
            open_call(),
            Call::CloseStreams { param_stream: true, bin_stream: false },
        ]
    );

    let engine = Engine { param_stream: false, ..sound_engine() };
    let (result, calls) = create(with_model(), &engine, &mut ExitHook::new());
    assert_eq!(result.unwrap_err(), Error::FilePointerCreationFailed);
    assert_eq!(
        calls.last(),
        Some(&Call::CloseStreams { param_stream: false, bin_stream: true })
    );
}

#[test]
fn no_stream_is_closed_when_none_was_opened() {
    let engine = Engine { param_stream: false, bin_stream: false, ..sound_engine() };
    let (result, calls) = create(with_model(), &engine, &mut ExitHook::new());
    assert_eq!(result.unwrap_err(), Error::FilePointerCreationFailed);
    assert_eq!(calls, vec![Call::CountGpus, init_call(0), open_call()]);
}

#[test]
fn failed_load_closes_both_streams_and_reports_the_code() {
    let engine = Engine { load_code: 17, ..sound_engine() };
    let (result, calls) = create(with_model(), &engine, &mut ExitHook::new());
    assert_eq!(result.unwrap_err(), Error::ModelLoadFailed { code: 17 });
    assert_eq!(
        calls,
        vec![
            Call::CountGpus,
            init_call(0),
            open_call(),
            Call::LoadFiles { pointer: 0x1000 },
            close_both(),
        ]
    );
}

#[test]
fn reply_that_answers_another_call_changes_nothing() {
    let mut hook = ExitHook::new();
    let progress = RealEsrgan::new(with_model());
    let Progress::Pending(creation, call) = progress else {
        panic!("a creation starts with a call");
    };
    assert_eq!(call, Call::CountGpus);
    let Progress::Pending(creation, call) = creation.resume(Reply::Done, &mut hook) else {
        panic!("the call is still pending");
    };
    assert_eq!(call, Call::CountGpus);
    let Progress::Pending(creation, call) = creation.resume(Reply::Loaded(0), &mut hook) else {
        panic!("the call is still pending");
    };
    assert_eq!(call, Call::CountGpus);
    let Progress::Pending(creation, call) = creation.resume(Reply::GpuCount(1), &mut hook) else {
        panic!("the instance is to be allocated");
    };
    assert_eq!(call, init_call(0));
    let Progress::Pending(_, call) = creation.resume(Reply::GpuCount(1), &mut hook) else {
        panic!("the call is still pending");
    };
    assert_eq!(call, init_call(0));
}

#[test]
fn streams_never_leak_whatever_the_engine_answers() {
    let empty: [u8; 0] = [];
    for gpuid in [-1, 0, 1, 2] {
        for instance in [0usize, 0x20] {
            for param_stream in [false, true] {
                for bin_stream in [false, true] {
                    for load_code in [0, 1] {
                        for with_param in [false, true] {
                            let engine = Engine {
                                gpu_count: 2,
                                instance,
                                param_stream,
                                bin_stream,
                                load_code,
                            };
                            let mut options = Options::default();
                            options.gpuid = gpuid;
                            options.param = if with_param { &PARAM } else { &empty };
                            options.bin = &BIN;
                            let mut hook = ExitHook::new();
                            let (result, calls) = create(options, &engine, &mut hook);

                            let mut open = (false, false);
                            for call in &calls {
                                match call {
                                    Call::OpenStreams { .. } => {
                                        assert_eq!(open, (false, false));
                                        open = (param_stream, bin_stream);
                                    }
                                    Call::LoadFiles { pointer } => {
                                        assert_eq!(open, (true, true));
                                        assert_eq!(*pointer, instance);
                                    }
                                    Call::CloseStreams { param_stream, bin_stream } => {
                                        assert!(!*param_stream || open.0);
                                        assert!(!*bin_stream || open.1);
                                        open = (open.0 && !*param_stream, open.1 && !*bin_stream);
                                    }
                                    _ => {}
                                }
                            }
                            assert_eq!(open, (false, false));

                            let expected = if gpuid >= 2 {
                                Some(Error::GpuNotFound { requested: gpuid, available: 2 })
                            } else if instance == 0 {
                                Some(Error::InitializationFailed)
                            } else if !with_param {
                                Some(Error::InvalidModel)
                            } else if !param_stream || !bin_stream {
                                Some(Error::FilePointerCreationFailed)
                            } else if load_code != 0 {
                                Some(Error::ModelLoadFailed { code: load_code })
                            } else {
                                None
                            };
                            assert_eq!(result.as_ref().err(), expected.as_ref());
                            assert_eq!(hook.register(), expected.is_some());
                            if let Ok(handle) = result {
                                assert_eq!(handle.address(), Ok(instance));
                                assert_eq!(handle.owner_count(), 1);
                            }
                        }
                    }
                }
            }
        }
    }
}

#[test]
fn gpu_check_passes_for_the_cpu_fallback_whatever_the_count() {
    for count in [i32::MIN, -1, 0, 1, 7, i32::MAX] {
        assert_eq!(RealEsrgan::validate_gpu(-1, count), Ok(()));
    }
}

#[test]
fn gpu_check_reports_the_index_and_the_count() {
    assert_eq!(
        RealEsrgan::validate_gpu(0, 0),
        Err(Error::GpuNotFound { requested: 0, available: 0 })
    );
    assert_eq!(
        RealEsrgan::validate_gpu(3, 3),
        Err(Error::GpuNotFound { requested: 3, available: 3 })
    );
    assert_eq!(
        RealEsrgan::validate_gpu(5, -2),
        Err(Error::GpuNotFound { requested: 5, available: -2 })
    );
    assert_eq!(
        RealEsrgan::validate_gpu(i32::MAX, i32::MAX),
        Err(Error::GpuNotFound { requested: i32::MAX, available: i32::MAX })
    );
    assert_eq!(RealEsrgan::validate_gpu(2, 3), Ok(()));
    assert_eq!(RealEsrgan::validate_gpu(0, 1), Ok(()));
    assert_eq!(
        RealEsrgan::validate_gpu(-5, -7),
        Err(Error::GpuNotFound { requested: -5, available: -7 })
    );
    assert_eq!(RealEsrgan::validate_gpu(-5, 0), Ok(()));
}

#[test]
fn load_of_an_empty_model_asks_for_no_call() {
    let empty: [u8; 0] = [];
    let cases = [
        Options::default().model_bytes(&empty, &empty),
        Options::default().model_bytes(&[1u8], &empty),
        Options::default().model_bytes(&empty, &[1u8]),
    ];
    for options in cases {
        for pointer in [0usize, 0x10] {
            match RealEsrgan::load_model(options, pointer) {
                Progress::Finished(Err(error)) => assert_eq!(error, Error::InvalidModel),
                _ => panic!("an empty model is turned down at once"),
            }
        }
    }
}

#[test]
fn load_opens_the_streams_over_the_model() {
    match RealEsrgan::load_model(with_model(), 0x10) {
        Progress::Pending(_, call) => assert_eq!(call, open_call()),
        Progress::Finished(_) => panic!("the streams are to be opened"),
    }
    match RealEsrgan::load_model(with_model(), 0) {
        Progress::Finished(Err(error)) => assert_eq!(error, Error::InvalidPointer),
        _ => panic!("there is no instance to load into"),
    }
}
