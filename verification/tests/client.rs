use gtoolkit_vm::bindings::interpreter::LogLevel;
use gtoolkit_vm::client::application::{
    dialog_directory, executable_working_directory, image_search_directories, Application,
    ApplicationError,
};
use gtoolkit_vm::client::cli;
use gtoolkit_vm::client::cli::log_signals;
use gtoolkit_vm::client::images::{
    search_image_file_within_directories, try_find_image_file_in_directory, validate_user_image_file,
};
use gtoolkit_vm::client::logger::{
    beacon_log, BeaconLogger, ConsoleLogger, LogSignal, Logger, LoggerKind, NullLogger,
    VirtualMachineLogger,
};
use gtoolkit_vm::client::options::{AppOptions, WorkerThreadMode};
use gtoolkit_vm::client::runtime::{
    process_message, route_message, Constellation, EventLoopMessage, RunMode, SendRoute,
};
use gtoolkit_vm::client::version::{app_version, fetch_version, version_components, version_intro};
use gtoolkit_vm::bindings::configuration::InterpreterConfiguration;
use gtoolkit_vm::platform::OperatingSystem;
use gtoolkit_vm::bindings::export::primitive;
use gtoolkit_vm::client::cli::{extra_arguments, interpreter_configuration};
use gtoolkit_vm::client::primitives::{
    primitiveEnableLogSignal, primitiveGetEnabledLogSignals, primitiveGetNamedPrimitives,
    primitivePollBeaconLogger, primitivePollLogger, primitiveRemoveBeaconLogger,
    primitiveSetBeaconLogger, primitiveStopLogger, PrimitiveOutcome,
};

fn signal(log_type: &str, message: &str) -> LogSignal {
    LogSignal {
        log_type: log_type.to_string(),
        file_name: "gc.c".to_string(),
        function_name: "collect".to_string(),
        line: 42,
        message: message.to_string(),
    }
}

#[test]
fn worker_thread_modes() {
    assert!(WorkerThreadMode::Yes.should_run_in_worker_thread(OperatingSystem::Linux));
    assert!(!WorkerThreadMode::No.should_run_in_worker_thread(OperatingSystem::MacOs));
    assert!(WorkerThreadMode::Auto.should_run_in_worker_thread(OperatingSystem::MacOs));
    assert!(WorkerThreadMode::Auto.should_run_in_worker_thread(OperatingSystem::Windows));
    assert!(!WorkerThreadMode::Auto.should_run_in_worker_thread(OperatingSystem::Linux));
    assert!(cli::WorkerThreadMode::Auto.should_run_in_worker_thread(OperatingSystem::Linux));
    assert!(cli::WorkerThreadMode::Auto.should_run_in_worker_thread(OperatingSystem::Android));
    assert!(!cli::WorkerThreadMode::Auto.should_run_in_worker_thread(OperatingSystem::Ios));
    assert!(!cli::WorkerThreadMode::No.should_run_in_worker_thread(OperatingSystem::Linux));
}

#[test]
fn worker_thread_mode_names() {
    assert_eq!(WorkerThreadMode::from_str("yes"), Ok(WorkerThreadMode::Yes));
    assert_eq!(WorkerThreadMode::from_str("auto"), Ok(WorkerThreadMode::Auto));
    assert_eq!(WorkerThreadMode::from_str("Yes"), Err("Invalid variant: Yes".to_string()));
    assert_eq!(WorkerThreadMode::No.name(), "no");
    let options = AppOptions::new(Some("a.image".to_string()), WorkerThreadMode::Yes, false);
    assert_eq!(options.image(), Some("a.image"));
    assert!(options.should_run_in_worker_thread(OperatingSystem::Linux));
}

#[test]
fn image_in_directory() {
    let one = vec!["/d/Pharo.image".to_string(), "/d/Pharo.changes".to_string()];
    assert_eq!(try_find_image_file_in_directory(&one), Some("/d/Pharo.image".to_string()));
    let two = vec!["/d/a.image".to_string(), "/d/b.image".to_string()];
    assert_eq!(try_find_image_file_in_directory(&two), None);
    let none = vec!["/d/readme".to_string(), "/d/.image".to_string()];
    assert_eq!(try_find_image_file_in_directory(&none), None);
    let listings = vec![two.clone(), vec![], one.clone()];
    assert_eq!(search_image_file_within_directories(&listings), Some("/d/Pharo.image".to_string()));
    assert_eq!(search_image_file_within_directories(&vec![two]), None);
    assert_eq!(validate_user_image_file(Some("x.image"), true), Some("x.image".to_string()));
    assert_eq!(validate_user_image_file(Some("x.image"), false), None);
    assert_eq!(validate_user_image_file(None, true), None);
}

#[test]
fn working_directories() {
    assert_eq!(
        executable_working_directory("/apps/GT/bin/GlamorousToolkit", OperatingSystem::Linux).unwrap(),
        "/apps/GT"
    );
    assert_eq!(
        executable_working_directory(
            "/apps/GT.app/Contents/MacOS/GlamorousToolkit",
            OperatingSystem::MacOs
        )
        .unwrap(),
        "/apps"
    );
    match executable_working_directory("/vm", OperatingSystem::Linux) {
        Err(ApplicationError::NoParentDirectory(path)) => assert_eq!(path, "/"),
        _ => panic!("expected a missing parent"),
    }
    assert_eq!(
        image_search_directories("/cwd".to_string(), "/exe".to_string()),
        vec!["/cwd".to_string(), "/exe".to_string()]
    );
    assert_eq!(dialog_directory("/exe".to_string(), "/cwd".to_string(), true), "/cwd");
    assert_eq!(dialog_directory("/exe".to_string(), "/cwd".to_string(), false), "/exe");
}

#[test]
fn application_image_and_working_directory() {
    let given = AppOptions::new(Some("/images/Pharo.image".to_string()), WorkerThreadMode::No, false);
    let application = Application::new(given, Some("/other/x.image".to_string())).unwrap();
    assert_eq!(application.image(), "/images/Pharo.image");
    assert_eq!(application.working_directory(), "/images");
    let found = AppOptions::new(None, WorkerThreadMode::Auto, false);
    let application = Application::new(found.clone(), Some("/other/x.image".to_string())).unwrap();
    assert_eq!(application.image(), "/other/x.image");
    assert!(matches!(Application::new(found.clone(), None), Err(ApplicationError::ImageFileNotFound)));
    assert!(matches!(
        Application::new(found, Some("/".to_string())),
        Err(ApplicationError::NoParentDirectory(_))
    ));
}

#[test]
fn application_start_values() {
    let options = AppOptions::new(Some("/images/Pharo.image".to_string()), WorkerThreadMode::Auto, false);
    let application = Application::new(options, None).unwrap();
    assert_eq!(application.executable_name(Some("/apps/bin/gt".to_string())).unwrap(), "gt");
    assert!(matches!(
        application.executable_name(None),
        Err(ApplicationError::NoExecutableInArguments)
    ));
    assert!(matches!(
        application.executable_name(Some("/".to_string())),
        Err(ApplicationError::FailedToGetFileName(_))
    ));
    let parameters = application.interpreter_parameters("/apps/bin/gt".to_string());
    assert_eq!(
        parameters.arguments(),
        vec!["/apps/bin/gt".to_string(), "/images/Pharo.image".to_string()]
    );
    assert_eq!(parameters.image_file_name(), "/images/Pharo.image");
    assert!(parameters.is_interactive_session());
    let configuration = application.interpreter_configuration(OperatingSystem::MacOs);
    assert_eq!(configuration.image(), "/images/Pharo.image");
    assert!(configuration.is_interactive_session());
    assert!(configuration.is_worker_thread());
    assert!(!application.interpreter_configuration(OperatingSystem::Linux).is_worker_thread());
}

#[test]
fn virtual_machine_logger() {
    let mut logger = VirtualMachineLogger::new();
    assert!(logger.enabled_types().is_empty());
    logger.enable_type("GC".to_string());
    logger.enable_type("GC".to_string());
    logger.enable_type("Events".to_string());
    assert_eq!(logger.enabled_types(), vec!["GC".to_string(), "Events".to_string()]);
    assert!(!logger.should_log("GC"));
    assert_eq!(logger.log(signal("GC", "x")), None);
    logger.set_logger(LoggerKind::Console(ConsoleLogger::new()));
    assert!(logger.should_log("GC"));
    assert!(!logger.should_log("Other"));
    assert_eq!(
        logger.log(signal("GC", "  full collection \n")),
        Some("[GC] gc.c:42 full collection".to_string())
    );
    assert!(logger.poll_all().is_empty());
    logger.set_logger(LoggerKind::Null(NullLogger));
    assert!(!logger.should_log("GC"));
}

#[test]
fn loggers() {
    let mut null = NullLogger;
    assert!(null.is_null());
    assert_eq!(null.log(signal("a", "b")), None);
    let mut console = ConsoleLogger::new();
    assert!(!console.is_null());
    assert_eq!(console.log(signal("T", "m")), Some("[T] gc.c:42 m".to_string()));
    assert!(console.poll_all().is_empty());
}

#[test]
fn beacon_logger_polls_everything_once() {
    let mut beacon = BeaconLogger::new(7);
    let first = beacon_log(2, "a.c".to_string(), "f".to_string(), 1, "one".to_string()).unwrap();
    let second = beacon_log(5, "b.c".to_string(), "g".to_string(), 2, "two".to_string()).unwrap();
    assert_eq!(beacon.log(first), 7);
    assert_eq!(beacon.log(second), 7);
    let polled = beacon.poll_all();
    assert_eq!(polled.len(), 2);
    assert_eq!(polled[0].message, "one");
    assert_eq!(polled[0].level, LogLevel::Warn);
    assert_eq!(polled[1].message, "two");
    assert!(beacon.poll_all().is_empty());
    assert!(beacon_log(6, String::new(), String::new(), 0, String::new()).is_none());
}

#[test]
fn event_loop_messages() {
    assert_eq!(process_message::<u32>(EventLoopMessage::Terminate), (false, None));
    assert_eq!(process_message::<u32>(EventLoopMessage::WakeUp), (true, None));
    assert_eq!(process_message(EventLoopMessage::Call(5u32)), (true, Some(5)));
    match route_message(EventLoopMessage::Call(3u32), true, true) {
        SendRoute::Enqueue { message: EventLoopMessage::Call(3), wake: true } => {}
        _ => panic!("expected to enqueue"),
    }
    assert!(matches!(route_message(EventLoopMessage::Call(3u32), false, true), SendRoute::Call(3)));
    assert!(matches!(route_message::<u32>(EventLoopMessage::Terminate, false, false), SendRoute::Exit));
    assert!(matches!(route_message::<u32>(EventLoopMessage::WakeUp, false, false), SendRoute::Ignore));
}

#[test]
fn constellation_run_mode() {
    let mut configuration = InterpreterConfiguration::new("a.image".to_string());
    assert_eq!(Constellation::run(&configuration), RunMode::MainThread);
    configuration.set_is_worker_thread(true);
    assert_eq!(Constellation::run(&configuration), RunMode::WorkerThread);
}

#[test]
fn version_information() {
    assert_eq!(app_version(Some("1.0.7")), "1.0.7");
    assert_eq!(app_version(None), "0.0.0");
    assert_eq!(
        version_intro(Some("GlamorousToolkit"), "v1.0.7", Some("feenk"), None),
        "GlamorousToolkit v1.0.7 by feenk built on unknown"
    );
    let components = version_components("v1.0.7", Some("abc"), None, Some("VM 10"));
    assert_eq!(components[0], ("App".to_string(), "v1.0.7 - Commit: abc".to_string()));
    assert_eq!(components[1], ("App Builder".to_string(), "Commit: unknown".to_string()));
    assert_eq!(components[2], ("Pharo VM".to_string(), "VM 10".to_string()));
}

#[test]
fn beacon_log_signals() {
    assert_eq!(
        log_signals(Some(vec!["GC  Events".to_string(), "Events\tGC".to_string()]), false),
        Some(vec!["GC".to_string(), "Events".to_string(), "GC".to_string()])
    );
    assert_eq!(log_signals(None, true), Some(vec![]));
    assert_eq!(log_signals(None, false), None);
    assert_eq!(log_signals(Some(vec!["  ".to_string()]), true), Some(vec![]));
}

#[test]
fn logger_primitives() {
    let mut logger = VirtualMachineLogger::new();
    assert_eq!(primitiveEnableLogSignal(&mut logger, None), PrimitiveOutcome::Fail);
    assert_eq!(
        primitiveEnableLogSignal(&mut logger, Some("GC".to_string())),
        PrimitiveOutcome::ReturnBoolean(true)
    );
    assert_eq!(primitiveGetEnabledLogSignals(&logger), vec!["GC".to_string()]);
    assert!(primitivePollLogger(&mut logger).is_empty());
    logger.set_logger(LoggerKind::Console(ConsoleLogger::new()));
    assert_eq!(primitiveStopLogger(&mut logger), PrimitiveOutcome::ReturnBoolean(true));
    assert!(!logger.should_log("GC"));
    let mut beacon = Some(primitiveSetBeaconLogger(3));
    beacon
        .as_mut()
        .unwrap()
        .log(beacon_log(1, "f.c".to_string(), "fn".to_string(), 9, "m".to_string()).unwrap());
    let rows = primitivePollBeaconLogger(&mut beacon);
    assert_eq!(rows, vec![vec!["f.c".to_string(), "fn".to_string(), "m".to_string()]]);
    assert!(primitivePollBeaconLogger(&mut beacon).is_empty());
    assert_eq!(primitiveRemoveBeaconLogger(&mut beacon), PrimitiveOutcome::ReturnBoolean(true));
    assert!(beacon.is_none());
    assert!(primitivePollBeaconLogger(&mut beacon).is_empty());
}

#[test]
fn beacon_poll_gives_back_what_was_logged_in_order() {
    let mut beacon = BeaconLogger::new(7);
    let entries = vec![("a.c", "first"), ("b.c", "second"), ("c.c", "third")];
    for (file, message) in &entries {
        let entry = beacon_log(2, file.to_string(), "fn".to_string(), 1, message.to_string()).unwrap();
        assert_eq!(beacon.log(entry), 7);
    }
    let polled = beacon.poll_all();
    assert_eq!(polled.len(), 3);
    for (log, (file, message)) in polled.iter().zip(entries.iter()) {
        assert_eq!(log.file_name, *file);
        assert_eq!(log.message, *message);
    }
    assert!(beacon.poll_all().is_empty());
}

#[test]
fn fetch_version_reads_the_build_information() {
    let virtual_machine_info = r#"{"config": {"data": {"BUILT_FROM": "VM 10"}}}"#;
    let app_info = r#"{"app_name": "GlamorousToolkit", "builder_flags": {"author": "feenk"},
        "app_build_info": {"git_sha": "abc", "build_timestamp": "2024-01-02"},
        "builder_info": {"git_sha": "def"}}"#;
    assert_eq!(
        fetch_version(virtual_machine_info, app_info, Some("1.0.7")),
        Ok("GlamorousToolkit v1.0.7 by feenk built on 2024-01-02".to_string())
    );
    assert_eq!(
        fetch_version(virtual_machine_info, "{}", None),
        Ok("unknown v0.0.0 by unknown built on unknown".to_string())
    );
    assert_eq!(
        fetch_version(virtual_machine_info, r#"{"app_name": 5, "builder_flags": "feenk"}"#, None),
        Ok("unknown v0.0.0 by unknown built on unknown".to_string())
    );
    assert!(fetch_version("{not json", app_info, None).is_err());
    assert!(fetch_version(virtual_machine_info, "[1, 2", None).is_err());
}

#[test]
fn named_primitive_rows() {
    let exports = vec![primitive("primitiveAppInfo", 16), primitive("primitiveStopLogger", 32)];
    let rows = primitiveGetNamedPrimitives(&exports);
    assert_eq!(rows[0], ("".to_string(), "primitiveAppInfo".to_string(), 16));
    assert_eq!(rows[1], ("".to_string(), "primitiveStopLogger".to_string(), 32));
}

#[test]
fn command_line_configuration() {
    let extra = extra_arguments(Some(("eval".to_string(), vec!["2+2".to_string()])));
    assert_eq!(extra, vec!["eval".to_string(), "2+2".to_string()]);
    assert!(extra_arguments(None).is_empty());
    let configuration = interpreter_configuration(
        "Pharo.image".to_string(),
        true,
        false,
        cli::WorkerThreadMode::Auto,
        true,
        extra,
        OperatingSystem::Linux,
    );
    assert_eq!(configuration.image(), "Pharo.image");
    assert!(configuration.is_interactive_session());
    assert!(configuration.is_worker_thread());
    assert!(configuration.should_print_stack_on_signals());
    assert_eq!(configuration.extra_arguments(), vec!["eval".to_string(), "2+2".to_string()]);
}

#[test]
fn enabling_twice_is_enabling_once() {
    let mut once = VirtualMachineLogger::new();
    once.enable_type("A".to_string());
    let mut twice = VirtualMachineLogger::new();
    twice.enable_type("A".to_string());
    twice.enable_type("A".to_string());
    assert_eq!(once.enabled_types(), twice.enabled_types());
}

#[test]
fn canonical_image_option() {
    let mut options = AppOptions::new(Some("Pharo.image".to_string()), WorkerThreadMode::Auto, false);
    assert!(matches!(
        options.canonicalize(false, "/abs/Pharo.image".to_string()),
        Err(ApplicationError::ImageFileDoesNotExist(path)) if path == "Pharo.image"
    ));
    assert_eq!(options.image(), Some("Pharo.image"));
    assert!(options.canonicalize(true, "/abs/Pharo.image".to_string()).is_ok());
    assert_eq!(options.image(), Some("/abs/Pharo.image"));
    let mut none = AppOptions::new(None, WorkerThreadMode::Auto, true);
    assert!(none.canonicalize(false, "/x".to_string()).is_ok());
    assert_eq!(none.image(), None);
}
