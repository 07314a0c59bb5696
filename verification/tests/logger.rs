use space_engine::logger::{LogLevel, Logger};

#[test]
fn get_strings_gives_ansi_codes_and_tags() {
    assert_eq!(Logger::get_strings(&LogLevel::Info), ("", "INFO", ""));
    assert_eq!(Logger::get_strings(&LogLevel::Success), ("\x1b[32m", "SUCCESS", "\x1b[0m"));
    assert_eq!(Logger::get_strings(&LogLevel::Warning), ("\x1b[33m", "WARNING", "\x1b[0m"));
    assert_eq!(Logger::get_strings(&LogLevel::Error), ("\x1b[31m", "ERROR", "\x1b[0m"));
    assert_eq!(Logger::get_strings(&LogLevel::Verbose), ("\x1b[38;2;0;196;181m", "VERBOSE", "\x1b[0m"));
    assert_eq!(Logger::get_strings(&LogLevel::Keyboard), ("\x1b[38;2;3;79;42m", "KEYBOARD", "\x1b[0m"));
    assert_eq!(Logger::get_strings(&LogLevel::Mouse), ("\x1b[38;2;31;61;112m", "MOUSE", "\x1b[0m"));
    assert_eq!(Logger::get_strings(&LogLevel::Physics), ("\x1b[38;2;200;200;200m", "PHYSICS", "\x1b[0m"));
}

#[test]
fn log_formats_line_with_colours() {
    let logger = Logger::create(true, true, true, true, true);
    assert_eq!(
        logger.log("Logger initialized", LogLevel::Success),
        Some(String::from("\x1b[32m[SUCCESS]: Logger initialized\x1b[0m"))
    );
    assert_eq!(logger.log("hello", LogLevel::Info), Some(String::from("[INFO]: hello")));
}

#[test]
fn disabled_logger_prints_nothing() {
    let logger = Logger::create(false, true, true, true, true);
    assert_eq!(logger.log("x", LogLevel::Error), None);
    assert_eq!(logger.log_list("h", &vec![String::from("a")], LogLevel::Info), None);
}

#[test]
fn category_switches_filter_messages() {
    let logger = Logger::create(true, false, false, true, false);
    assert_eq!(logger.log("v", LogLevel::Verbose), None);
    assert_eq!(logger.log("k", LogLevel::Keyboard), None);
    assert_eq!(logger.log("p", LogLevel::Physics), None);
    assert!(logger.log("m", LogLevel::Mouse).is_some());
    assert!(logger.log("w", LogLevel::Warning).is_some());
    // lists only look at the verbose switch
    assert!(logger.log_list("h", &vec![], LogLevel::Keyboard).is_some());
    assert_eq!(logger.log_list("h", &vec![], LogLevel::Verbose), None);
}

#[test]
fn log_list_frames_items() {
    let logger = Logger::create(true, true, false, false, false);
    let lines = logger
        .log_list("Instance Extensions:", &vec![String::from("\"VK_KHR_surface\"")], LogLevel::Info)
        .unwrap();
    assert_eq!(lines.len(), 4);
    assert_eq!(lines[0], "====================================");
    assert_eq!(lines[1], "[INFO]: Instance Extensions:");
    assert_eq!(lines[2], "\x1b[38;2;235;122;42m[LIST]: \"VK_KHR_surface\"\x1b[0m");
    assert_eq!(lines[3], "====================================");
    let verbose = logger.log_list("Devices", &vec![String::from("a"), String::from("b")], LogLevel::Verbose).unwrap();
    assert_eq!(verbose.len(), 5);
    assert_eq!(verbose[1], "\x1b[38;2;0;196;181m[VERBOSE]: Devices\x1b[0m");
    assert_eq!(verbose[3], "\x1b[36m[VERBOSE LIST]: b\x1b[0m");
}

#[test]
fn get_logger_returns_installed_logger() {
    let installed: &'static Logger = Box::leak(Box::new(Logger::create(true, false, false, false, false)));
    let got = Logger::get_logger(Some(installed));
    assert!(std::ptr::eq(got, installed));
}
