use rocket_logger::level::{LoggingLevel, Severity, LEVEL_PARSE_ERROR};
use rocket_logger::render::{paint, Channel, Color, Logger, Record, Style};
use rocket_logger::setup::{failure_report, plan_setup};
use rocket_logger::text::{push_decimal, same_text, starts_with};

fn record(severity: Severity, channel: Channel, module: &str, message: &str) -> Record {
    Record {
        severity,
        channel,
        module: module.to_string(),
        file: "src/main.rs".to_string(),
        line: 42,
        message: message.to_string(),
    }
}

const SEVERITIES: [Severity; 5] =
    [Severity::Error, Severity::Warn, Severity::Info, Severity::Debug, Severity::Trace];

#[test]
fn level_tokens_round_trip() {
    for t in ["debug", "normal", "critical"] {
        let level = LoggingLevel::from_str(t).unwrap();
        assert_eq!(level.to_string(), t);
        assert_eq!(level.as_str(), t);
    }
    assert_eq!(LoggingLevel::from_str("critical"), Ok(LoggingLevel::Critical));
    assert_eq!(LoggingLevel::from_str("normal"), Ok(LoggingLevel::Normal));
    assert_eq!(LoggingLevel::from_str("debug"), Ok(LoggingLevel::Debug));
}

#[test]
fn invalid_level_tokens_are_refused() {
    for t in ["", "Debug", "NORMAL", "critical ", "warn", "trace", "deb", "debugx"] {
        assert_eq!(LoggingLevel::from_str(t), Err(LEVEL_PARSE_ERROR));
    }
    assert_eq!(LEVEL_PARSE_ERROR, "a log level (debug, normal, critical)");
}

#[test]
fn level_ceilings() {
    assert_eq!(LoggingLevel::Critical.max_log_level(), Severity::Warn);
    assert_eq!(LoggingLevel::Normal.max_log_level(), Severity::Info);
    assert_eq!(LoggingLevel::Debug.max_log_level(), Severity::Trace);
}

#[test]
fn enabled_follows_rank_of_ceiling() {
    for level in [LoggingLevel::Critical, LoggingLevel::Normal, LoggingLevel::Debug] {
        for s in SEVERITIES {
            let expected = s.rank() <= level.max_log_level().rank();
            assert_eq!(level.enabled(s), expected);
            assert_eq!(Logger::new(level, true).enabled(s), expected);
        }
    }
    let ranks: Vec<u8> = SEVERITIES.iter().map(|s| s.rank()).collect();
    assert_eq!(ranks, vec![1, 2, 3, 4, 5]);
    assert!(!LoggingLevel::Critical.enabled(Severity::Info));
    assert!(LoggingLevel::Critical.enabled(Severity::Warn));
    assert!(LoggingLevel::Normal.enabled(Severity::Info));
    assert!(!LoggingLevel::Normal.enabled(Severity::Debug));
    assert!(LoggingLevel::Debug.enabled(Severity::Trace));
}

#[test]
fn trace_under_normal_is_suppressed() {
    let rec = record(Severity::Trace, Channel::Plain, "app", "hidden");
    assert_eq!(Logger::new(LoggingLevel::Normal, true).render(&rec), "");
    assert_eq!(Logger::new(LoggingLevel::Normal, false).render(&rec), "");
    assert!(Logger::new(LoggingLevel::Normal, true).layout(&rec).is_empty());
}

#[test]
fn critical_continuation_warning_has_no_indent() {
    let rec = record(Severity::Warn, Channel::Continuation, "app", "disk low");
    let colored = Logger::new(LoggingLevel::Critical, true).render(&rec);
    assert_eq!(colored, "\x1b[1;33mWarning:\x1b[0m \x1b[33mdisk low\x1b[0m\n");
    let plain = Logger::new(LoggingLevel::Critical, false).render(&rec);
    assert_eq!(plain, "Warning: disk low\n");
}

#[test]
fn normal_continuation_is_indented() {
    let rec = record(Severity::Info, Channel::Continuation, "app", "address: 0.0.0.0");
    let colored = Logger::new(LoggingLevel::Normal, true).render(&rec);
    assert_eq!(colored, "    \x1b[37m=>\x1b[0m \x1b[34maddress: 0.0.0.0\x1b[0m\n");
    let plain = Logger::new(LoggingLevel::Normal, false).render(&rec);
    assert_eq!(plain, "    => address: 0.0.0.0\n");
}

#[test]
fn hyper_error_under_normal_is_suppressed() {
    let rec = record(Severity::Error, Channel::Plain, "hyper::client", "broken pipe");
    assert_eq!(Logger::new(LoggingLevel::Normal, true).render(&rec), "");
    assert_eq!(Logger::new(LoggingLevel::Critical, false).render(&rec), "");
    let rustls = record(Severity::Warn, Channel::Plain, "rustls::session", "alert");
    assert_eq!(Logger::new(LoggingLevel::Normal, true).render(&rustls), "");
}

#[test]
fn hyper_error_under_debug_is_shown() {
    let rec = record(Severity::Error, Channel::Plain, "hyper::client", "broken pipe");
    let colored = Logger::new(LoggingLevel::Debug, true).render(&rec);
    assert_eq!(colored, "\x1b[1;31mError:\x1b[0m \x1b[31mbroken pipe\x1b[0m\n");
    let plain = Logger::new(LoggingLevel::Debug, false).render(&rec);
    assert_eq!(plain, "Error: broken pipe\n");
}

#[test]
fn noise_filter_needs_the_full_prefix() {
    let rec = record(Severity::Error, Channel::Plain, "hyper", "x");
    assert_eq!(Logger::new(LoggingLevel::Normal, false).render(&rec), "Error: x\n");
    let rec = record(Severity::Error, Channel::Plain, "hyperlocal::x", "y");
    assert_eq!(Logger::new(LoggingLevel::Normal, false).render(&rec), "Error: y\n");
}

#[test]
fn launch_error_renders_as_info() {
    let rec = record(Severity::Error, Channel::Launch, "rocket", "Rocket has launched");
    let colored = Logger::new(LoggingLevel::Normal, true).render(&rec);
    assert_eq!(colored, "\x1b[34mRocket has launched\x1b[0m\n");
    let plain = Logger::new(LoggingLevel::Normal, false).render(&rec);
    assert_eq!(plain, "Rocket has launched\n");
    let critical = Logger::new(LoggingLevel::Critical, false).render(&rec);
    assert_eq!(critical, "Rocket has launched\n");
}

#[test]
fn trace_and_debug_forms() {
    let logger = Logger::new(LoggingLevel::Debug, true);
    let trace = record(Severity::Trace, Channel::Plain, "app", "tick");
    assert_eq!(logger.render(&trace), "\x1b[35mtick\x1b[0m\n");
    let debug = record(Severity::Debug, Channel::Plain, "app", "state = 3");
    assert_eq!(
        logger.render(&debug),
        "\n\x1b[1;34m-->\x1b[0m \x1b[34msrc/main.rs\x1b[0m:\x1b[34m42\x1b[0m\nstate = 3\n"
    );
    let plain = Logger::new(LoggingLevel::Debug, false);
    assert_eq!(plain.render(&debug), "\n--> src/main.rs:42\nstate = 3\n");
    assert_eq!(plain.render(&trace), "tick\n");
}

#[test]
fn debug_form_under_continuation() {
    let mut rec = record(Severity::Debug, Channel::Continuation, "app", "m");
    rec.line = 0;
    let plain = Logger::new(LoggingLevel::Debug, false);
    assert_eq!(plain.render(&rec), "    => \n--> src/main.rs:0\nm\n");
    rec.line = u32::MAX;
    assert_eq!(plain.render(&rec), "    => \n--> src/main.rs:4294967295\nm\n");
}

#[test]
fn layout_segments() {
    let rec = record(Severity::Error, Channel::Plain, "app", "boom");
    let segs = Logger::new(LoggingLevel::Normal, true).layout(&rec);
    let texts: Vec<&str> = segs.iter().map(|s| s.text.as_str()).collect();
    assert_eq!(texts, vec!["Error:", " ", "boom", "\n"]);
    assert_eq!(segs[0].style, Some(Style { color: Color::Red, bold: true }));
    assert_eq!(segs[1].style, None);
    assert_eq!(segs[2].style, Some(Style { color: Color::Red, bold: false }));
}

#[test]
fn paint_wraps_text_in_escape_codes() {
    assert_eq!(paint("go", Style { color: Color::White, bold: false }), "\x1b[37mgo\x1b[0m");
    assert_eq!(paint("go", Style { color: Color::Purple, bold: true }), "\x1b[1;35mgo\x1b[0m");
    assert_eq!(paint("", Style { color: Color::Yellow, bold: false }), "\x1b[33m\x1b[0m");
}

#[test]
fn channel_from_target() {
    assert_eq!(Channel::from_target("_"), Channel::Continuation);
    assert_eq!(Channel::from_target("launch"), Channel::Launch);
    assert_eq!(Channel::from_target("rocket::config"), Channel::Plain);
    assert_eq!(Channel::from_target(""), Channel::Plain);
    assert_eq!(Channel::from_target("Launch"), Channel::Plain);
}

#[test]
fn text_helpers() {
    assert!(same_text("abc", "abc"));
    assert!(!same_text("abc", "abd"));
    assert!(!same_text("abc", "ab"));
    assert!(starts_with("hyper::client", "hyper::"));
    assert!(!starts_with("hyp", "hyper::"));
    assert!(starts_with("x", ""));
    let mut s = String::from("line ");
    push_decimal(&mut s, 1207);
    assert_eq!(s, "line 1207");
}

#[test]
fn setup_plans() {
    let s = plan_setup(LoggingLevel::Normal, false, true);
    assert!(s.logger.colors);
    assert_eq!(s.logger.level, LoggingLevel::Normal);
    assert_eq!(s.max_level, Severity::Info);
    assert!(!s.verbose);
    let s = plan_setup(LoggingLevel::Critical, true, false);
    assert!(!s.logger.colors);
    assert_eq!(s.max_level, Severity::Warn);
}

#[test]
fn failure_reports() {
    let verbose = plan_setup(LoggingLevel::Debug, true, false);
    assert_eq!(
        failure_report(&verbose, "already set"),
        Some("Logger failed to initialize: already set\n".to_string())
    );
    let quiet = plan_setup(LoggingLevel::Debug, false, false);
    assert_eq!(failure_report(&quiet, "already set"), None);
}

#[test]
fn init_keeps_level() {
    let s = rocket_logger::init(LoggingLevel::Debug);
    assert_eq!(s.logger.level, LoggingLevel::Debug);
    assert_eq!(s.max_level, Severity::Trace);
    assert!(s.verbose);
    let s = rocket_logger::try_init(LoggingLevel::Critical, false);
    assert_eq!(s.logger.level, LoggingLevel::Critical);
    assert!(!s.verbose);
}

#[test]
fn level_parses_through_from_str_trait() {
    assert_eq!("normal".parse::<LoggingLevel>(), Ok(LoggingLevel::Normal));
    assert_eq!("verbose".parse::<LoggingLevel>(), Err(LEVEL_PARSE_ERROR));
}
