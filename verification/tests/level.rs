use turbo_tracing::level::Level;

const ALL: [Level; 5] = [Level::Error, Level::Warn, Level::Info, Level::Debug, Level::Trace];

#[test]
fn severity_runs_from_error_to_trace() {
    let ranks: Vec<u8> = ALL.iter().map(|l| l.severity()).collect();
    assert_eq!(ranks, vec![0, 1, 2, 3, 4]);
}

#[test]
fn names_are_upper_case() {
    let names: Vec<&str> = ALL.iter().map(|l| l.name()).collect();
    assert_eq!(names, vec!["ERROR", "WARN", "INFO", "DEBUG", "TRACE"]);
}

#[test]
fn threshold_admits_itself_and_what_is_more_severe() {
    for threshold in ALL {
        for level in ALL {
            assert_eq!(threshold.allows(level), level.severity() <= threshold.severity());
        }
    }
    assert!(Level::Warn.allows(Level::Error));
    assert!(Level::Warn.allows(Level::Warn));
    assert!(!Level::Warn.allows(Level::Info));
}

#[test]
fn loosest_is_the_more_verbose() {
    assert_eq!(Level::Warn.loosest(Level::Debug), Level::Debug);
    assert_eq!(Level::Trace.loosest(Level::Info), Level::Trace);
    assert_eq!(Level::Info.loosest(Level::Info), Level::Info);
}

#[test]
fn verbosity_maps_to_levels() {
    assert_eq!(Level::from_verbosity(0), None);
    assert_eq!(Level::from_verbosity(1), Some(Level::Info));
    assert_eq!(Level::from_verbosity(2), Some(Level::Debug));
    assert_eq!(Level::from_verbosity(3), Some(Level::Trace));
    assert_eq!(Level::from_verbosity(17), Some(Level::Trace));
    assert_eq!(Level::from_verbosity(usize::MAX), Some(Level::Trace));
}

#[test]
fn level_names_parse_in_either_case() {
    let parse = |s: &str| {
        let chars: Vec<char> = s.chars().collect();
        Level::parse(&chars, 0, chars.len())
    };
    assert_eq!(parse("error"), Some(Level::Error));
    assert_eq!(parse("WARN"), Some(Level::Warn));
    assert_eq!(parse("Info"), Some(Level::Info));
    assert_eq!(parse("dEbUg"), Some(Level::Debug));
    assert_eq!(parse("trace"), Some(Level::Trace));
    assert_eq!(parse(""), None);
    assert_eq!(parse("warning"), None);
    assert_eq!(parse("war"), None);
    assert_eq!(parse(" info"), None);
    assert_eq!(parse("off"), None);
}

#[test]
fn level_name_parses_inside_a_longer_text() {
    let chars: Vec<char> = "hyper=warn,x".chars().collect();
    assert_eq!(Level::parse(&chars, 6, 10), Some(Level::Warn));
    assert_eq!(Level::parse(&chars, 6, 11), None);
    assert_eq!(Level::parse(&chars, 3, 3), None);
}
