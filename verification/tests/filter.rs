use turbo_tracing::filter::{Directive, SeverityFilter};
use turbo_tracing::level::Level;

const ALL: [Level; 5] = [Level::Error, Level::Warn, Level::Info, Level::Debug, Level::Trace];

fn rule(target: &str, level: Level) -> Option<Directive> {
    Some(Directive { target: Some(target.to_string()), level })
}

#[test]
fn directive_with_target_and_level() {
    assert_eq!(Directive::parse("hyper=warn"), rule("hyper", Level::Warn));
    assert_eq!(Directive::parse("turborepo_lib::daemon=TRACE"), rule("turborepo_lib::daemon", Level::Trace));
    assert_eq!(Directive::parse("a b=Debug"), rule("a b", Level::Debug));
}

#[test]
fn bare_level_is_the_default_rule() {
    assert_eq!(Directive::parse("debug"), Some(Directive { target: None, level: Level::Debug }));
    assert_eq!(Directive::parse("ERROR"), Some(Directive { target: None, level: Level::Error }));
}

#[test]
fn pieces_that_are_no_directive() {
    assert_eq!(Directive::parse(""), None);
    assert_eq!(Directive::parse("hyper"), None);
    assert_eq!(Directive::parse("=warn"), None);
    assert_eq!(Directive::parse("hyper="), None);
    assert_eq!(Directive::parse("hyper=loud"), None);
    assert_eq!(Directive::parse("a=b=warn"), None);
    assert_eq!(Directive::parse("hyper=warn "), None);
    assert_eq!(Directive::parse("="), None);
}

#[test]
fn target_may_hold_any_character_but_the_equals_sign() {
    assert_eq!(Directive::parse("bücher::größe=info"), rule("bücher::größe", Level::Info));
}

#[test]
fn filter_without_rules_uses_the_default() {
    let filter = SeverityFilter::new(Level::Info);
    assert_eq!(filter.default_level(), Level::Info);
    assert_eq!(filter.threshold("anything"), Level::Info);
    assert_eq!(filter.threshold(""), Level::Info);
    assert!(filter.allows(Level::Info, "anything"));
    assert!(!filter.allows(Level::Debug, "anything"));
}

#[test]
fn longest_matching_prefix_wins() {
    let mut filter = SeverityFilter::new(Level::Warn);
    filter.set_rule("app", Level::Info);
    filter.set_rule("app::db", Level::Trace);
    filter.set_rule("app::db::pool", Level::Error);
    assert_eq!(filter.threshold("app"), Level::Info);
    assert_eq!(filter.threshold("app::web"), Level::Info);
    assert_eq!(filter.threshold("app::db"), Level::Trace);
    assert_eq!(filter.threshold("app::db::query"), Level::Trace);
    assert_eq!(filter.threshold("app::db::pool"), Level::Error);
    assert_eq!(filter.threshold("app::db::pool::idle"), Level::Error);
    assert_eq!(filter.threshold("ap"), Level::Warn);
    assert_eq!(filter.threshold("other"), Level::Warn);
}

#[test]
fn order_of_rules_does_not_matter_for_the_match() {
    let mut filter = SeverityFilter::new(Level::Warn);
    filter.set_rule("app::db::pool", Level::Error);
    filter.set_rule("app::db", Level::Trace);
    filter.set_rule("app", Level::Info);
    assert_eq!(filter.threshold("app::db::pool::idle"), Level::Error);
    assert_eq!(filter.threshold("app::db::query"), Level::Trace);
    assert_eq!(filter.threshold("app::web"), Level::Info);
}

#[test]
fn prefix_is_a_prefix_of_characters() {
    let mut filter = SeverityFilter::new(Level::Error);
    filter.set_rule("hyper", Level::Debug);
    assert_eq!(filter.threshold("hyperion"), Level::Debug);
    assert_eq!(filter.threshold("hype"), Level::Error);
    assert_eq!(filter.threshold("Hyper"), Level::Error);
}

#[test]
fn later_rule_for_the_same_target_replaces_the_earlier() {
    let mut filter = SeverityFilter::new(Level::Warn);
    filter.set_rule("app", Level::Trace);
    filter.set_rule("app", Level::Error);
    assert_eq!(filter.threshold("app::web"), Level::Error);
    filter.set_rule("app", Level::Debug);
    assert_eq!(filter.threshold("app::web"), Level::Debug);
}

#[test]
fn rule_for_the_empty_prefix_matches_everything() {
    let mut filter = SeverityFilter::new(Level::Error);
    filter.set_rule("", Level::Debug);
    assert_eq!(filter.threshold("anything"), Level::Debug);
    assert_eq!(filter.default_level(), Level::Error);
}

#[test]
fn add_directive_sets_rule_or_default() {
    let mut filter = SeverityFilter::new(Level::Warn);
    filter.add_directive(&Directive { target: Some("app".to_string()), level: Level::Trace });
    filter.add_directive(&Directive { target: None, level: Level::Info });
    assert_eq!(filter.threshold("app"), Level::Trace);
    assert_eq!(filter.threshold("other"), Level::Info);
    assert_eq!(filter.default_level(), Level::Info);
}

#[test]
fn directive_string_is_applied_from_left_to_right() {
    let mut filter = SeverityFilter::new(Level::Warn);
    filter.apply_directives("app=debug,info,app::db=trace,app=error,,junk,x=nope");
    assert_eq!(filter.default_level(), Level::Info);
    assert_eq!(filter.threshold("app::web"), Level::Error);
    assert_eq!(filter.threshold("app::db"), Level::Trace);
    assert_eq!(filter.threshold("junk"), Level::Info);
    assert_eq!(filter.threshold("x"), Level::Info);
}

#[test]
fn empty_directive_string_changes_nothing() {
    let mut filter = SeverityFilter::new(Level::Warn);
    filter.set_rule("app", Level::Debug);
    filter.apply_directives("");
    assert_eq!(filter.default_level(), Level::Warn);
    assert_eq!(filter.threshold("app"), Level::Debug);
    filter.apply_directives(",,,");
    assert_eq!(filter.default_level(), Level::Warn);
    assert_eq!(filter.threshold("app"), Level::Debug);
}

#[test]
fn trailing_and_leading_commas_are_harmless() {
    let mut filter = SeverityFilter::new(Level::Warn);
    filter.apply_directives(",app=trace,");
    assert_eq!(filter.threshold("app"), Level::Trace);
    assert_eq!(filter.default_level(), Level::Warn);
}

#[test]
fn default_build_lets_warnings_and_errors_through_everywhere() {
    let filter = SeverityFilter::build(Level::Warn, 0, None);
    for target in ["", "turborepo_lib::run", "reqwest", "hyper::client", "h2", "tokio"] {
        assert!(filter.allows(Level::Error, target));
        assert!(filter.allows(Level::Warn, target));
        assert!(!filter.allows(Level::Info, target));
        assert!(!filter.allows(Level::Debug, target));
        assert!(!filter.allows(Level::Trace, target));
    }
}

#[test]
fn noisy_targets_stay_at_warn_whatever_the_override_asks() {
    for noisy in ["reqwest", "hyper", "h2"] {
        let env = format!("{}=trace", noisy);
        for verbosity in [0, 1, 2, 3] {
            let filter = SeverityFilter::build(Level::Warn, verbosity, Some(&env));
            assert_eq!(filter.threshold(noisy), Level::Warn);
            assert!(filter.allows(Level::Error, noisy));
            assert!(filter.allows(Level::Warn, noisy));
            assert!(!filter.allows(Level::Info, noisy));
            assert!(!filter.allows(Level::Debug, noisy));
            assert!(!filter.allows(Level::Trace, noisy));
        }
    }
}

#[test]
fn noisy_targets_stay_at_warn_under_a_verbose_default() {
    let filter = SeverityFilter::build(Level::Warn, 3, Some("trace"));
    assert_eq!(filter.default_level(), Level::Trace);
    assert_eq!(filter.threshold("hyper::client::pool"), Level::Warn);
    assert_eq!(filter.threshold("reqwest::connect"), Level::Warn);
    assert_eq!(filter.threshold("h2::codec"), Level::Warn);
    assert_eq!(filter.threshold("turborepo_lib"), Level::Trace);
}

#[test]
fn override_for_an_error_only_noisy_target_is_lifted_to_warn() {
    let filter = SeverityFilter::build(Level::Warn, 0, Some("hyper=error"));
    assert_eq!(filter.threshold("hyper"), Level::Warn);
}

#[test]
fn verbosity_raises_the_default_only() {
    let env = Some("app=error");
    let expected = [Level::Warn, Level::Info, Level::Debug, Level::Trace, Level::Trace];
    for (verbosity, default) in expected.iter().enumerate() {
        let filter = SeverityFilter::build(Level::Warn, verbosity, env);
        assert_eq!(filter.default_level(), *default);
        assert_eq!(filter.threshold("other"), *default);
        assert_eq!(filter.threshold("app::web"), Level::Error);
        assert_eq!(filter.threshold("hyper"), Level::Warn);
    }
}

#[test]
fn verbosity_never_lowers_a_more_verbose_default() {
    let filter = SeverityFilter::build(Level::Warn, 1, Some("trace"));
    assert_eq!(filter.default_level(), Level::Trace);
    let filter = SeverityFilter::build(Level::Debug, 1, None);
    assert_eq!(filter.default_level(), Level::Debug);
    let filter = SeverityFilter::build(Level::Info, 1, None);
    assert_eq!(filter.default_level(), Level::Info);
}

#[test]
fn override_sets_the_default_where_it_names_a_level() {
    let filter = SeverityFilter::build(Level::Warn, 0, Some("debug"));
    assert_eq!(filter.default_level(), Level::Debug);
    let filter = SeverityFilter::build(Level::Warn, 0, Some("error"));
    assert_eq!(filter.default_level(), Level::Error);
    assert!(!filter.allows(Level::Warn, "app"));
    assert!(filter.allows(Level::Warn, "hyper"));
}

#[test]
fn compose_keeps_the_rules_of_its_base() {
    let mut base = SeverityFilter::new(Level::Info);
    base.set_rule("turborepo", Level::Trace);
    let filter = SeverityFilter::compose(base, 0, Some("turborepo::noisy=warn"));
    assert_eq!(filter.threshold("turborepo::run"), Level::Trace);
    assert_eq!(filter.threshold("turborepo::noisy::inner"), Level::Warn);
    assert_eq!(filter.threshold("other"), Level::Info);
    assert_eq!(filter.threshold("h2"), Level::Warn);
}

#[test]
fn error_passes_every_filter() {
    let mut filter = SeverityFilter::build(Level::Error, 0, Some("a=error,b=trace"));
    filter.set_rule("c", Level::Error);
    for target in ["a", "b", "c", "d", "hyper"] {
        assert!(filter.allows(Level::Error, target));
    }
}

#[test]
fn allows_agrees_with_threshold() {
    let filter = SeverityFilter::build(Level::Info, 2, Some("a=error,b::c=trace,warn"));
    for target in ["a", "a::x", "b", "b::c", "b::c::d", "hyper", "zzz"] {
        let threshold = filter.threshold(target);
        for level in ALL {
            assert_eq!(filter.allows(level, target), threshold.allows(level));
        }
    }
}
