use lookout::alert::{check_and_alert, mismatch_text, AlertAction, AlertConfig};
use lookout::decimal::{decimal_string, signed_decimal_string};
use lookout::error::MonitorError;
use lookout::extract::extract;
use lookout::logline::{info, info_warn, log_padding, warn, Level};
use lookout::lookout::{audit_file_name, found_text, Lookout};
use lookout::matcher::{search, PatternCache};
use lookout::supervisor::{check_run, ErrorBudget, Step};

fn full_alerts() -> AlertConfig {
    AlertConfig {
        enable_call: true,
        enable_text: true,
        provider_id: Some("AC1".to_string()),
        provider_secret: Some("tok".to_string()),
        to_number: Some("+15550001".to_string()),
        from_number: Some("+15550002".to_string()),
    }
}

fn status_target() -> Lookout {
    Lookout {
        name: "status".to_string(),
        url: "http://x/status".to_string(),
        regex: "OK".to_string(),
        expected_matches: 1,
        timeout: 5,
        selectors: vec![],
        headers: vec![],
    }
}

fn describe(a: &AlertAction) -> String {
    match a {
        AlertAction::Call { from, to, callback } => format!("call {} {} {}", from, to, callback),
        AlertAction::Text { from, to, body } => format!("text {} {} {}", from, to, body),
        AlertAction::Warn { ctx, msg } => format!("warn {} {}", ctx, msg),
        AlertAction::Pause { secs } => format!("pause {}", secs),
    }
}

#[test]
fn log_line_is_tagged_and_padded() {
    let line = info("abc", "hi", 5);
    assert_eq!(line.text, "[ABC]   hi");
    assert_eq!(line.level, Level::Info);
    let line = warn("abc", "hi", 5);
    assert_eq!(line.level, Level::Warn);
    assert_eq!(line.text, "[ABC]   hi");
}

#[test]
fn log_line_longer_than_padding_gets_no_spaces() {
    let line = info_warn("longname", "m", false, 3);
    assert_eq!(line.text, "[LONGNAME] m");
}

#[test]
fn padding_is_longest_name_in_bytes() {
    let names = vec!["a".to_string(), "abcd".to_string(), "ab".to_string()];
    assert_eq!(log_padding(&names), 4);
    assert_eq!(log_padding(&vec!["é".to_string()]), 2);
    assert_eq!(log_padding(&vec![]), 0);
}

#[test]
fn decimal_forms() {
    assert_eq!(decimal_string(0), "0");
    assert_eq!(decimal_string(1234), "1234");
    assert_eq!(decimal_string(u64::MAX), "18446744073709551615");
    assert_eq!(signed_decimal_string(-42), "-42");
    assert_eq!(signed_decimal_string(i64::MIN), "-9223372036854775808");
    assert_eq!(signed_decimal_string(7), "7");
}

#[test]
fn search_counts_non_overlapping_matches() {
    assert_eq!(search("OK OK", "OK"), Ok(2));
    assert_eq!(search("aaaa", "aa"), Ok(2));
    assert_eq!(search("none here", "OK"), Ok(0));
    assert_eq!(search("", "x*"), Ok(1));
}

#[test]
fn search_rejects_invalid_pattern() {
    assert_eq!(search("abc", "("), Err(MonitorError::InvalidPattern));
}

#[test]
fn cache_gives_same_count_as_fresh_compile() {
    let mut cache = PatternCache::new();
    assert_eq!(cache.count_matches("a1b22c333", "[0-9]+"), Ok(3));
    assert_eq!(cache.count_matches("a1b22c333", "[0-9]+"), search("a1b22c333", "[0-9]+"));
    assert_eq!(cache.count_matches("x", "[0-9]+"), Ok(0));
    assert_eq!(cache.count_matches("x", "(["), Err(MonitorError::InvalidPattern));
}

#[test]
fn extract_two_selectors_in_order() {
    let body = "<html><body><p id=\"b\">second</p><div id=\"a\">first</div></body></html>".to_string();
    let sels = vec!["#a".to_string(), "#b".to_string()];
    assert_eq!(
        extract(&body, &sels),
        Ok("<div id=\"a\">first</div>\n<p id=\"b\">second</p>".to_string())
    );
}

#[test]
fn extract_missing_selector_fails_whole() {
    let body = "<div id=\"a\">first</div>".to_string();
    let sels = vec!["#a".to_string(), "#zzz".to_string()];
    assert_eq!(extract(&body, &sels), Err(MonitorError::SelectorNotFound));
}

#[test]
fn extract_without_selectors_keeps_body() {
    let body = "plain OK text".to_string();
    assert_eq!(extract(&body, &vec![]), Ok(body.clone()));
}

#[test]
fn mismatch_message_text() {
    assert_eq!(mismatch_text(1, 2), "expected 1 found 2");
}

#[test]
fn equal_counts_raise_no_alert() {
    let plan = check_and_alert(&full_alerts(), "status", 3, 3, "http://x/status", 60);
    assert!(!plan.raised);
    assert!(plan.actions.is_empty());
}

#[test]
fn mismatch_calls_texts_warns_and_pauses() {
    let plan = check_and_alert(&full_alerts(), "status", 2, 1, "http://x/status", 60);
    assert!(plan.raised);
    let steps: Vec<String> = plan.actions.iter().map(describe).collect();
    assert_eq!(
        steps,
        vec![
            "call +15550002 +15550001 http://x/status".to_string(),
            "text +15550002 +15550001 http://x/status".to_string(),
            "warn status expected 1 found 2".to_string(),
            "warn status http://x/status".to_string(),
            "pause 60".to_string(),
        ]
    );
}

#[test]
fn missing_identity_skips_channel_with_warning() {
    let mut cfg = full_alerts();
    cfg.from_number = None;
    cfg.enable_text = false;
    let plan = check_and_alert(&cfg, "s", 0, 1, "u", 5);
    let steps: Vec<String> = plan.actions.iter().map(describe).collect();
    assert_eq!(steps[0], "warn twilio No 'from phone' number provided.");
    assert_eq!(steps.len(), 4);

    let mut cfg = full_alerts();
    cfg.to_number = None;
    let plan = check_and_alert(&cfg, "s", 0, 1, "u", 5);
    let steps: Vec<String> = plan.actions.iter().map(describe).collect();
    assert_eq!(steps[0], "warn twilio No 'to phone' number provided.");
    assert_eq!(steps[1], "warn twilio No 'to phone' number provided.");

    let mut cfg = full_alerts();
    cfg.provider_secret = None;
    cfg.enable_call = false;
    let plan = check_and_alert(&cfg, "s", 0, 1, "u", 5);
    let steps: Vec<String> = plan.actions.iter().map(describe).collect();
    assert_eq!(steps[0], "warn twilio No twilio id/auth provided.");
}

#[test]
fn disabled_channels_only_warn_and_pause() {
    let mut cfg = full_alerts();
    cfg.enable_call = false;
    cfg.enable_text = false;
    let plan = check_and_alert(&cfg, "s", 0, 1, "u", 9);
    let steps: Vec<String> = plan.actions.iter().map(describe).collect();
    assert_eq!(steps, vec!["warn s expected 1 found 0", "warn s u", "pause 9"]);
}

#[test]
fn scrape_two_matches_against_one_expected_alerts() {
    let target = status_target();
    let mut cache = PatternCache::new();
    let report = target
        .scrape(&"OK OK".to_string(), &mut cache, &full_alerts(), false, 30, 6)
        .unwrap();
    assert_eq!(report.matches, 2);
    assert!(report.alert.raised);
    let steps: Vec<String> = report.alert.actions.iter().map(describe).collect();
    assert!(steps.contains(&"warn status expected 1 found 2".to_string()));
    assert_eq!(steps.last().unwrap(), "pause 30");
    assert!(report.audit.is_none());
}

#[test]
fn scrape_one_match_as_expected_is_quiet() {
    let target = status_target();
    let mut cache = PatternCache::new();
    let report = target
        .scrape(&"OK".to_string(), &mut cache, &full_alerts(), true, 30, 6)
        .unwrap();
    assert_eq!(report.matches, 1);
    assert!(!report.alert.raised);
    assert!(report.alert.actions.is_empty());
    assert_eq!(report.found.level, Level::Info);
    assert_eq!(report.found.text, "[STATUS] Found 1 instances of 'OK'");
    assert_eq!(report.audit, Some("OK".to_string()));
}

#[test]
fn scrape_fails_on_missing_selector_and_bad_pattern() {
    let mut target = status_target();
    target.selectors = vec!["#gone".to_string()];
    let mut cache = PatternCache::new();
    let r = target.scrape(&"<p>OK</p>".to_string(), &mut cache, &full_alerts(), false, 1, 0);
    assert!(matches!(r, Err(MonitorError::SelectorNotFound)));
    let mut target = status_target();
    target.regex = "(".to_string();
    let r = target.scrape(&"OK".to_string(), &mut cache, &full_alerts(), false, 1, 0);
    assert!(matches!(r, Err(MonitorError::InvalidPattern)));
}

#[test]
fn found_and_audit_names() {
    assert_eq!(found_text(3, "a+"), "Found 3 instances of 'a+'");
    assert_eq!(audit_file_name("status", 1700000000), "status-1700000000.html");
}

#[test]
fn three_network_failures_spend_budget_of_three() {
    let mut budget = ErrorBudget::new(3);
    let mut fetches = 0;
    let mut last = Step::Again;
    while budget.should_run() {
        fetches += 1;
        // every fetch fails with a network error
        last = budget.record(false, 10);
    }
    assert_eq!(fetches, 3);
    assert_eq!(last, Step::GiveUp { secs: 10 });
    assert_eq!(budget.errors(), 3);
}

#[test]
fn budget_steps_and_successes() {
    let mut budget = ErrorBudget::new(2);
    assert_eq!(budget.record(false, 4), Step::Backoff { secs: 4 });
    assert_eq!(budget.record(true, 4), Step::Again);
    assert!(budget.should_run());
    assert_eq!(budget.errors(), 1);
    assert_eq!(budget.record(false, 4), Step::GiveUp { secs: 4 });
    assert!(!budget.should_run());
    assert_eq!(budget.allowed(), 2);
}

#[test]
fn run_configuration_checks() {
    assert_eq!(check_run(&vec![status_target()], 3), Ok(()));
    assert_eq!(check_run(&vec![], 3), Err(MonitorError::ConfigError));
    assert_eq!(check_run(&vec![status_target()], 0), Err(MonitorError::ConfigError));
    let mut unnamed = status_target();
    unnamed.name = String::new();
    assert_eq!(check_run(&vec![status_target(), unnamed], 3), Err(MonitorError::ConfigError));
}
