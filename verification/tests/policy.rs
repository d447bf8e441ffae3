use omarchy_power_policy::evaluate::{evaluate, suspend_outcome};
use omarchy_power_policy::policy::PolicyEngine;
use omarchy_power_policy::properties::relevant_properties;
use omarchy_power_policy::text::{join, same_text};

#[test]
fn close_on_ac_then_unplug_suspends_once() {
    let mut policy = PolicyEngine::default();
    assert!(!policy.update(false, false));
    assert!(!policy.update(false, true));
    assert!(policy.update(true, true));
    assert!(!policy.update(true, true));
}

#[test]
fn close_while_on_battery_suspends() {
    let mut policy = PolicyEngine::default();
    assert!(!policy.update(true, false));
    assert!(policy.update(true, true));
}

#[test]
fn opening_lid_rearms_policy() {
    let mut policy = PolicyEngine::default();
    assert!(policy.update(true, true));
    assert!(!policy.update(true, false));
    assert!(policy.update(true, true));
}

#[test]
fn plugging_ac_rearms_closed_lid() {
    let mut policy = PolicyEngine::default();
    assert!(policy.update(true, true));
    assert!(!policy.update(false, true));
    assert!(policy.update(true, true));
}

#[test]
fn open_lid_unplug_does_nothing() {
    let mut policy = PolicyEngine::default();
    assert!(!policy.update(false, false));
    assert!(!policy.update(true, false));
}

#[test]
fn filters_relevant_property_names() {
    let changed = ["DaemonVersion", "OnBattery", "LidIsClosed"];
    let invalidated = ["LidIsClosed"];
    assert_eq!(
        relevant_properties(&changed, &invalidated),
        ["LidIsClosed", "OnBattery"]
    );
}

#[test]
fn answers_mark_where_the_unsafe_state_begins() {
    let readings = [
        (false, true),
        (true, true),
        (true, true),
        (true, false),
        (true, true),
        (false, false),
        (true, true),
    ];
    let mut policy = PolicyEngine::default();
    let answers: Vec<bool> = readings
        .iter()
        .map(|reading| policy.update(reading.0, reading.1))
        .collect();
    assert_eq!(answers, [false, true, false, false, true, false, true]);
}

#[test]
fn relevant_names_ignore_order_repetition_and_list() {
    let expected = ["LidIsClosed", "OnBattery"];
    assert_eq!(relevant_properties(&["OnBattery"], &["LidIsClosed"]), expected);
    assert_eq!(relevant_properties(&["LidIsClosed"], &["OnBattery"]), expected);
    assert_eq!(
        relevant_properties(&[], &["OnBattery", "LidIsClosed", "OnBattery"]),
        expected
    );
    assert_eq!(relevant_properties(&["OnBattery", "OnBattery"], &[]), ["OnBattery"]);
    assert_eq!(relevant_properties(&[], &["LidIsClosed"]), ["LidIsClosed"]);
}

#[test]
fn irrelevant_names_are_left_out() {
    let nothing: [&str; 0] = [];
    assert_eq!(relevant_properties(&[], &[]), nothing);
    assert_eq!(
        relevant_properties(&["LidIsPresent", "onbattery", "OnBattery "], &["", "LidIsClose"]),
        nothing
    );
}

#[test]
fn text_is_compared_by_its_characters() {
    assert!(same_text("", ""));
    assert!(same_text("b\u{e9}", "b\u{e9}"));
    assert!(!same_text("b\u{e9}", "be"));
    assert!(!same_text("OnBattery", "OnBatterz"));
    assert!(!same_text("OnBattery", "OnBatter"));
}

#[test]
fn items_are_joined_with_the_separator_between() {
    assert_eq!(join(&[], ","), "");
    assert_eq!(join(&["a"], ","), "a");
    assert_eq!(join(&["a", "", "bc"], ", "), "a, , bc");
}

#[test]
fn a_new_reading_is_logged_and_an_old_one_is_not() {
    let mut policy = PolicyEngine::default();
    let mut last = None;
    let first = evaluate(&mut policy, &mut last, (false, true), "startup", false);
    assert_eq!(
        first.log,
        ["INFO state reason=startup on_battery=false lid_closed=true"]
    );
    assert!(!first.suspend);
    assert_eq!(last, Some((false, true)));

    let again = evaluate(&mut policy, &mut last, (false, true), "upower:OnBattery", false);
    assert!(again.log.is_empty());
    assert!(!again.suspend);
    assert_eq!(last, Some((false, true)));
}

#[test]
fn a_due_suspend_is_logged_and_asked_for() {
    let mut policy = PolicyEngine::default();
    let mut last = Some((true, true));
    let evaluation = evaluate(&mut policy, &mut last, (true, true), "startup", false);
    assert_eq!(evaluation.log, ["WARN requesting suspend reason=startup"]);
    assert!(evaluation.suspend);
}

#[test]
fn a_dry_run_logs_the_suspend_alone() {
    let mut policy = PolicyEngine::default();
    let mut last = None;
    let evaluation = evaluate(&mut policy, &mut last, (true, true), "startup", true);
    assert_eq!(
        evaluation.log,
        [
            "INFO state reason=startup on_battery=true lid_closed=true",
            "WARN dry-run suspend reason=startup"
        ]
    );
    assert!(!evaluation.suspend);
    assert!(!policy.update(true, true));
}

#[test]
fn a_failed_suspend_request_is_logged() {
    assert!(suspend_outcome(Ok(())).is_empty());
    assert_eq!(
        suspend_outcome(Err("denied".to_string())),
        ["ERROR suspend request failed: denied"]
    );
}
