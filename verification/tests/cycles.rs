use pwr_notify::cycle::{
    cycle, percent_body, percent_combined, should_alert, BatterySample, LevelError, Notice,
    NoticeKind,
};

fn sample(status: Result<&str, &str>, full: Result<&str, &str>, now: Result<&str, &str>) -> BatterySample {
    let own = |r: Result<&str, &str>| -> Result<String, String> {
        match r {
            Ok(t) => Ok(t.to_string()),
            Err(d) => Err(d.to_string()),
        }
    };
    BatterySample { status_text: own(status), full_text: own(full), now_text: own(now) }
}

#[test]
fn alert_decision_truth_table() {
    // below threshold, nothing charging: fires
    assert!(should_alert(false, 15, 20));
    // charging suppresses regardless of percent
    assert!(!should_alert(true, 5, 20));
    // strict less-than: equal percent does not fire
    assert!(!should_alert(false, 20, 20));
}

#[test]
fn two_discharging_batteries_below_threshold_alert_once() {
    let samples = vec![
        sample(Ok("Discharging"), Ok("5000"), Ok("1000")),
        sample(Ok("Discharging"), Ok("5000"), Ok("900")),
    ];
    let notices = cycle(&samples, 20, 10);
    assert_eq!(notices.len(), 1);
    assert_eq!(notices[0].kind, NoticeKind::BatteryCritical);
    assert_eq!(notices[0].summary(), "Battery Level Critical!");
    assert_eq!(notices[0].body, "19%");
    assert_eq!(notices[0].timeout, 10);
}

#[test]
fn missing_status_file_notifies_and_keeps_other_statuses() {
    // The first battery's status file is missing; the second one is
    // charging, which still suppresses the critical alert.
    let samples = vec![
        sample(Err("No such file or directory"), Ok("5000"), Ok("500")),
        sample(Ok("Charging"), Ok("5000"), Ok("500")),
    ];
    let notices = cycle(&samples, 20, 10);
    assert_eq!(notices.len(), 1);
    assert_eq!(notices[0].kind, NoticeKind::StatusReadFailed);
    assert_eq!(notices[0].summary(), "Reading Battery Status Failed!");
    assert_eq!(notices[0].body, "No such file or directory");
    assert_eq!(notices[0].timeout, 0);
}

#[test]
fn missing_status_file_still_alerts_when_the_rest_discharge() {
    let samples = vec![
        sample(Err("No such file or directory"), Ok("5000"), Ok("500")),
        sample(Ok("Discharging"), Ok("5000"), Ok("500")),
    ];
    let notices = cycle(&samples, 20, 10);
    assert_eq!(notices.len(), 2);
    assert_eq!(notices[0].kind, NoticeKind::StatusReadFailed);
    assert_eq!(notices[0].timeout, 0);
    assert_eq!(notices[1].kind, NoticeKind::BatteryCritical);
    assert_eq!(notices[1].body, "10%");
}

#[test]
fn zero_capacity_everywhere_notifies_level_failure_only() {
    let samples = vec![
        sample(Ok("Discharging"), Ok("0"), Ok("0")),
        sample(Ok("Discharging"), Ok("0"), Ok("0")),
    ];
    let notices = cycle(&samples, 20, 10);
    assert_eq!(notices.len(), 1);
    assert_eq!(notices[0].kind, NoticeKind::LevelReadFailed);
    assert_eq!(notices[0].summary(), "Reading Battery Level Failed!");
    assert_eq!(notices[0].body, "Total full energy is zero");
    assert_eq!(notices[0].timeout, 0);
}

#[test]
fn healthy_battery_above_threshold_is_silent() {
    let samples = vec![sample(Ok("Discharging"), Ok("5000"), Ok("4000"))];
    let notices = cycle(&samples, 20, 10);
    assert!(notices.is_empty());
}

#[test]
fn charging_battery_below_threshold_is_silent() {
    let samples = vec![
        sample(Ok("Charging"), Ok("5000"), Ok("250")),
        sample(Ok("Discharging"), Ok("5000"), Ok("250")),
    ];
    let notices = cycle(&samples, 20, 10);
    assert!(notices.is_empty());
}

#[test]
fn unknown_status_counts_as_not_charging() {
    let samples = vec![sample(Ok("Full"), Ok("5000"), Ok("500"))];
    let notices = cycle(&samples, 20, 10);
    assert_eq!(notices.len(), 1);
    assert_eq!(notices[0].kind, NoticeKind::BatteryCritical);
}

#[test]
fn unreadable_energy_file_reports_its_description() {
    let samples = vec![sample(Ok("Discharging"), Err("Permission denied"), Ok("500"))];
    let notices = cycle(&samples, 20, 10);
    assert_eq!(notices.len(), 1);
    assert_eq!(notices[0].kind, NoticeKind::LevelReadFailed);
    assert_eq!(notices[0].body, "Permission denied");
    assert_eq!(notices[0].timeout, 0);
}

#[test]
fn unparsable_energy_file_reports_a_parse_failure() {
    let samples = vec![sample(Ok("Discharging"), Ok("garbage"), Ok("500"))];
    let notices = cycle(&samples, 20, 10);
    assert_eq!(notices.len(), 1);
    assert_eq!(notices[0].kind, NoticeKind::LevelReadFailed);
    assert_eq!(notices[0].body, "invalid energy value");
}

#[test]
fn first_energy_failure_wins_in_battery_order() {
    let samples = vec![
        sample(Ok("Discharging"), Ok("5000"), Err("now is gone")),
        sample(Ok("Discharging"), Err("full is gone"), Ok("500")),
    ];
    let notices = cycle(&samples, 20, 10);
    assert_eq!(notices.len(), 1);
    assert_eq!(notices[0].body, "now is gone");
}

#[test]
fn status_failures_come_before_the_level_notice() {
    let samples = vec![
        sample(Err("first gone"), Ok("0"), Ok("0")),
        sample(Err("second gone"), Ok("0"), Ok("0")),
    ];
    let notices = cycle(&samples, 20, 10);
    assert_eq!(notices.len(), 3);
    assert_eq!(notices[0].kind, NoticeKind::StatusReadFailed);
    assert_eq!(notices[0].body, "first gone");
    assert_eq!(notices[1].kind, NoticeKind::StatusReadFailed);
    assert_eq!(notices[1].body, "second gone");
    assert_eq!(notices[2].kind, NoticeKind::LevelReadFailed);
}

#[test]
fn no_batteries_yield_a_zero_capacity_failure() {
    let samples: Vec<BatterySample> = vec![];
    let notices = cycle(&samples, 20, 10);
    assert_eq!(notices.len(), 1);
    assert_eq!(notices[0].kind, NoticeKind::LevelReadFailed);
    assert_eq!(notices[0].body, "Total full energy is zero");
}

#[test]
fn percent_combined_matches_the_aggregate() {
    let samples = vec![
        sample(Ok("Discharging"), Ok("1000\n"), Ok("500\n")),
        sample(Ok("Discharging"), Ok("1000\n"), Ok("300\n")),
    ];
    assert_eq!(percent_combined(&samples), Ok(40));
    let samples = vec![sample(Ok("Discharging"), Ok("0"), Ok("0"))];
    assert_eq!(percent_combined(&samples), Err(LevelError::ZeroCapacity));
    let samples = vec![sample(Ok("Discharging"), Ok("x"), Ok("0"))];
    assert_eq!(percent_combined(&samples), Err(LevelError::Parse));
    let samples = vec![sample(Ok("Discharging"), Err("gone"), Ok("0"))];
    assert_eq!(percent_combined(&samples), Err(LevelError::Io("gone".to_string())));
}

#[test]
fn percent_body_writes_decimal_digits() {
    assert_eq!(percent_body(0), "0%");
    assert_eq!(percent_body(9), "9%");
    assert_eq!(percent_body(10), "10%");
    assert_eq!(percent_body(19), "19%");
    assert_eq!(percent_body(99), "99%");
    assert_eq!(percent_body(100), "100%");
    assert_eq!(percent_body(255), "255%");
}

#[test]
fn level_error_bodies() {
    assert_eq!(LevelError::Io("gone".to_string()).body_text(), "gone");
    assert_eq!(LevelError::Parse.body_text(), "invalid energy value");
    assert_eq!(
        LevelError::ZeroCapacity.body_text(),
        "Total full energy is zero"
    );
}

#[test]
fn notice_summaries() {
    let n = |kind: NoticeKind| Notice { kind, body: String::new(), timeout: 0 };
    assert_eq!(n(NoticeKind::StatusReadFailed).summary(), "Reading Battery Status Failed!");
    assert_eq!(n(NoticeKind::LevelReadFailed).summary(), "Reading Battery Level Failed!");
    assert_eq!(n(NoticeKind::BatteryCritical).summary(), "Battery Level Critical!");
}
