use hchk::check::{phrase_or_never, Check};
use hchk::timestamp::{stamp_or_sentinel, Timestamp};

fn base_check() -> Check {
    Check {
        id: None,
        short_id: None,
        name: "test".to_string(),
        ping_url: "https://hc-ping.com/abc123-def456".to_string(),
        pause_url: "".to_string(),
        last_ping: None,
        next_ping: None,
        grace: 3600,
        n_pings: 0,
        tags: "".to_string(),
        timeout: None,
        tz: None,
        schedule: None,
        status: "up".to_string(),
        update_url: "".to_string(),
    }
}

#[test]
fn test_check_extract_id() {
    let check = base_check();
    assert_eq!(check.id(), "abc123-def456");
}

#[test]
fn test_check_extract_short_id() {
    let check = base_check();
    assert_eq!(check.short_id(), "abc123");
}

#[test]
fn test_check_id_when_already_set() {
    let mut check = base_check();
    check.id = Some("existing-id".to_string());
    assert_eq!(check.id(), "existing-id");
}

#[test]
fn test_check_short_id_when_already_set() {
    let mut check = base_check();
    check.short_id = Some("short".to_string());
    assert_eq!(check.short_id(), "short");
}

#[test]
fn test_check_last_ping_at() {
    let mut check = base_check();
    check.last_ping = Some("2024-01-15T10:30:00+00:00".to_string());
    let last_ping = check.last_ping_at();
    assert!(last_ping.year() >= 2024);
}

#[test]
fn test_check_last_ping_at_none() {
    let check = base_check();
    let last_ping = check.last_ping_at();
    assert_eq!(last_ping.year(), 1901);
    assert_eq!(last_ping.month(), 1);
    assert_eq!(last_ping.day(), 1);
}

#[test]
fn test_check_humanized_last_ping_at() {
    let mut check = base_check();
    check.last_ping = Some("2024-01-15T10:30:00+00:00".to_string());
    let humanized = check.humanized_last_ping_at();
    assert!(humanized.len() > 0);
}

#[test]
fn test_check_humanized_last_ping_never() {
    let check = base_check();
    let humanized = check.humanized_last_ping_at();
    assert_eq!(humanized, "never");
}

#[test]
fn test_check_extract_id_empty_url() {
    let mut check = base_check();
    check.ping_url = "".to_string();
    let id = check.id();
    assert_eq!(id, "");
}

#[test]
fn humanized_recent_ping_is_not_never() {
    let mut check = base_check();
    check.last_ping = Some("2024-01-15T10:30:00+00:00".to_string());
    let humanized = check.humanized_last_ping_at();
    assert!(humanized.len() > 0);
    assert_ne!(humanized, "never");
}

#[test]
fn id_is_token_after_last_slash() {
    let mut check = base_check();
    check.ping_url = "https://hc-ping.com/token123".to_string();
    assert_eq!(check.id(), "token123");
}

#[test]
fn short_id_without_hyphen_is_whole_id() {
    let mut check = base_check();
    check.id = Some("abcdefghijkl".to_string());
    assert_eq!(check.short_id(), "abcdefghijkl");
}

#[test]
fn short_id_of_explicit_id_stops_at_hyphen() {
    let mut check = base_check();
    check.id = Some("abc123-def456".to_string());
    assert_eq!(check.short_id(), "abc123");
}

#[test]
fn id_of_url_ending_in_slash_is_empty() {
    let mut check = base_check();
    check.ping_url = "https://hc-ping.com/".to_string();
    assert_eq!(check.id(), "");
}

#[test]
fn display_rule_gates_on_the_year() {
    let old = Timestamp {
        year: 1901,
        month: 1,
        day: 1,
        hour: 0,
        minute: 0,
        second: 0,
    };
    let recent = Timestamp {
        year: 2024,
        month: 1,
        day: 15,
        hour: 10,
        minute: 30,
        second: 0,
    };
    assert_eq!(
        phrase_or_never(&old, Some("3 minutes ago".to_string())),
        "never"
    );
    assert_eq!(
        phrase_or_never(&recent, Some("3 minutes ago".to_string())),
        "3 minutes ago"
    );
    assert_eq!(phrase_or_never(&recent, None), "never");
}

#[test]
fn failed_parse_collapses_to_the_sentinel() {
    let t = stamp_or_sentinel(None);
    assert_eq!(t.year(), 1901);
    assert_eq!(t.month(), 1);
    assert_eq!(t.day(), 1);
    assert_eq!(t.hour(), 0);
    assert_eq!(t.minute(), 0);
    assert_eq!(t.second(), 0);
    let kept = stamp_or_sentinel(Some(Timestamp {
        year: 2024,
        month: 1,
        day: 15,
        hour: 10,
        minute: 30,
        second: 0,
    }));
    assert_eq!(kept.year(), 2024);
    assert_eq!(kept.day(), 15);
}

#[test]
fn unparsable_last_ping_renders_never() {
    let mut check = base_check();
    check.last_ping = Some("not a timestamp".to_string());
    let at = check.last_ping_at();
    assert_eq!(at.year(), 1901);
    assert_eq!(check.humanized_last_ping_at(), "never");
}
