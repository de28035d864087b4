use annotate_bot::{parse_command, parse_command_at, Annotate, Command};
use chrono::{TimeZone, Utc};

fn s(x: &str) -> String {
    x.to_string()
}

fn now_ms() -> i64 {
    Utc::now().timestamp() * 1000
}

fn annotation(c: Command) -> Annotate {
    match c {
        Command::Annotate(a) => a,
        other => panic!("expected an annotation, got {:?}", other),
    }
}

#[test]
fn help_with_empty_tag() {
    assert!(matches!(parse_command(&s("help"), &s("")), Command::Help));
}

#[test]
fn help_with_other_tags() {
    assert!(matches!(parse_command(&s("help"), &s("<@U123>")), Command::Help));
    assert!(matches!(parse_command(&s("help"), &s("x")), Command::Help));
    assert!(matches!(parse_command(&s("  help  "), &s("<@U9>")), Command::Help));
}

#[test]
fn help_after_mention() {
    assert!(matches!(parse_command(&s("<@U123> help"), &s("<@U123>")), Command::Help));
}

#[test]
fn repeated_mention_is_stripped_once() {
    assert!(matches!(parse_command(&s("<@U1><@U1>help"), &s("<@U1>")), Command::Unrecognized));
    assert!(matches!(parse_command(&s("aahelp"), &s("a")), Command::Unrecognized));
    let a = annotation(parse_command(&s("aaX. t"), &s("a")));
    assert_eq!(a.what, "aX");
}

#[test]
fn help_is_case_sensitive() {
    assert!(matches!(parse_command(&s("Help"), &s("")), Command::Unrecognized));
}

#[test]
fn tag_that_begins_help_spoils_it() {
    assert!(matches!(parse_command(&s("help"), &s("he")), Command::Unrecognized));
}

#[test]
fn single_field_is_unrecognized() {
    assert!(matches!(parse_command(&s("hello there"), &s("")), Command::Unrecognized));
    assert!(matches!(parse_command(&s("<@U1> hi"), &s("<@U1>")), Command::Unrecognized));
}

#[test]
fn empty_message_is_unrecognized() {
    assert!(matches!(parse_command(&s(""), &s("")), Command::Unrecognized));
}

#[test]
fn annotation_without_time_is_now() {
    let before = now_ms();
    let a = annotation(parse_command(&s("Team standup. work, daily."), &s("")));
    let after = now_ms();
    assert_eq!(a.what, "Team standup");
    assert_eq!(a.tags, vec![s("work"), s("daily")]);
    assert!(before <= a.when && a.when <= after);
}

#[test]
fn annotation_with_time_is_exact() {
    let a = annotation(parse_command(&s("Team standup. work, daily. 2024-03-05 09:00"), &s("")));
    let expected = chrono::Local
        .with_ymd_and_hms(2024, 3, 5, 9, 0, 0)
        .single()
        .unwrap()
        .timestamp_millis();
    assert_eq!(a.what, "Team standup");
    assert_eq!(a.tags, vec![s("work"), s("daily")]);
    assert_eq!(a.when, expected);
    assert_eq!(a.when % 1000, 0);
}

#[test]
fn annotation_with_bad_time_is_now() {
    let before = now_ms();
    let a = annotation(parse_command(&s("Team standup. work, daily. not-a-date"), &s("")));
    let after = now_ms();
    assert!(a.when > 0);
    assert!(before <= a.when && a.when <= after);
    assert_eq!(a.when % 1000, 0);
}

#[test]
fn annotation_after_mention_strips_it() {
    let a = annotation(parse_command(&s("<@U1> Deploy. ops"), &s("<@U1>")));
    assert_eq!(a.what, "Deploy");
    assert_eq!(a.tags, vec![s("ops")]);
}

#[test]
fn empty_tags_are_kept() {
    let a = annotation(parse_command(&s("t. a,, b ,"), &s("")));
    assert_eq!(a.tags, vec![s("a"), s(""), s("b"), s("")]);
}

#[test]
fn empty_title_and_tags_are_accepted() {
    let a = annotation(parse_command(&s(" . "), &s("")));
    assert_eq!(a.what, "");
    assert_eq!(a.tags, vec![s("")]);
}

#[test]
fn build_twice_gives_same_title_and_tags() {
    let what = s("  Release ");
    let tags = s("ops , deploy");
    let a = Annotate::new(&what, &tags, &None);
    let b = Annotate::new(&what, &tags, &None);
    assert_eq!(a.what, b.what);
    assert_eq!(a.tags, b.tags);
    assert_eq!(a.what, "Release");
}

#[test]
fn from_times_prefers_the_local_time() {
    let a = Annotate::from_times(" x ", "p,q", Some(5000), 1234);
    assert_eq!(a.what, "x");
    assert_eq!(a.tags, vec![s("p"), s("q")]);
    assert_eq!(a.when, 5000);
}

#[test]
fn from_times_falls_back_to_now() {
    let a = Annotate::from_times("x", "p", None, 1234);
    assert_eq!(a.when, 1234);
}

#[test]
fn new_at_without_time_is_now() {
    let a = Annotate::new_at(&s("x"), &s("y"), &None, 777);
    assert_eq!(a.when, 777);
}

#[test]
fn new_at_with_bad_time_is_now() {
    for bad in ["not-a-date", "", "2024-03-05", "2024-03-05 14:30:00"] {
        let t = s(bad);
        let a = Annotate::new_at(&s("x"), &s("y"), &Some(&t), 777);
        assert_eq!(a.when, 777);
    }
}

#[test]
fn new_at_with_time_ignores_now() {
    let t = s("2024-03-05 14:30");
    let a = Annotate::new_at(&s("t"), &s("a"), &Some(&t), 777);
    let expected = chrono::Local
        .with_ymd_and_hms(2024, 3, 5, 14, 30, 0)
        .single()
        .unwrap()
        .timestamp_millis();
    assert_eq!(a.when, expected);
}

#[test]
fn parse_at_uses_given_now() {
    let a = annotation(parse_command_at(&s("Team standup. work, daily."), &s(""), 42));
    assert_eq!(a.when, 42);
    let b = annotation(parse_command_at(&s("Team standup. work, daily. not-a-date"), &s(""), 43));
    assert_eq!(b.when, 43);
    let c = annotation(parse_command_at(&s("Team standup. work, daily. 2024-03-05 09:00"), &s(""), 44));
    let expected = chrono::Local
        .with_ymd_and_hms(2024, 3, 5, 9, 0, 0)
        .single()
        .unwrap()
        .timestamp_millis();
    assert_eq!(c.when, expected);
}

#[test]
fn parse_at_help_and_unrecognized() {
    assert!(matches!(parse_command_at(&s("help"), &s(""), 1), Command::Help));
    assert!(matches!(parse_command_at(&s("hi"), &s(""), 1), Command::Unrecognized));
}

#[test]
fn new_reads_the_time() {
    let t = s("2001-09-09 01:46");
    let a = Annotate::new(&s("x"), &s("y"), &Some(&t));
    let expected = chrono::Local
        .with_ymd_and_hms(2001, 9, 9, 1, 46, 0)
        .single()
        .unwrap()
        .timestamp_millis();
    assert_eq!(a.when, expected);
}
