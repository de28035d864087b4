use annotate_bot::{bot_tag, is_whitespace_char, reply_for, split_trimmed, strip_tag, trim_str};
use annotate_bot::{Command, Config, EventHandler};

#[test]
fn trim_removes_unicode_whitespace() {
    assert_eq!(trim_str(" \t a b \n"), "a b");
    assert_eq!(trim_str("\u{3000}x\u{a0}"), "x");
    assert_eq!(trim_str("   "), "");
    assert_eq!(trim_str(""), "");
}

#[test]
fn whitespace_agrees_with_std() {
    for c in ['\t', '\n', ' ', '\u{85}', '\u{2003}', '\u{3000}', 'a', '.', '\u{200b}'] {
        assert_eq!(is_whitespace_char(c), c.is_whitespace());
    }
}

#[test]
fn split_keeps_empty_pieces() {
    assert_eq!(split_trimmed("a . b..", '.'), vec!["a", "b", "", ""]);
    assert_eq!(split_trimmed("", '.'), vec![""]);
    assert_eq!(split_trimmed("x", ','), vec!["x"]);
}

#[test]
fn strip_removes_one_leading_copy() {
    assert_eq!(strip_tag("<@A><@A> hi", "<@A>"), "<@A> hi");
    assert_eq!(strip_tag("<@A> hi", "<@A>"), " hi");
    assert_eq!(strip_tag("<@", "<@A>"), "<@");
    assert_eq!(strip_tag("hi <@A>", "<@A>"), "hi <@A>");
    assert_eq!(strip_tag("hi", ""), "hi");
}

#[test]
fn mention_of_user() {
    assert_eq!(bot_tag("U123"), "<@U123>");
}

#[test]
fn replies_per_command() {
    assert_eq!(
        reply_for(&Command::Help),
        "Type your annotation in \"title. tag 1,tag 2, tag 3. time.\" or \n  \"title. tag 1,tag 2, tag 3.\""
    );
    assert_eq!(reply_for(&Command::Unrecognized), "Sorry, I don't know what you want");
    let a = annotate_bot::Annotate::from_times("t", "a", None, 0);
    assert_eq!(reply_for(&Command::Annotate(a)), "Done! Annotation added.");
}

#[test]
fn handler_keeps_config() {
    let c = Config { slack_key: "k".to_string(), url: "http://x".to_string() };
    let h = EventHandler::new(c.clone());
    assert_eq!(h.config.url, "http://x");
    assert_eq!(h.config.slack_key, "k");
}
