use mqtt_common::input::{is_whitespace, parse_u8, split_whitespace, InputUser};

fn parse(s: &str) -> Result<InputUser, String> {
    InputUser::from_str(s)
}

#[test]
fn publish_command() {
    match parse("pub /hello 0 Hello world") {
        Ok(InputUser::Publish { topic, qos, message }) => {
            assert_eq!(topic, "/hello");
            assert_eq!(qos, 0);
            assert_eq!(message, "Hello world");
        }
        _ => panic!("expected a publish"),
    }
}

#[test]
fn publish_command_collapses_spaces_and_ignores_case() {
    match parse("  PuB  a/b   2  one \t two   three ") {
        Ok(InputUser::Publish { topic, qos, message }) => {
            assert_eq!(topic, "a/b");
            assert_eq!(qos, 2);
            assert_eq!(message, "one two three");
        }
        _ => panic!("expected a publish"),
    }
}

#[test]
fn publish_command_errors() {
    assert_eq!(
        parse("pub /hello 0").err(),
        Some("Need at least 4 inputs: pub topic_name qos message".to_string())
    );
    assert_eq!(parse("pub /hello x hi").err(), Some("Not a valid number".to_string()));
    assert_eq!(parse("pub /hello 300 hi").err(), Some("Not a valid number".to_string()));
    assert_eq!(
        parse("pub /hello 3 hi").err(),
        Some("Invalid QoS: must be 0, 1, or 2".to_string())
    );
    assert!(matches!(parse("pub /hello +1 hi"), Ok(InputUser::Publish { qos: 1, .. })));
}

#[test]
fn subscribe_command() {
    assert!(matches!(
        parse("sub /hello 1"),
        Ok(InputUser::Subscribe { ref topic, qos: 1 }) if topic == "/hello"
    ));
    assert!(matches!(
        parse("sub /hello"),
        Ok(InputUser::Subscribe { ref topic, qos: 0 }) if topic == "/hello"
    ));
    assert_eq!(parse("sub").err(), Some("Need at least 3 input: sub topic qos".to_string()));
    assert!(InputUser::parse_line("sub /hello x").is_none());
    assert!(matches!(
        InputUser::parse_line("sub /hello 2"),
        Some(Ok(InputUser::Subscribe { qos: 2, .. }))
    ));
}

#[test]
fn unsubscribe_and_disconnect_commands() {
    assert!(matches!(
        parse("unsub /hello"),
        Ok(InputUser::Unsubscribe { ref topic }) if topic == "/hello"
    ));
    assert_eq!(parse("unsub").err(), Some("Need at least 2 input: sub topic".to_string()));
    assert!(matches!(parse("disconnect"), Ok(InputUser::Disconnect)));
    assert!(matches!(parse("DISCONNECT now"), Ok(InputUser::Disconnect)));
}

#[test]
fn invalid_commands() {
    assert_eq!(parse("").err(), Some("Empty input".to_string()));
    assert_eq!(parse(" \t\n").err(), Some("Empty input".to_string()));
    assert_eq!(parse("ping").err(), Some("Command invalid".to_string()));
    assert_eq!(parse("hello world").err(), Some("Command invalid".to_string()));
}

#[test]
fn words_of_a_line() {
    let words = split_whitespace("\u{3000}a  bc\u{00A0}d\n");
    assert_eq!(words, vec!["a".to_string(), "bc".to_string(), "d".to_string()]);
    let line = "x y\tz  ";
    let ours = split_whitespace(line);
    let std_words: Vec<String> = line.split_whitespace().map(|w| w.to_string()).collect();
    assert_eq!(ours, std_words);
}

#[test]
fn whitespace_characters() {
    for c in [' ', '\t', '\n', '\r', '\u{0B}', '\u{0C}', '\u{85}', '\u{A0}', '\u{2003}', '\u{3000}'] {
        assert!(is_whitespace(c));
        assert!(c.is_whitespace());
    }
    for c in ['a', '0', '\u{200B}', '_'] {
        assert!(!is_whitespace(c));
        assert!(!c.is_whitespace());
    }
}

#[test]
fn helper_constructors() {
    assert!(matches!(
        InputUser::pub_message("t".to_string(), 1, "m".to_string()),
        InputUser::Publish { qos: 1, .. }
    ));
    assert!(matches!(InputUser::sub("t".to_string(), 2), InputUser::Subscribe { qos: 2, .. }));
    assert!(matches!(InputUser::unsub("t".to_string()), InputUser::Unsubscribe { .. }));
}

#[test]
fn byte_numbers() {
    for text in ["0", "7", "255", "+3", "007", "", "+", "-1", "256", "1a", " 1", "\u{0661}"] {
        assert_eq!(parse_u8(text), text.parse::<u8>().ok(), "{:?}", text);
    }
}
