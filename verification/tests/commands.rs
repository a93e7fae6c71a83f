use pingbot::commands::{recognize, whitespace, Command};

#[test]
fn ping_with_prefix_is_a_command() {
    assert_eq!(recognize("~ping"), Some(Command::Ping));
}

#[test]
fn pong_is_not_a_command() {
    assert_eq!(recognize("~pong"), None);
}

#[test]
fn ping_without_prefix_is_not_a_command() {
    assert_eq!(recognize("ping"), None);
}

#[test]
fn arguments_may_follow_after_whitespace() {
    assert_eq!(recognize("~ping now"), Some(Command::Ping));
    assert_eq!(recognize("~ping "), Some(Command::Ping));
    assert_eq!(recognize("~ping\tnow"), Some(Command::Ping));
    assert_eq!(recognize("~ping\nnow"), Some(Command::Ping));
    assert_eq!(recognize("~ping\u{3000}now"), Some(Command::Ping));
    assert_eq!(recognize("~ping\u{a0}é"), Some(Command::Ping));
}

#[test]
fn a_longer_word_is_another_name() {
    assert_eq!(recognize("~pingx"), None);
    assert_eq!(recognize("~pingpong"), None);
    assert_eq!(recognize("~ping!"), None);
    assert_eq!(recognize("~pingé"), None);
    assert_eq!(recognize("~ping\u{200b}"), None);
}

#[test]
fn a_shorter_text_is_no_command() {
    assert_eq!(recognize(""), None);
    assert_eq!(recognize("~"), None);
    assert_eq!(recognize("~p"), None);
    assert_eq!(recognize("~pin"), None);
}

#[test]
fn prefix_and_name_must_open_the_text_unbroken() {
    assert_eq!(recognize(" ~ping"), None);
    assert_eq!(recognize("~ ping"), None);
    assert_eq!(recognize("~~ping"), None);
    assert_eq!(recognize("!ping"), None);
    assert_eq!(recognize("say ~ping"), None);
}

#[test]
fn letter_case_counts() {
    assert_eq!(recognize("~Ping"), None);
    assert_eq!(recognize("~PING"), None);
}

#[test]
fn command_name_is_ping() {
    assert_eq!(Command::Ping.name(), "ping");
}

#[test]
fn whitespace_is_the_unicode_property() {
    let mut code: u32 = 0;
    let mut white: u32 = 0;
    while code <= 0x10FFFF {
        if let Some(c) = char::from_u32(code) {
            assert_eq!(whitespace(c), c.is_whitespace());
            if whitespace(c) {
                white += 1;
            }
        }
        code += 1;
    }
    assert_eq!(white, 25);
}
