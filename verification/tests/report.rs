use pingbot::bootstrap::Fatal;
use pingbot::report::{ready_line, run_error_line};

#[test]
fn ready_line_names_the_account() {
    assert_eq!(ready_line("TestBot"), "TestBot is connected!");
}

#[test]
fn ready_line_keeps_the_name_as_it_is() {
    assert_eq!(ready_line(""), " is connected!");
    assert_eq!(ready_line("Zoë Bot#1"), "Zoë Bot#1 is connected!");
    assert_eq!(ready_line(" is connected!"), " is connected! is connected!");
}

#[test]
fn run_error_line_carries_the_cause() {
    assert_eq!(run_error_line("Gateway(InvalidAuthentication)"), "Client error: Gateway(InvalidAuthentication)");
    assert_eq!(run_error_line(""), "Client error: ");
}

#[test]
fn headline_of_each_failure() {
    assert_eq!(Fatal::ConfigMissing.headline(), "Failed to find .env file");
    assert_eq!(Fatal::TokenMissing.headline(), "Expected a token in the environment");
    assert_eq!(Fatal::InfoUnavailable.headline(), "Could not access application info");
    assert_eq!(Fatal::ClientFailed.headline(), "Error creating client");
}

#[test]
fn diagnostic_is_headline_colon_cause() {
    assert_eq!(
        Fatal::ConfigMissing.diagnostic("Io(NotFound)"),
        "Failed to find .env file: Io(NotFound)"
    );
    assert_eq!(
        Fatal::TokenMissing.diagnostic("NotPresent"),
        "Expected a token in the environment: NotPresent"
    );
    assert_eq!(
        Fatal::InfoUnavailable.diagnostic("Http(401)"),
        "Could not access application info: Http(401)"
    );
    assert_eq!(Fatal::ClientFailed.diagnostic(""), "Error creating client: ");
}
