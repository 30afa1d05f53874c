use mpc_rendezvous::error::{CommunicationError, SignupError};

#[test]
fn communication_error_keeps_its_description() {
    let error = CommunicationError::new(String::from("store went away"));
    assert_eq!(error.description(), "store went away");
}

#[test]
fn signup_errors_render_distinct_descriptions() {
    let invalid = SignupError::InvalidArgument.to_communication_error();
    assert_eq!(invalid.description(), "threshold must be a positive number of parties");
    let not_found = SignupError::SessionNotFound.to_communication_error();
    assert_eq!(not_found.description(), "session not found");
}
