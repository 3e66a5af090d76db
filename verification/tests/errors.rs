use nightraid::errors::ErrorCause;
use nightraid::errors::ErrorKind;
use nightraid::errors::IntoTextError;
use nightraid::errors::TextError;

const GENERIC: &str = "AN INTERNAL ERROR OCCURRED! PLEASE CONTACT m1nt_";

#[test]
fn default_error_shows_the_generic_phrase() {
    let error: TextError = TextError::default();
    assert_eq!(error.public_error_message(), GENERIC);
    assert_eq!(
        error.to_string(),
        "error: AN INTERNAL ERROR OCCURRED! PLEASE CONTACT m1nt_\n\n"
    );
    assert!(error.error().is_none());
    assert!(error.kind().is_none());
    assert!(error.extra_data().is_none());
    assert!(!error.omits_prefix());
}

#[test]
fn public_message_is_rendered_between_prefix_and_blank_line() {
    let error: TextError = TextError::default().set_public_error_message("erroneous quotes");
    assert_eq!(error.public_error_message(), "erroneous quotes");
    assert_eq!(error.to_string(), "error: erroneous quotes\n\n");
}

#[test]
fn later_public_message_replaces_earlier_one() {
    let error: TextError = TextError::default()
        .set_public_error_message("first")
        .set_public_error_message("second");
    assert_eq!(error.to_string(), "error: second\n\n");
}

#[test]
fn empty_public_message_is_not_the_generic_phrase() {
    let error: TextError = TextError::default().set_public_error_message("");
    assert_eq!(error.public_error_message(), "");
    assert_eq!(error.to_string(), "error: \n\n");
}

#[test]
fn omitted_prefix_leaves_message_and_blank_line() {
    let usage = "Usage: login <TOKEN>";
    let error: TextError = TextError::default()
        .set_public_error_message(usage)
        .set_omit_prefix(true);
    assert!(error.omits_prefix());
    assert_eq!(error.to_string(), "Usage: login <TOKEN>\n\n");
    let back = error.set_omit_prefix(false);
    assert_eq!(back.to_string(), "error: Usage: login <TOKEN>\n\n");
}

#[test]
fn omitted_prefix_without_message_shows_generic_phrase() {
    let error: TextError = TextError::default().set_omit_prefix(true);
    assert_eq!(
        error.to_string(),
        "AN INTERNAL ERROR OCCURRED! PLEASE CONTACT m1nt_\n\n"
    );
}

#[test]
fn cause_is_kept_and_never_rendered() {
    let secret = "connection refused by 10.1.2.3:5432, password=hunter2";
    let error: TextError =
        TextError::default().set_error(ErrorCause::new(ErrorKind::Store, secret));
    assert_eq!(error.kind(), Some(ErrorKind::Store));
    assert_eq!(error.error().unwrap().detail, secret);
    assert_eq!(error.error().unwrap().kind, ErrorKind::Store);
    let text = error.to_string();
    assert_eq!(
        text,
        "error: AN INTERNAL ERROR OCCURRED! PLEASE CONTACT m1nt_\n\n"
    );
    assert!(!text.contains("hunter2"));
    assert!(!text.contains("10.1.2.3"));
}

#[test]
fn rendering_is_the_same_with_and_without_cause() {
    let plain: TextError = TextError::default().set_public_error_message("invalid token");
    let with_cause: TextError = TextError::default()
        .set_public_error_message("invalid token")
        .set_error(ErrorCause::new(ErrorKind::Auth, "unknown token"));
    assert_eq!(plain.to_string(), with_cause.to_string());
}

#[test]
fn from_cause_records_it_and_shows_generic_phrase() {
    let error: TextError = TextError::from(ErrorCause::new(ErrorKind::Transport, "broken pipe"));
    assert_eq!(error.kind(), Some(ErrorKind::Transport));
    assert_eq!(error.error().unwrap().detail, "broken pipe");
    assert_eq!(error.public_error_message(), GENERIC);
    assert!(error.extra_data().is_none());
    assert!(!error.omits_prefix());
}

#[test]
fn error_data_is_attached_and_the_rest_kept() {
    let error: TextError = TextError::default()
        .set_public_error_message("invalid command")
        .set_error(ErrorCause::new(ErrorKind::Parse, "unknown command"))
        .set_omit_prefix(true);
    let with_data: TextError<(u32, String)> = error.set_error_data((7, "frobnicate".to_string()));
    assert_eq!(with_data.extra_data(), Some(&(7, "frobnicate".to_string())));
    assert_eq!(with_data.public_error_message(), "invalid command");
    assert_eq!(with_data.kind(), Some(ErrorKind::Parse));
    assert!(with_data.omits_prefix());
    assert_eq!(with_data.to_string(), "invalid command\n\n");
    let replaced: TextError<u8> = with_data.set_error_data(3u8);
    assert_eq!(replaced.extra_data(), Some(&3u8));
    assert_eq!(replaced.public_error_message(), "invalid command");
}

#[test]
fn text_error_hands_success_through() {
    let result: Result<u32, ErrorCause> = Ok(41);
    let mapped = result.text_error("never shown");
    assert_eq!(mapped.unwrap(), 41);
}

#[test]
fn text_error_maps_failure_to_public_message() {
    let result: Result<u32, ErrorCause> =
        Err(ErrorCause::new(ErrorKind::Parse, "User messed up quotes"));
    let error = result.text_error("erroneous quotes").unwrap_err();
    assert_eq!(error.public_error_message(), "erroneous quotes");
    assert_eq!(error.kind(), Some(ErrorKind::Parse));
    assert_eq!(error.error().unwrap().detail, "User messed up quotes");
    assert!(error.extra_data().is_none());
    assert_eq!(error.to_string(), "error: erroneous quotes\n\n");
}

#[test]
fn only_transport_errors_end_the_session() {
    assert!(ErrorKind::Parse.is_recoverable());
    assert!(ErrorKind::Auth.is_recoverable());
    assert!(ErrorKind::Validation.is_recoverable());
    assert!(ErrorKind::Store.is_recoverable());
    assert!(!ErrorKind::Transport.is_recoverable());
}

#[test]
fn store_and_transport_errors_are_logged_in_full() {
    assert!(ErrorKind::Store.is_logged());
    assert!(ErrorKind::Transport.is_logged());
    assert!(!ErrorKind::Parse.is_logged());
    assert!(!ErrorKind::Auth.is_logged());
    assert!(!ErrorKind::Validation.is_logged());
}

#[test]
fn cause_new_keeps_kind_and_detail() {
    let cause = ErrorCause::new(ErrorKind::Validation, "name too long");
    assert_eq!(
        cause,
        ErrorCause { kind: ErrorKind::Validation, detail: "name too long".to_string() }
    );
}

#[test]
fn failure_shows_its_message_and_keeps_its_cause() {
    let error = TextError::failure(ErrorKind::Auth, "unknown token", "invalid token");
    assert_eq!(error.kind(), Some(ErrorKind::Auth));
    assert_eq!(error.error().unwrap().detail, "unknown token");
    assert_eq!(error.public_error_message(), "invalid token");
    assert!(error.extra_data().is_none());
    assert!(!error.omits_prefix());
    assert_eq!(error.to_string(), "error: invalid token\n\n");
}

#[test]
fn fault_shows_the_generic_phrase() {
    let error = TextError::fault(ErrorKind::Store, "relation \"users\" does not exist");
    assert_eq!(error.kind(), Some(ErrorKind::Store));
    assert_eq!(error.error().unwrap().detail, "relation \"users\" does not exist");
    assert_eq!(error.public_error_message(), GENERIC);
    assert_eq!(
        error.to_string(),
        "error: AN INTERNAL ERROR OCCURRED! PLEASE CONTACT m1nt_\n\n"
    );
}
