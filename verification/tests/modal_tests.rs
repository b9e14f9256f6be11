use idmail::table::ReloadController;
use idmail::users::{User, UserDraft};
use idmail::utils::{DeleteModalState, EditModalState, ServerError};

fn sample_user() -> User {
    User {
        username: "bob".to_string(),
        password_hash: "$2b$12$x".to_string(),
        admin: true,
        active: false,
        created_at: 1700000000,
    }
}

#[test]
fn create_flow_validation_gates_submit() {
    let mut modal: EditModalState<User> = EditModalState::new();
    let mut reload = ReloadController::new();
    modal.open_with(None);
    let is_new = true;
    let mut draft = UserDraft::for_new();

    // An 8-character password violates the policy; Submit is disabled.
    draft.password = "shortpwd".to_string();
    draft.password_repeat = "shortpwd".to_string();
    assert!(draft.has_invalid_password(is_new));
    let errors = draft.validation_errors(is_new);
    assert!(!errors.is_empty());
    assert!(!modal.submit(&errors));
    assert_eq!(modal.waiting, false);

    // A long enough password with a mismatched repeat is still invalid.
    draft.password = "twenty-characters-pw".to_string();
    draft.password_repeat = "twenty-characters-XX".to_string();
    let errors = draft.validation_errors(is_new);
    assert_eq!(errors, vec!["Passwords don't match".to_string()]);
    assert!(!modal.submit(&errors));

    // Matching long passwords enable Submit; success closes and reloads.
    draft.password_repeat = "twenty-characters-pw".to_string();
    let errors = draft.validation_errors(is_new);
    assert!(errors.is_empty());
    assert!(modal.submit(&errors));
    assert!(modal.waiting);
    modal.on_success(&mut reload);
    assert_eq!(modal.target, None);
    assert_eq!(reload.token, 1);
}

#[test]
fn both_errors_in_display_order() {
    let mut draft = UserDraft::for_new();
    draft.password = "shortpwd".to_string();
    draft.password_repeat = "different".to_string();
    let errors = draft.validation_errors(true);
    assert_eq!(
        errors,
        vec![
            "Passwords don't match".to_string(),
            "Password must be between 12 and 512 characters".to_string(),
        ]
    );
}

#[test]
fn edit_flow_allows_empty_password() {
    let user = sample_user();
    let draft = UserDraft::for_edit(&user);
    assert_eq!(draft.username, "bob");
    assert_eq!(draft.admin, true);
    assert_eq!(draft.active, false);
    // On an edit flow an empty password means "keep the current one".
    assert!(!draft.has_invalid_password(false));
    assert!(draft.validation_errors(false).is_empty());
    // On a create flow it would not be accepted.
    assert!(draft.has_invalid_password(true));
}

#[test]
fn submit_failure_keeps_modal_open_with_message() {
    let mut modal: EditModalState<User> = EditModalState::new();
    modal.open_with(Some(sample_user()));
    let errors: Vec<String> = Vec::new();
    assert!(modal.submit(&errors));
    // While submitting, a second submit must not fire again.
    assert!(!modal.submit(&errors));
    modal.on_error("store unavailable".to_string());
    assert!(modal.target.is_some());
    assert!(!modal.waiting);
    assert_eq!(modal.server_error, Some("store unavailable".to_string()));
    // The user can correct and resubmit.
    assert!(modal.submit(&errors));
}

#[test]
fn delete_alice_confirms_exactly_once_and_reloads_on_success() {
    let mut state = DeleteModalState::new();
    let mut reload = ReloadController::new();
    state.request("alice".to_string());
    let fire = state.confirm();
    assert_eq!(fire, Some("alice".to_string()));
    // While the delete is under way, confirming again fires nothing.
    assert_eq!(state.confirm(), None);
    let log = state.settle(Ok(()), &mut reload);
    assert_eq!(state.target, None);
    assert!(!state.waiting);
    assert_eq!(reload.token, 1);
    assert_eq!(log, None);
}

#[test]
fn delete_failure_clears_confirmation_without_reload() {
    let mut state = DeleteModalState::new();
    let mut reload = ReloadController::new();
    state.request("alice".to_string());
    assert_eq!(state.confirm(), Some("alice".to_string()));
    let log = state.settle(Err("row is referenced".to_string()), &mut reload);
    assert_eq!(state.target, None);
    assert!(!state.waiting);
    // Failure is only logged; nothing forces a reload.
    assert_eq!(reload.token, 0);
    assert_eq!(log, Some("row is referenced".to_string()));
}

#[test]
fn delete_cancel_destroys_confirmation() {
    let mut state = DeleteModalState::new();
    state.request("alice".to_string());
    state.cancel();
    assert_eq!(state.target, None);
    assert_eq!(state.confirm(), None);
}

#[test]
fn error_messages() {
    assert_eq!(ServerError::Unauthorized.message(), "Unauthorized");
    assert_eq!(ServerError::InvalidPassword.message(), "Password is invalid.");
    assert_eq!(
        ServerError::WrongCredentials.message(),
        "Wrong password or invalid user"
    );
    assert_eq!(ServerError::Hashing.message(), "Failed to hash the password");
}
