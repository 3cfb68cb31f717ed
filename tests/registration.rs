use nova_cloud_backend::error::AccountError;
use nova_cloud_backend::provisioning::{container_request, RegisterOutcome};
use nova_cloud_backend::registry::Registry;

fn s(text: &str) -> String {
    text.to_string()
}

#[test]
fn register_then_login_succeeds() {
    let mut reg = Registry::new();
    assert_eq!(reg.begin_register(&s("alice")), Ok(()));
    let outcome = reg.finish_register(s("alice"), s("secret"), Some(s("folder-1")));
    assert!(matches!(outcome, RegisterOutcome::Committed));
    assert_eq!(outcome.result(), Ok(()));
    assert_eq!(outcome.status(), 201);
    assert_eq!(reg.login(&s("alice"), &s("secret")), Ok(()));
    assert!(reg.authenticate(&s("alice"), &s("secret")));
    let container = reg.resolve(&s("alice")).unwrap();
    assert_eq!(container, "folder-1");
    assert!(!container.is_empty());
    assert_eq!(reg.len(), 1);
}

#[test]
fn second_registration_fails_with_already_exists() {
    let mut reg = Registry::new();
    let first = reg.finish_register(s("bob"), s("pw1"), Some(s("folder-a")));
    assert!(matches!(first, RegisterOutcome::Committed));
    assert_eq!(reg.begin_register(&s("bob")), Err(AccountError::AlreadyExists));
    let second = reg.finish_register(s("bob"), s("pw2"), Some(s("folder-b")));
    assert_eq!(second.result(), Err(AccountError::AlreadyExists));
    assert_eq!(second.status(), 409);
    match second {
        RegisterOutcome::Abandoned { error, container_id } => {
            assert_eq!(error, AccountError::AlreadyExists);
            assert_eq!(container_id, "folder-b");
        }
        _ => panic!("the second container must be handed back for deletion"),
    }
    assert_eq!(reg.len(), 1);
    assert_eq!(reg.resolve(&s("bob")), Ok(s("folder-a")));
    assert_eq!(reg.login(&s("bob"), &s("pw1")), Ok(()));
    assert_eq!(reg.login(&s("bob"), &s("pw2")), Err(AccountError::InvalidCredential));
}

#[test]
fn racing_registrations_have_one_winner() {
    let mut reg = Registry::new();
    // Both requests pass the first check before either commits.
    assert_eq!(reg.begin_register(&s("carol")), Ok(()));
    assert_eq!(reg.begin_register(&s("carol")), Ok(()));
    let a = reg.finish_register(s("carol"), s("x"), Some(s("c-1")));
    let b = reg.finish_register(s("carol"), s("y"), Some(s("c-2")));
    let wins = [&a, &b].iter().filter(|o| o.result().is_ok()).count();
    assert_eq!(wins, 1);
    assert!(matches!(b, RegisterOutcome::Abandoned { error: AccountError::AlreadyExists, .. }));
    assert_eq!(reg.len(), 1);
    assert_eq!(reg.resolve(&s("carol")), Ok(s("c-1")));
}

#[test]
fn failed_provisioning_leaves_no_entry() {
    let mut reg = Registry::new();
    let outcome = reg.finish_register(s("dave"), s("pw"), None);
    assert!(matches!(outcome, RegisterOutcome::Failed(AccountError::ProvisioningFailed)));
    assert_eq!(outcome.status(), 500);
    assert!(!reg.is_registered(&s("dave")));
    assert_eq!(reg.len(), 0);
}

#[test]
fn empty_container_id_fails_to_get_folder_id() {
    let mut reg = Registry::new();
    let outcome = reg.finish_register(s("erin"), s("pw"), Some(s("")));
    assert_eq!(outcome.result(), Err(AccountError::MissingContainerId));
    assert!(matches!(outcome, RegisterOutcome::Failed(AccountError::MissingContainerId)));
    assert_eq!(outcome.status(), 500);
    assert_eq!(AccountError::MissingContainerId.message(), "Failed to get folder ID.");
    assert!(!reg.is_registered(&s("erin")));
}

#[test]
fn empty_username_is_refused() {
    let mut reg = Registry::new();
    assert_eq!(reg.begin_register(&s("")), Err(AccountError::MalformedRequest));
    let outcome = reg.finish_register(s(""), s("pw"), Some(s("c")));
    match outcome {
        RegisterOutcome::Abandoned { error, container_id } => {
            assert_eq!(error, AccountError::MalformedRequest);
            assert_eq!(container_id, "c");
        }
        _ => panic!("an empty username must not be bound"),
    }
    assert_eq!(reg.len(), 0);
}

#[test]
fn login_failures_are_told_apart_but_share_a_status() {
    let mut reg = Registry::new();
    reg.finish_register(s("frank"), s("Secret"), Some(s("f")));
    let wrong = reg.login(&s("frank"), &s("secret"));
    let unknown = reg.login(&s("grace"), &s("Secret"));
    assert_eq!(wrong, Err(AccountError::InvalidCredential));
    assert_eq!(unknown, Err(AccountError::UserNotFound));
    assert!(!reg.authenticate(&s("frank"), &s("secret")));
    assert_eq!(Registry::login_status(&wrong), 401);
    assert_eq!(Registry::login_status(&unknown), 401);
    assert_eq!(Registry::login_status(&Ok(())), 200);
    assert_eq!(Registry::login_message(&wrong), "Invalid username or password");
    assert_eq!(Registry::login_message(&unknown), "Invalid username or password");
    assert_eq!(Registry::login_message(&Ok(())), "Login successful");
}

#[test]
fn container_request_names_the_user() {
    let req = container_request(&s("heidi"), &s("root-folder"));
    assert_eq!(req.name, "heidi");
    assert_eq!(req.parent, "root-folder");
    assert_eq!(req.media_type, "application/vnd.google-apps.folder");
}

#[test]
fn error_statuses_and_messages() {
    assert_eq!(AccountError::AlreadyExists.status(), 409);
    assert_eq!(AccountError::UserNotFound.status(), 404);
    assert_eq!(AccountError::InvalidCredential.status(), 401);
    assert_eq!(AccountError::ProvisioningFailed.status(), 500);
    assert_eq!(AccountError::MissingContainerId.status(), 500);
    assert_eq!(AccountError::RemoteOperationFailed.status(), 500);
    assert_eq!(AccountError::MalformedRequest.status(), 400);
    assert_eq!(AccountError::AlreadyExists.message(), "Username already exists");
    assert_eq!(AccountError::InvalidCredential.message(), "Invalid username or password");
    assert_eq!(AccountError::ProvisioningFailed.message(), "Failed to create user folder.");
}
