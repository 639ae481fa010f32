use passvault::auth::{
    finish_login, finish_registration, registration_conflict_outcome, AuthenticationService,
    LoginFailure, LoginOutcome, RegistrationFailure, RegistrationOutcome,
};
use passvault::store::{CredentialStore, FindUserBy, StoreError};
use passvault::token::{TokenError, TokenIssuer};
use passvault::user::{EditUserRequest, LoginRequest, RegistrationRequest};

fn service() -> AuthenticationService {
    AuthenticationService::new(
        CredentialStore::new(),
        TokenIssuer::new("access-secret".to_string(), "refresh-secret".to_string(), 900, 86400),
    )
}

fn registration_request(login: &str, password: &str, mail: &str) -> RegistrationRequest {
    RegistrationRequest {
        login: login.to_string(),
        password: password.to_string(),
        mail: mail.to_string(),
        first_name: "Ada".to_string(),
        last_name: "Lovelace".to_string(),
    }
}

fn login_request(login: &str, password: &str) -> LoginRequest {
    LoginRequest { login: login.to_string(), password: password.to_string() }
}

#[test]
fn registration_fresh_creates_one_record_with_bound_tokens() {
    let mut svc = service();
    let outcome = svc.registration(&registration_request("ada", "hunter2", "ada@example.org"));
    let subject_id = match outcome {
        RegistrationOutcome::Created { subject_id } => subject_id,
        RegistrationOutcome::Failed { .. } => panic!("fresh registration must succeed"),
    };
    assert_eq!(svc.users.users.len(), 1);
    assert_eq!(svc.users.users[0].id, subject_id);
    assert_eq!(svc.users.users[0].login, "ada");
    assert_eq!(svc.users.users[0].mail, "ada@example.org");
    assert_ne!(svc.users.users[0].password_hash, "hunter2");

    let issued = svc.issuer.issue(
        subject_id,
        1_000,
        Some("signed-access".to_string()),
        Some("signed-refresh".to_string()),
    );
    let pair = issued.ok().expect("both signatures were provided");
    assert_eq!(pair.access_token.subject_id, subject_id);
    assert_eq!(pair.refresh_token.subject_id, subject_id);
    assert_eq!(pair.access_token.expires_at, 1_000 + 900);
    assert_eq!(pair.refresh_token.expires_at, 1_000 + 86400);
    assert_eq!(pair.access_token.token, "signed-access");
    assert_eq!(pair.refresh_token.token, "signed-refresh");
    assert!(finish_registration(Ok(pair)).is_ok());
}

#[test]
fn registration_duplicate_login_is_conflict_and_creates_nothing() {
    let mut svc = service();
    let first = svc.registration(&registration_request("ada", "pw1", "ada@example.org"));
    assert!(matches!(first, RegistrationOutcome::Created { .. }));
    let second = svc.registration(&registration_request("ada", "pw2", "other@example.org"));
    assert!(matches!(
        second,
        RegistrationOutcome::Failed { failure: RegistrationFailure::AlreadyRegisteredByLogin }
    ));
    assert_eq!(svc.users.users.len(), 1);
}

#[test]
fn registration_duplicate_mail_is_conflict_and_creates_nothing() {
    let mut svc = service();
    let first = svc.registration(&registration_request("ada", "pw1", "ada@example.org"));
    assert!(matches!(first, RegistrationOutcome::Created { .. }));
    let second = svc.registration(&registration_request("grace", "pw2", "ada@example.org"));
    assert!(matches!(
        second,
        RegistrationOutcome::Failed { failure: RegistrationFailure::AlreadyRegisteredByEmail }
    ));
    assert_eq!(svc.users.users.len(), 1);
}

#[test]
fn racing_registrations_of_one_login_have_exactly_one_winner() {
    let mut svc = service();
    let caller_a = svc.registration(&registration_request("ada", "pw-a", "a@example.org"));
    let caller_b = svc.registration(&registration_request("ada", "pw-b", "b@example.org"));
    let a_won = matches!(caller_a, RegistrationOutcome::Created { .. });
    let b_won = matches!(caller_b, RegistrationOutcome::Created { .. });
    assert!(a_won != b_won, "exactly one of the two racing callers may win");
    assert!(matches!(
        caller_b,
        RegistrationOutcome::Failed { failure: RegistrationFailure::AlreadyRegisteredByLogin }
    ));
    assert_eq!(svc.users.users.len(), 1);
}

#[test]
fn login_with_correct_password_authenticates_the_registered_subject() {
    let mut svc = service();
    let outcome = svc.registration(&registration_request("ada", "hunter2", "ada@example.org"));
    let created_id = match outcome {
        RegistrationOutcome::Created { subject_id } => subject_id,
        RegistrationOutcome::Failed { .. } => panic!("fresh registration must succeed"),
    };
    let d = svc.login(&login_request("ada", "hunter2"));
    match d {
        LoginOutcome::Authenticated { subject_id } => assert_eq!(subject_id, created_id),
        LoginOutcome::Failed { .. } => panic!("correct credentials must authenticate"),
    }
    let pair = svc
        .issuer
        .issue(created_id, 5, Some("a".to_string()), Some("r".to_string()))
        .ok()
        .expect("both signatures were provided");
    assert_eq!(pair.access_token.subject_id, created_id);
    assert_eq!(pair.refresh_token.subject_id, created_id);
}

#[test]
fn login_with_wrong_password_fails_without_tokens() {
    let mut svc = service();
    svc.registration(&registration_request("ada", "hunter2", "ada@example.org"));
    let d = svc.login(&login_request("ada", "not-hunter2"));
    assert!(matches!(d, LoginOutcome::Failed { failure: LoginFailure::WrongPassword }));
}

#[test]
fn login_with_unknown_login_fails() {
    let svc = service();
    let d = svc.login(&login_request("nobody", "whatever"));
    assert!(matches!(d, LoginOutcome::Failed { failure: LoginFailure::WrongLogin }));
}

#[test]
fn edit_user_changes_profile_and_keeps_password_hash_byte_identical() {
    let mut svc = service();
    svc.registration(&registration_request("ada", "hunter2", "ada@example.org"));
    let user = svc.users.find_user_by("login", "ada").expect("the record was created");
    let hash_before = user.password_hash.clone();
    let edit = EditUserRequest {
        login: "ada.l".to_string(),
        mail: "ada.l@example.org".to_string(),
        first_name: "Augusta".to_string(),
        last_name: "King".to_string(),
    };
    assert!(svc.edit_user(&edit, &user).is_ok());
    let edited = svc.users.find_user_by_id(user.id).expect("the record still exists");
    assert_eq!(edited.login, "ada.l");
    assert_eq!(edited.mail, "ada.l@example.org");
    assert_eq!(edited.first_name, "Augusta");
    assert_eq!(edited.last_name, "King");
    assert_eq!(edited.password_hash, hash_before);
    let relogin = svc.login(&login_request("ada.l", "hunter2"));
    assert!(matches!(relogin, LoginOutcome::Authenticated { .. }));
}

#[test]
fn edit_user_rejects_a_colliding_login() {
    let mut svc = service();
    svc.registration(&registration_request("ada", "pw1", "ada@example.org"));
    svc.registration(&registration_request("grace", "pw2", "grace@example.org"));
    let grace = svc.users.find_user_by("login", "grace").expect("the record was created");
    let edit = EditUserRequest {
        login: "ada".to_string(),
        mail: "grace@example.org".to_string(),
        first_name: "Grace".to_string(),
        last_name: "Hopper".to_string(),
    };
    let r = svc.edit_user(&edit, &grace);
    assert!(matches!(r, Err(StoreError::DuplicateLogin)));
    let unchanged = svc.users.find_user_by_id(grace.id).expect("the record still exists");
    assert_eq!(unchanged.login, "grace");
}

#[test]
fn delete_user_removes_the_record_and_is_silent_on_absence() {
    let mut svc = service();
    svc.registration(&registration_request("ada", "pw1", "ada@example.org"));
    assert!(svc.users.delete_user("ada").is_ok());
    assert!(svc.users.find_user_by("login", "ada").is_none());
    assert_eq!(svc.users.users.len(), 0);
    assert!(svc.users.delete_user("ada").is_ok());
}

#[test]
fn find_user_by_looks_up_login_and_mail_independently() {
    let mut svc = service();
    svc.registration(&registration_request("ada", "pw1", "ada@example.org"));
    let by_login = svc.users.find_user_by("login", "ada").expect("login lookup");
    let by_mail = svc.users.find_user_by("mail", "ada@example.org").expect("mail lookup");
    assert_eq!(by_login.id, by_mail.id);
    assert!(svc.users.find_user_by("login", "ada@example.org").is_none());
    assert!(svc.users.find_user_by("mail", "ada").is_none());
}

#[test]
fn find_user_by_id_distinguishes_present_and_absent_ids() {
    let mut svc = service();
    svc.registration(&registration_request("ada", "pw1", "ada@example.org"));
    let user = svc.users.find_user_by("login", "ada").expect("the record was created");
    assert!(svc.users.find_user_by_id(user.id).is_some());
    assert!(svc.users.find_user_by_id(user.id + 1).is_none());
}

#[test]
fn classification_reports_the_mail_conflict_when_both_collide() {
    let mut svc = service();
    svc.registration(&registration_request("ada", "pw1", "ada@example.org"));
    svc.registration(&registration_request("grace", "pw2", "grace@example.org"));
    let both = svc.users.classify_by_login_and_mail("ada@example.org", "grace");
    assert!(matches!(both, FindUserBy::UserFoundByEmail));
    let login_only = svc.users.classify_by_login_and_mail("fresh@example.org", "grace");
    assert!(matches!(login_only, FindUserBy::UserFoundByLogin));
    let neither = svc.users.classify_by_login_and_mail("fresh@example.org", "fresh");
    assert!(matches!(neither, FindUserBy::UserNotFound));
}

#[test]
fn token_issuance_needs_both_signatures() {
    let issuer = TokenIssuer::new("a".to_string(), "r".to_string(), 10, 20);
    let missing_refresh = issuer.issue(7, 100, Some("signed".to_string()), None);
    assert!(matches!(missing_refresh, Err(TokenError::SigningFailed)));
    let missing_access = issuer.issue(7, 100, None, Some("signed".to_string()));
    assert!(matches!(missing_access, Err(TokenError::SigningFailed)));
    assert!(matches!(
        finish_login(missing_access),
        Err(LoginFailure::Unknown)
    ));
}

#[test]
fn store_conflicts_map_to_the_matching_registration_outcome() {
    assert!(matches!(
        registration_conflict_outcome(&StoreError::DuplicateLogin),
        RegistrationFailure::AlreadyRegisteredByLogin
    ));
    assert!(matches!(
        registration_conflict_outcome(&StoreError::DuplicateMail),
        RegistrationFailure::AlreadyRegisteredByEmail
    ));
    assert!(matches!(
        registration_conflict_outcome(&StoreError::IdSpaceExhausted),
        RegistrationFailure::Unknown
    ));
}

#[test]
fn edit_user_rejects_a_colliding_mail() {
    let mut svc = service();
    svc.registration(&registration_request("ada", "pw1", "ada@example.org"));
    svc.registration(&registration_request("grace", "pw2", "grace@example.org"));
    let grace = svc.users.find_user_by("login", "grace").expect("the record was created");
    let edit = EditUserRequest {
        login: "grace".to_string(),
        mail: "ada@example.org".to_string(),
        first_name: "Grace".to_string(),
        last_name: "Hopper".to_string(),
    };
    let r = svc.edit_user(&edit, &grace);
    assert!(matches!(r, Err(StoreError::DuplicateMail)));
    let unchanged = svc.users.find_user_by_id(grace.id).expect("the record still exists");
    assert_eq!(unchanged.mail, "grace@example.org");
}

#[test]
fn registration_reports_unknown_when_no_identity_can_be_generated() {
    let mut svc = AuthenticationService::new(
        CredentialStore { users: Vec::new(), next_id: u64::MAX },
        TokenIssuer::new("a".to_string(), "r".to_string(), 10, 20),
    );
    let outcome = svc.registration(&registration_request("ada", "pw", "ada@example.org"));
    assert!(matches!(
        outcome,
        RegistrationOutcome::Failed { failure: RegistrationFailure::Unknown }
    ));
    assert_eq!(svc.users.users.len(), 0);
}
