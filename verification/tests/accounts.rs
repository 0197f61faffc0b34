use auction_service::auth::{authorize, authorize_found, generate_token, AuthStep};
use auction_service::endpoints;
use auction_service::credentials::fits_idna_check;
use auction_service::endpoints::{AccountStep, LoginOutcome};
use auction_service::model::{DbError, InsertableUser};
use auction_service::session;
use auction_service::status::Status;

fn user(mail: &str, password: &str) -> InsertableUser {
    InsertableUser { mail: mail.to_string(), password: password.to_string() }
}

#[test]
fn unsupported_methods_are_refused() {
    for s in [
        endpoints::login_get(),
        endpoints::login_put(),
        endpoints::login_delete(),
        endpoints::registration_get(),
        endpoints::registration_put(),
        endpoints::registration_delete(),
        session::login_get(),
        session::login_put(),
        session::login_delete(),
        session::registration_get(),
        session::registration_put(),
        session::registration_delete(),
    ] {
        assert_eq!(s, Status::MethodNotAllowed);
        assert_eq!(s.code(), 405);
    }
}

#[test]
fn status_codes_and_reasons() {
    assert_eq!(Status::OK.code(), 200);
    assert_eq!(Status::Created.code(), 201);
    assert_eq!(Status::Accepted.code(), 202);
    assert_eq!(Status::InvalidEmail.code(), 400);
    assert_eq!(Status::InvalidEmail.reason(), "Invalid email!");
    assert_eq!(Status::UserExists.code(), 409);
    assert_eq!(Status::UserExists.reason(), "User already exists!");
    assert_eq!(Status::InternalServerError.code(), 500);
}

#[test]
fn registration_refuses_an_invalid_mail() {
    let step = endpoints::registration_post(&user("not-a-mail", "pw"));
    assert!(matches!(step, AccountStep::Respond(Status::InvalidEmail)));
    let step = endpoints::registration_post(&user("", "pw"));
    assert!(matches!(step, AccountStep::Respond(Status::InvalidEmail)));
    let step = session::registration_post(&user("a@", "pw"));
    assert!(matches!(step, AccountStep::Respond(Status::InvalidEmail)));
}

#[test]
fn registration_of_a_valid_mail_proceeds() {
    let step = endpoints::registration_post(&user("anna@example.com", "pw"));
    assert!(matches!(step, AccountStep::Proceed));
    assert_eq!(endpoints::registration_inserted(true), Status::Created);
    assert_eq!(endpoints::registration_inserted(false), Status::UserExists);
    assert_eq!(session::registration_inserted(false).code(), 409);
}

#[test]
fn login_with_the_right_password_opens_a_session() {
    let given = user("anna@example.com", "pw");
    assert!(matches!(endpoints::login_post(&given), AccountStep::Proceed));
    let out = endpoints::login_checked(&given, Ok(user("anna@example.com", "pw")));
    match out {
        LoginOutcome::SetSession(token) => {
            assert_eq!(token, generate_token(&"anna@example.com".to_string()));
            assert_ne!(token, "anna@example.com");
        }
        _ => panic!("expected a session"),
    }
}

#[test]
fn login_with_a_wrong_password_or_unknown_mail_fails() {
    let given = user("anna@example.com", "pw");
    let out = endpoints::login_checked(&given, Ok(user("anna@example.com", "other")));
    assert!(matches!(out, LoginOutcome::Respond(Status::Unauthorized)));
    let out = endpoints::login_checked(&given, Err(DbError::NotFound));
    assert!(matches!(out, LoginOutcome::Respond(Status::NotFound)));
    assert!(matches!(endpoints::login_post(&user("nope", "pw")), AccountStep::Respond(Status::InvalidEmail)));
    assert_eq!(session::login_checked(&given, Ok(user("anna@example.com", "pw"))), Status::OK);
    assert_eq!(session::login_checked(&given, Ok(user("anna@example.com", "x"))), Status::Unauthorized);
    assert_eq!(session::login_checked(&given, Err(DbError::Failure)), Status::NotFound);
}

#[test]
fn a_session_token_authorizes_its_user() {
    let mail = "bob@example.org".to_string();
    let token = generate_token(&mail);
    assert_eq!(token.split('.').count(), 3);
    match authorize(Some(token.as_str())) {
        AuthStep::LookUp(m) => {
            assert_eq!(m, mail);
            assert_eq!(authorize_found(m, Ok(user("bob@example.org", "pw"))), Ok(mail.clone()));
        }
        AuthStep::Denied => panic!("token refused"),
    }
}

#[test]
fn tokens_differ_per_user() {
    let a = generate_token(&"a@x.org".to_string());
    let b = generate_token(&"b@x.org".to_string());
    assert_ne!(a, b);
    assert_eq!(a, generate_token(&"a@x.org".to_string()));
}

#[test]
fn missing_or_forged_tokens_are_denied() {
    assert!(matches!(authorize(None), AuthStep::Denied));
    assert!(matches!(authorize(Some("garbage")), AuthStep::Denied));
    let token = generate_token(&"bob@example.org".to_string());
    let mut forged = token.clone();
    forged.pop();
    forged.push(if token.ends_with('A') { 'B' } else { 'A' });
    assert!(matches!(authorize(Some(forged.as_str())), AuthStep::Denied));
    assert_eq!(authorize_found("x@y.z".to_string(), Err(DbError::NotFound)), Err(()));
}

#[test]
fn a_long_non_ascii_label_is_refused_without_checking() {
    let mut mail = String::from("a@");
    for _ in 0..29_999 {
        mail.push('ä');
    }
    mail.push('\u{23022}');
    assert!(!fits_idna_check(&mail));
    let step = endpoints::registration_post(&user(&mail, "pw"));
    assert!(matches!(step, AccountStep::Respond(Status::InvalidEmail)));
    let step = session::login_post(&user(&mail, "pw"));
    assert!(matches!(step, AccountStep::Respond(Status::InvalidEmail)));
}

#[test]
fn international_domains_within_the_bound_are_checked() {
    assert!(fits_idna_check("anna@bücher.de"));
    assert!(matches!(endpoints::registration_post(&user("anna@bücher.de", "pw")), AccountStep::Proceed));
    let long_ascii = format!("{}@example.com", "a".repeat(200));
    assert!(fits_idna_check(&long_ascii));
    assert!(matches!(endpoints::registration_post(&user(&long_ascii, "pw")), AccountStep::Proceed));
    let umlauts = format!("a@{}.com", "ü".repeat(36));
    assert!(fits_idna_check(&umlauts));
    assert!(matches!(endpoints::registration_post(&user(&umlauts, "pw")), AccountStep::Proceed));
    assert!(matches!(session::login_post(&user(&umlauts, "pw")), AccountStep::Proceed));
    assert!(fits_idna_check(&format!("a@{}.de", "ü".repeat(70))));
    assert!(!fits_idna_check(&format!("a@{}.de", "ü".repeat(71))));
    assert!(fits_idna_check(&format!("a@{}.{}", "ü".repeat(70), "ö".repeat(70))));
    assert!(!fits_idna_check(&format!("a@x{}.de", "ü".repeat(70))));
}
