use email_auth::account::AccountId;
use email_auth::bridge::AuthManager;
use email_auth::instructions::{HostInstruction, CALL_GAS, CALL_GAS_WEIGHT, MIN_STORAGE};
use email_auth::AuthError;

fn bridge() -> AccountId {
    AccountId::new("auth.near".to_owned()).unwrap()
}

fn mail(from: &str, subject: &str) -> Vec<u8> {
    format!("From: {}\r\nSubject: {}\r\n\r\nbody\r\n", from, subject).into_bytes()
}

#[test]
fn verified_email_yields_the_authored_pair() {
    let raw = mail("Example <example.near@gmail.com>", "Another message");
    let pass = "pass".to_owned();
    let (sender, subject) = AuthManager::verify_email(raw, &pass).unwrap();
    assert_eq!(sender, "example.near@gmail.com".to_owned());
    assert_eq!(subject, "Another message".to_owned());
}

#[test]
fn non_pass_summary_always_fails() {
    let raw = mail("alice@example.com", "init");
    for summary in ["fail", "neutral", "", "PASS", "pass "] {
        assert_eq!(
            AuthManager::verify_email(raw.clone(), &summary.to_owned()),
            Err(AuthError::SignatureVerificationFailed)
        );
    }
}

#[test]
fn multiple_senders_are_rejected() {
    let raw = mail("a@x.com, b@y.com", "init");
    assert_eq!(
        AuthManager::verify_email(raw, &"pass".to_owned()),
        Err(AuthError::MultipleSenders)
    );
}

#[test]
fn group_sender_is_rejected() {
    let raw = mail("friends:a@x.com,b@y.com;", "init");
    assert_eq!(
        AuthManager::verify_email(raw, &"pass".to_owned()),
        Err(AuthError::MalformedEmail)
    );
}

#[test]
fn missing_headers_are_rejected() {
    let no_from = b"Subject: init\r\n\r\nbody\r\n".to_vec();
    assert_eq!(
        AuthManager::verify_email(no_from, &"pass".to_owned()),
        Err(AuthError::MalformedEmail)
    );
    let no_subject = b"From: alice@example.com\r\n\r\nbody\r\n".to_vec();
    assert_eq!(
        AuthManager::verify_email(no_subject, &"pass".to_owned()),
        Err(AuthError::MalformedEmail)
    );
}

#[test]
fn init_emits_the_creation_chain() {
    let raw = mail("alice@example.com", "init");
    let got = AuthManager::receive_email(raw, &"pass".to_owned(), &bridge()).unwrap();
    assert_eq!(
        got,
        HostInstruction::CreateActuator {
            account_id: AccountId::new("alice_example_com.auth.near".to_owned()).unwrap(),
            reserve: MIN_STORAGE,
            owner_id: bridge(),
            gas: CALL_GAS,
        }
    );
}

#[test]
fn add_key_emits_one_call() {
    let raw = mail(
        "alice@example.com",
        "add_key ed25519:3tXAA9zf5YSLxYELSbxwhEvMd7h9itTfCcUfEc3QfPgD",
    );
    let got = AuthManager::receive_email(raw, &"pass".to_owned(), &bridge()).unwrap();
    assert_eq!(
        got,
        HostInstruction::CallAddKey {
            account_id: AccountId::new("alice_example_com.auth.near".to_owned()).unwrap(),
            public_key: "ed25519:3tXAA9zf5YSLxYELSbxwhEvMd7h9itTfCcUfEc3QfPgD".to_owned(),
            gas: CALL_GAS,
            gas_weight: CALL_GAS_WEIGHT,
        }
    );
}

#[test]
fn transfer_emits_one_call() {
    let raw = mail("alice@example.com", "transfer foobar.near 134");
    let got = AuthManager::receive_email(raw, &"pass".to_owned(), &bridge()).unwrap();
    assert_eq!(
        got,
        HostInstruction::CallTransfer {
            account_id: AccountId::new("alice_example_com.auth.near".to_owned()).unwrap(),
            to: AccountId::new("foobar.near".to_owned()).unwrap(),
            amount: 134 * email_auth::command::ONE_NEAR,
            gas: CALL_GAS,
            gas_weight: CALL_GAS_WEIGHT,
        }
    );
}

#[test]
fn delete_key_aborts_loudly() {
    let raw = mail("alice@example.com", "delete_key");
    assert_eq!(
        AuthManager::receive_email(raw, &"pass".to_owned(), &bridge()),
        Err(AuthError::Unimplemented)
    );
}

#[test]
fn unsigned_pipeline_emits_nothing() {
    let raw = mail("alice@example.com", "init");
    assert_eq!(
        AuthManager::receive_email(raw, &"fail".to_owned(), &bridge()),
        Err(AuthError::SignatureVerificationFailed)
    );
}

#[test]
fn unsupported_sender_character_aborts() {
    let raw = mail("a+b@x.com", "init");
    assert_eq!(
        AuthManager::receive_email(raw, &"pass".to_owned(), &bridge()),
        Err(AuthError::UnsupportedCharacter)
    );
}

#[test]
fn uppercase_sender_cannot_form_an_account() {
    // the mapping keeps letters unchanged, and the ledger's account-name
    // rule then rejects the uppercase identity
    let raw = mail("Alice@example.com", "init");
    assert_eq!(
        AuthManager::receive_email(raw, &"pass".to_owned(), &bridge()),
        Err(AuthError::UnsupportedCharacter)
    );
}

#[test]
fn unparseable_command_aborts() {
    let raw = mail("alice@example.com", "do something");
    assert_eq!(
        AuthManager::receive_email(raw, &"pass".to_owned(), &bridge()),
        Err(AuthError::UnrecognizedCommand)
    );
}
