use email_auth::account::AccountId;
use email_auth::bridge::AuthManager;
use email_auth::command::{CommandEnum, CENT, ONE_NEAR};
use email_auth::AuthError;

#[test]
pub fn test_parse_command() {
    assert_eq!(
        AuthManager::parse_command("init".to_owned()).unwrap(),
        CommandEnum::Init
    );

    assert_eq!(
        AuthManager::parse_command(
            "add_key ed25519:3tXAA9zf5YSLxYELSbxwhEvMd7h9itTfCcUfEc3QfPgD".to_owned()
        )
        .unwrap(),
        CommandEnum::AddKey("ed25519:3tXAA9zf5YSLxYELSbxwhEvMd7h9itTfCcUfEc3QfPgD".to_owned())
    );
    assert_eq!(
        AuthManager::parse_command(
            "add_key     ed25519:3tXAA9zf5YSLxYELSbxwhEvMd7h9itTfCcUfEc3QfPgD\n                \n"
                .to_owned()
        )
        .unwrap(),
        CommandEnum::AddKey("ed25519:3tXAA9zf5YSLxYELSbxwhEvMd7h9itTfCcUfEc3QfPgD".to_owned())
    );
    assert_eq!(
        AuthManager::parse_command("transfer foobar.near 134".to_owned()).unwrap(),
        CommandEnum::Transfer(
            AccountId::new("foobar.near".to_owned()).unwrap(),
            134 * ONE_NEAR
        )
    );
}

#[test]
fn parse_is_total_on_junk() {
    assert_eq!(
        AuthManager::parse_command(String::new()),
        Err(AuthError::UnrecognizedCommand)
    );
    assert_eq!(
        AuthManager::parse_command("initx".to_owned()),
        Err(AuthError::UnrecognizedCommand)
    );
    assert_eq!(
        AuthManager::parse_command("frobnicate 1 2 3".to_owned()),
        Err(AuthError::UnrecognizedCommand)
    );
}

#[test]
fn parse_is_deterministic() {
    let a = AuthManager::parse_command("transfer foobar.near 134".to_owned());
    let b = AuthManager::parse_command("transfer foobar.near 134".to_owned());
    assert_eq!(a, b);
}

#[test]
fn delete_key_parses_by_prefix() {
    assert_eq!(
        AuthManager::parse_command("delete_key".to_owned()).unwrap(),
        CommandEnum::DeleteKey
    );
    assert_eq!(
        AuthManager::parse_command("delete_key anything".to_owned()).unwrap(),
        CommandEnum::DeleteKey
    );
}

#[test]
fn bad_keys_always_fail() {
    // wrong prefix
    assert_eq!(
        AuthManager::parse_command(
            "add_key ed25518:3tXAA9zf5YSLxYELSbxwhEvMd7h9itTfCcUfEc3QfPgD".to_owned()
        ),
        Err(AuthError::InvalidKeyFormat)
    );
    // one character short
    assert_eq!(
        AuthManager::parse_command(
            "add_key ed25519:3tXAA9zf5YSLxYELSbxwhEvMd7h9itTfCcUfEc3QfPg".to_owned()
        ),
        Err(AuthError::InvalidKeyFormat)
    );
    // one character long
    assert_eq!(
        AuthManager::parse_command(
            "add_key ed25519:3tXAA9zf5YSLxYELSbxwhEvMd7h9itTfCcUfEc3QfPgDD".to_owned()
        ),
        Err(AuthError::InvalidKeyFormat)
    );
    // non-alphanumeric character in the body
    assert_eq!(
        AuthManager::parse_command(
            "add_key ed25519:3tXAA9zf5YSLxYELSbxwhEvMd7h9itTfCcUfEc3Qf+gD".to_owned()
        ),
        Err(AuthError::InvalidKeyFormat)
    );
    // empty key
    assert_eq!(
        AuthManager::parse_command("add_key".to_owned()),
        Err(AuthError::InvalidKeyFormat)
    );
}

#[test]
fn validate_key_accepts_exactly_the_rule() {
    assert!(AuthManager::validate_key(
        &"ed25519:3tXAA9zf5YSLxYELSbxwhEvMd7h9itTfCcUfEc3QfPgD".to_owned()
    )
    .is_ok());
    assert_eq!(
        AuthManager::validate_key(&"ed25519:tooshort".to_owned()),
        Err(AuthError::InvalidKeyFormat)
    );
}

#[test]
fn transfer_amounts_scale_and_round() {
    // two decimal digits of precision
    assert_eq!(
        AuthManager::parse_command("transfer foobar.near 1.5".to_owned()).unwrap(),
        CommandEnum::Transfer(AccountId::new("foobar.near".to_owned()).unwrap(), 150 * CENT)
    );
    // the third decimal digit rounds half up
    assert_eq!(
        AuthManager::parse_command("transfer foobar.near 1.555".to_owned()).unwrap(),
        CommandEnum::Transfer(AccountId::new("foobar.near".to_owned()).unwrap(), 156 * CENT)
    );
    assert_eq!(
        AuthManager::parse_command("transfer foobar.near 0.005".to_owned()).unwrap(),
        CommandEnum::Transfer(AccountId::new("foobar.near".to_owned()).unwrap(), CENT)
    );
    // positive but rounding to zero hundredths is allowed
    assert_eq!(
        AuthManager::parse_command("transfer foobar.near 0.004".to_owned()).unwrap(),
        CommandEnum::Transfer(AccountId::new("foobar.near".to_owned()).unwrap(), 0)
    );
}

#[test]
fn transfer_rejects_bad_amounts() {
    assert_eq!(
        AuthManager::parse_command("transfer foobar.near 0".to_owned()),
        Err(AuthError::InvalidTransferAmount)
    );
    assert_eq!(
        AuthManager::parse_command("transfer foobar.near 0.0".to_owned()),
        Err(AuthError::InvalidTransferAmount)
    );
    assert_eq!(
        AuthManager::parse_command("transfer foobar.near abc".to_owned()),
        Err(AuthError::InvalidTransferAmount)
    );
    assert_eq!(
        AuthManager::parse_command("transfer foobar.near 1.".to_owned()),
        Err(AuthError::InvalidTransferAmount)
    );
    assert_eq!(
        AuthManager::parse_command("transfer foobar.near .5".to_owned()),
        Err(AuthError::InvalidTransferAmount)
    );
    // scaled amount would overflow the balance type
    assert_eq!(
        AuthManager::parse_command(
            "transfer foobar.near 999999999999999999999999999999".to_owned()
        ),
        Err(AuthError::InvalidTransferAmount)
    );
}

#[test]
fn transfer_rejects_bad_shape() {
    assert_eq!(
        AuthManager::parse_command("transfer foobar.near".to_owned()),
        Err(AuthError::UnrecognizedCommand)
    );
    assert_eq!(
        AuthManager::parse_command("transfer foobar.near 1 2".to_owned()),
        Err(AuthError::UnrecognizedCommand)
    );
    assert_eq!(
        AuthManager::parse_command("transferx foobar.near 134".to_owned()),
        Err(AuthError::UnrecognizedCommand)
    );
    // bad target account
    assert_eq!(
        AuthManager::parse_command("transfer Foobar.near 134".to_owned()),
        Err(AuthError::UnrecognizedCommand)
    );
    assert_eq!(
        AuthManager::parse_command("transfer x 134".to_owned()),
        Err(AuthError::UnrecognizedCommand)
    );
}

#[test]
fn transfer_tolerates_extra_whitespace() {
    assert_eq!(
        AuthManager::parse_command("transfer   foobar.near \t 134 \n".to_owned()),
        AuthManager::parse_command("transfer foobar.near 134".to_owned())
    );
}
