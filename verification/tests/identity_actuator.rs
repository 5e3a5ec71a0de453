use email_auth::account::AccountId;
use email_auth::actuator::{ActuatorAction, Contract};
use email_auth::bridge::AuthManager;
use email_auth::relay::{fetch_window, next_nonce};
use email_auth::rng::always_fail;
use email_auth::AuthError;

#[test]
fn identity_mapping_is_pure_and_exact() {
    let a = AuthManager::sender_to_account("example.near@gmail.com".to_owned()).unwrap();
    let b = AuthManager::sender_to_account("example.near@gmail.com".to_owned()).unwrap();
    assert_eq!(a, "example_near_gmail_com".to_owned());
    assert_eq!(a, b);
    assert_eq!(
        AuthManager::sender_to_account("A-b_c.d@e".to_owned()).unwrap(),
        "A-b_c_d_e".to_owned()
    );
}

#[test]
fn identity_mapping_rejects_every_outside_character() {
    for s in ["a+b@x.com", "a b@x.com", "<a@x.com>", "a@x.com\n"] {
        assert_eq!(
            AuthManager::sender_to_account(s.to_owned()),
            Err(AuthError::UnsupportedCharacter)
        );
    }
}

#[test]
fn account_names_follow_the_ledger_rule() {
    assert!(AccountId::new("foobar.near".to_owned()).is_some());
    assert!(AccountId::new("a-b_c.d9".to_owned()).is_some());
    assert!(AccountId::new("x".to_owned()).is_none());
    assert!(AccountId::new("Foobar.near".to_owned()).is_none());
    assert!(AccountId::new(".ab".to_owned()).is_none());
    assert!(AccountId::new("ab.".to_owned()).is_none());
    assert!(AccountId::new("a..b".to_owned()).is_none());
    assert!(AccountId::new("a__b".to_owned()).is_none());
    assert!(AccountId::new("a".repeat(65)).is_none());
    assert!(AccountId::new("a".repeat(64)).is_some());
}

fn owner() -> AccountId {
    AccountId::new("auth.near".to_owned()).unwrap()
}

fn stranger() -> AccountId {
    AccountId::new("mallory.near".to_owned()).unwrap()
}

fn fresh() -> Contract {
    Contract::new_contract(owner())
}

#[test]
fn actuator_rejects_every_other_caller() {
    assert_eq!(
        fresh().add_key("ed25519:k".to_owned(), &stranger()),
        Err(AuthError::UnauthorizedCaller)
    );
    assert_eq!(
        fresh().delete_key("ed25519:k".to_owned(), &stranger()),
        Err(AuthError::UnauthorizedCaller)
    );
    assert_eq!(
        fresh().transfer(owner(), 5, &stranger()),
        Err(AuthError::UnauthorizedCaller)
    );
}

#[test]
fn actuator_obeys_exactly_its_owner() {
    assert_eq!(
        fresh().add_key("ed25519:k".to_owned(), &owner()).unwrap(),
        ActuatorAction::GrantFullAccessKey {
            public_key: "ed25519:k".to_owned()
        }
    );
    assert_eq!(
        fresh().delete_key("ed25519:k".to_owned(), &owner()).unwrap(),
        ActuatorAction::RevokeKey {
            public_key: "ed25519:k".to_owned()
        }
    );
    assert_eq!(
        fresh()
            .transfer(AccountId::new("bob.near".to_owned()).unwrap(), 7, &owner())
            .unwrap(),
        ActuatorAction::TransferBalance {
            to: AccountId::new("bob.near".to_owned()).unwrap(),
            amount: 7
        }
    );
}

#[test]
fn nonces_increase_strictly() {
    assert_eq!(next_nonce(None, 10), Some(11));
    assert_eq!(next_nonce(Some(15), 10), Some(16));
    assert_eq!(next_nonce(Some(3), 10), Some(11));
    assert_eq!(next_nonce(Some(u64::MAX), 0), None);
}

#[test]
fn fetch_window_moves_the_mark_forward() {
    assert_eq!(fetch_window(0, 3), (3, Some((1, 3))));
    assert_eq!(fetch_window(3, 3), (3, None));
    assert_eq!(fetch_window(5, 3), (5, None));
}

#[test]
fn keyring_lookup_returns_provisioned_records() {
    let records = vec![
        ("s1._domainkey.x.com".to_owned(), "v=DKIM1; p=AAA".to_owned()),
        ("s2._domainkey.y.com".to_owned(), "v=DKIM1; p=BBB".to_owned()),
        ("s1._domainkey.x.com".to_owned(), "v=DKIM1; p=CCC".to_owned()),
    ];
    assert_eq!(
        email_auth::keyring::lookup_records(&records, "s1._domainkey.x.com"),
        vec!["v=DKIM1; p=AAA".to_owned(), "v=DKIM1; p=CCC".to_owned()]
    );
    assert_eq!(
        email_auth::keyring::lookup_records(&records, "s3._domainkey.z.com"),
        Vec::<String>::new()
    );
}

#[test]
fn randomness_is_never_available() {
    let mut buf = [0u8; 8];
    assert!(always_fail(&mut buf).is_err());
}
