use metadata_provider::ContractError;
use metadata_provider::HandleAnswer;
use metadata_provider::HandleMsg;
use metadata_provider::Identity;
use metadata_provider::Metadata;
use metadata_provider::Partition;
use metadata_provider::QueryAnswer;
use metadata_provider::QueryMsg;
use metadata_provider::State;
use metadata_provider::ViewerInfo;

fn ident(tag: u8) -> Identity {
    Identity::new(vec![tag; 20])
}

fn init_state(admin: &Identity) -> State {
    let mut s = State::new();
    s.init(
        admin,
        "provider".to_string(),
        "PRV".to_string(),
        ident(0xEE),
        "registryhash".to_string(),
        &b"host randomness".to_vec(),
    );
    s
}

#[test]
fn write_rejects_record_with_both_fields_set() {
    let admin = ident(1);
    let mut s = init_state(&admin);
    let bad = Metadata {
        token_uri: Some("ipfs://x".to_string()),
        extension: Some("{}".to_string()),
    };
    let r = s.write(Partition::Public, &b"1".to_vec(), &bad);
    assert_eq!(r, Err(ContractError::MutualExclusionViolation));
    // nothing was written
    let got = s.read(Partition::Public, &b"1".to_vec());
    assert_eq!(got.token_uri, None);
    assert_eq!(got.extension, None);
}

#[test]
fn rejected_write_leaves_prior_record_in_place() {
    let admin = ident(1);
    let mut s = init_state(&admin);
    let good = Metadata { token_uri: Some("ipfs://old".to_string()), extension: None };
    assert!(s.write(Partition::Public, &b"1".to_vec(), &good).is_ok());
    let bad = Metadata {
        token_uri: Some("ipfs://new".to_string()),
        extension: Some("{}".to_string()),
    };
    assert_eq!(
        s.write(Partition::Public, &b"1".to_vec(), &bad),
        Err(ContractError::MutualExclusionViolation)
    );
    let got = s.read(Partition::Public, &b"1".to_vec());
    assert_eq!(got.token_uri, Some("ipfs://old".to_string()));
}

#[test]
fn write_accepts_uri_only_extension_only_and_empty() {
    let admin = ident(1);
    let mut s = init_state(&admin);
    let uri_only = Metadata { token_uri: Some("ipfs://x".to_string()), extension: None };
    let ext_only = Metadata { token_uri: None, extension: Some("doc".to_string()) };
    let empty = Metadata { token_uri: None, extension: None };
    assert!(s.write(Partition::Public, &b"a".to_vec(), &uri_only).is_ok());
    assert!(s.write(Partition::Public, &b"b".to_vec(), &ext_only).is_ok());
    assert!(s.write(Partition::Public, &b"c".to_vec(), &empty).is_ok());
    assert_eq!(
        s.read(Partition::Public, &b"b".to_vec()).extension,
        Some("doc".to_string())
    );
}

#[test]
fn partitions_are_isolated() {
    let admin = ident(1);
    let mut s = init_state(&admin);
    let secret_meta = Metadata { token_uri: None, extension: Some("secret".to_string()) };
    assert!(s.write(Partition::Private, &b"1".to_vec(), &secret_meta).is_ok());

    // a public write under the same item id leaves the private record alone
    let public_meta = Metadata { token_uri: Some("ipfs://pub".to_string()), extension: None };
    assert!(s.write(Partition::Public, &b"1".to_vec(), &public_meta).is_ok());

    let private_read = s.read(Partition::Private, &b"1".to_vec());
    assert_eq!(private_read.extension, Some("secret".to_string()));
    assert_eq!(private_read.token_uri, None);

    // and an id never written privately still reads as the default
    let fresh = s.read(Partition::Private, &b"2".to_vec());
    assert_eq!(fresh.token_uri, None);
    assert_eq!(fresh.extension, None);
}

#[test]
fn read_of_absent_record_returns_default_not_error() {
    let admin = ident(1);
    let s = init_state(&admin);
    let got = s.read(Partition::Public, &b"never written".to_vec());
    assert_eq!(got.token_uri, None);
    assert_eq!(got.extension, None);
}

#[test]
fn set_metadata_is_admin_gated() {
    let admin = ident(1);
    let intruder = ident(2);
    let mut s = init_state(&admin);
    let meta = Metadata { token_uri: Some("ipfs://x".to_string()), extension: None };
    let r = s.handle_set_metadata(&intruder, &b"1".to_vec(), Some(meta), None);
    assert_eq!(r, Err(ContractError::Unauthorized));
    assert_eq!(s.read(Partition::Public, &b"1".to_vec()).token_uri, None);
}

#[test]
fn set_metadata_aborts_whole_call_on_one_bad_record() {
    let admin = ident(1);
    let mut s = init_state(&admin);
    let good = Metadata { token_uri: Some("ipfs://x".to_string()), extension: None };
    let bad = Metadata {
        token_uri: Some("ipfs://y".to_string()),
        extension: Some("{}".to_string()),
    };
    // the public record is valid on its own, but the private one is not:
    // nothing at all may be written
    let r = s.handle_set_metadata(&admin, &b"1".to_vec(), Some(good), Some(bad));
    assert_eq!(r, Err(ContractError::MutualExclusionViolation));
    assert_eq!(s.read(Partition::Public, &b"1".to_vec()).token_uri, None);
    assert_eq!(s.read(Partition::Private, &b"1".to_vec()).token_uri, None);
}

#[test]
fn change_admin_succeeds_only_for_admin_and_moves_the_power() {
    let alice = ident(1);
    let bob = ident(2);
    let mut s = init_state(&alice);

    // bob is not admin
    assert_eq!(s.handle_change_admin(&bob, &bob), Err(ContractError::Unauthorized));

    // alice hands the store to bob
    let r = s.handle_change_admin(&alice, &bob);
    assert!(r.is_ok());

    // alice can no longer change the admin, bob can
    assert_eq!(s.handle_change_admin(&alice, &alice), Err(ContractError::Unauthorized));
    assert!(s.handle_change_admin(&bob, &alice).is_ok());
}

#[test]
fn set_key_round_trip() {
    let caller = ident(3);
    let mut s = init_state(&ident(1));
    let r = s.handle_set_key(&caller, b"open sesame".to_vec());
    match r {
        Ok(HandleAnswer::ViewingKey { key }) => assert_eq!(key, b"open sesame".to_vec()),
        other => panic!("unexpected answer: {:?}", other.is_ok()),
    }
    assert!(s.check_key(&caller, &b"open sesame".to_vec()).is_ok());
    assert_eq!(
        s.check_key(&caller, &b"wrong".to_vec()),
        Err(ContractError::Unauthorized)
    );
}

#[test]
fn set_key_overwrites_prior_key() {
    let caller = ident(3);
    let mut s = init_state(&ident(1));
    assert!(s.handle_set_key(&caller, b"first".to_vec()).is_ok());
    assert!(s.handle_set_key(&caller, b"second".to_vec()).is_ok());
    assert!(s.check_key(&caller, &b"second".to_vec()).is_ok());
    assert_eq!(
        s.check_key(&caller, &b"first".to_vec()),
        Err(ContractError::Unauthorized)
    );
}

#[test]
fn created_key_validates_and_differs_from_entropy() {
    let caller = ident(4);
    let mut s = init_state(&ident(1));
    let entropy = b"user entropy".to_vec();
    let r = s.handle_create_key(&caller, &entropy, 12345, 1_700_000_000);
    let secret = match r {
        Ok(HandleAnswer::ViewingKey { key }) => key,
        _ => panic!("key creation failed"),
    };
    assert!(s.check_key(&caller, &secret).is_ok());
    assert_ne!(secret, entropy);
    assert_eq!(secret.len(), 32);
}

#[test]
fn validate_refuses_unknown_caller_and_wrong_key_alike() {
    let known = ident(5);
    let unknown = ident(6);
    let mut s = init_state(&ident(1));
    assert!(s.handle_set_key(&known, b"right".to_vec()).is_ok());
    assert_eq!(
        s.check_key(&known, &b"anything".to_vec()),
        Err(ContractError::Unauthorized)
    );
    assert_eq!(
        s.check_key(&unknown, &b"anything".to_vec()),
        Err(ContractError::Unauthorized)
    );
    // a digest-length string of zero bytes does not pass either: the
    // sentinel is compared against the digest of the candidate, not the
    // candidate itself
    assert_eq!(
        s.check_key(&unknown, &vec![0u8; 32]),
        Err(ContractError::Unauthorized)
    );
}

#[test]
fn handle_on_uninitialized_store_reports_corrupt_storage() {
    let caller = ident(1);
    let mut s = State::new();
    let r = s.handle(
        &caller,
        1,
        1,
        HandleMsg::SetViewingKey { key: b"k".to_vec() },
    );
    assert_eq!(r, Err(ContractError::StorageCorrupt));
}

#[test]
fn pad_response_aligns_and_preserves_prefix() {
    let mut short = b"hello".to_vec();
    metadata_provider::pad_response(&mut short);
    assert_eq!(short.len(), 256);
    assert_eq!(&short[..5], b"hello");
    assert!(short[5..].iter().all(|b| *b == b' '));

    let mut empty: Vec<u8> = Vec::new();
    metadata_provider::pad_response(&mut empty);
    assert_eq!(empty.len(), 0);

    let mut exact = vec![7u8; 256];
    metadata_provider::pad_response(&mut exact);
    assert_eq!(exact.len(), 256);

    let mut long = vec![9u8; 257];
    metadata_provider::pad_response(&mut long);
    assert_eq!(long.len(), 512);
}

#[test]
fn same_bucket_pads_to_same_length() {
    let mut a = vec![1u8; 10];
    let mut b = vec![2u8; 200];
    metadata_provider::pad_response(&mut a);
    metadata_provider::pad_response(&mut b);
    assert_eq!(a.len(), b.len());
}

#[test]
fn end_to_end_scenario() {
    let alice = ident(0xA1);
    let bob = ident(0xB2);
    let mut s = init_state(&alice);

    // the admin publishes a public record for item 1
    let meta = Metadata { token_uri: Some("ipfs://x".to_string()), extension: None };
    let r = s.handle(
        &alice,
        100,
        1_000,
        HandleMsg::SetMetadata {
            token_id: b"1".to_vec(),
            public_metadata: Some(meta),
            private_metadata: None,
        },
    );
    assert!(r.is_ok());

    // anyone may read the public record
    let q = s.query(QueryMsg::NftInfo { token_id: b"1".to_vec(), viewer: None });
    match q {
        Ok(QueryAnswer::NftInfo { token_uri, extension }) => {
            assert_eq!(token_uri, Some("ipfs://x".to_string()));
            assert_eq!(extension, None);
        }
        _ => panic!("public query failed"),
    }

    // a private read without a viewer is refused
    let q = s.query(QueryMsg::PrivateMetadata { token_id: b"1".to_vec(), viewer: None });
    assert!(matches!(q, Err(ContractError::Unauthorized)));

    // bob creates a viewing key
    let r = s.handle(
        &bob,
        101,
        1_010,
        HandleMsg::CreateViewingKey { entropy: b"bob entropy".to_vec() },
    );
    let key = match r {
        Ok(HandleAnswer::ViewingKey { key }) => key,
        _ => panic!("key creation failed"),
    };

    // with the key, bob reads the (still default) private record
    let q = s.query(QueryMsg::PrivateMetadata {
        token_id: b"1".to_vec(),
        viewer: Some(ViewerInfo { address: bob.duplicate(), viewing_key: key }),
    });
    match q {
        Ok(QueryAnswer::PrivateMetadata { token_uri, extension }) => {
            assert_eq!(token_uri, None);
            assert_eq!(extension, None);
        }
        _ => panic!("private query failed"),
    }

    // bob is not the admin
    let r = s.handle(
        &bob,
        102,
        1_020,
        HandleMsg::ChangeAdmin { address: bob.duplicate() },
    );
    assert_eq!(r, Err(ContractError::Unauthorized));
}

#[test]
fn public_query_needs_no_authorization() {
    let admin = ident(1);
    let viewer = ident(7);
    let mut s = init_state(&admin);
    let meta = Metadata { token_uri: Some("ipfs://x".to_string()), extension: None };
    assert!(s.write(Partition::Public, &b"1".to_vec(), &meta).is_ok());
    assert!(s.handle_set_key(&viewer, b"right".to_vec()).is_ok());

    // a supplied viewer, even with a wrong key, does not block a
    // public read: public data is public by design
    let q = s.query(QueryMsg::NftInfo {
        token_id: b"1".to_vec(),
        viewer: Some(ViewerInfo { address: viewer.duplicate(), viewing_key: b"wrong".to_vec() }),
    });
    match q {
        Ok(QueryAnswer::NftInfo { token_uri, extension }) => {
            assert_eq!(token_uri, Some("ipfs://x".to_string()));
            assert_eq!(extension, None);
        }
        _ => panic!("public query must not fail"),
    }

    // and the same with a valid viewer
    let q = s.query(QueryMsg::NftInfo {
        token_id: b"1".to_vec(),
        viewer: Some(ViewerInfo { address: viewer.duplicate(), viewing_key: b"right".to_vec() }),
    });
    assert!(q.is_ok());
}

#[test]
fn identity_equality_is_by_address_bytes() {
    let a = Identity::new(vec![1, 2, 3]);
    let b = Identity::new(vec![1, 2, 3]);
    let c = Identity::new(vec![1, 2, 3, 4]);
    assert!(a.same(&b));
    assert!(!a.same(&c));
    assert_eq!(a.as_bytes(), &vec![1u8, 2, 3]);
}

#[test]
fn ct_eq_matches_plain_equality() {
    assert!(metadata_provider::ct_eq(&vec![], &vec![]));
    assert!(metadata_provider::ct_eq(&vec![1, 2, 3], &vec![1, 2, 3]));
    assert!(!metadata_provider::ct_eq(&vec![1, 2, 3], &vec![1, 2, 4]));
    assert!(!metadata_provider::ct_eq(&vec![1, 2, 3], &vec![1, 2]));
}

#[test]
fn enforce_exclusion_reports_only_the_double_record() {
    let both = Metadata {
        token_uri: Some("u".to_string()),
        extension: Some("e".to_string()),
    };
    assert_eq!(
        metadata_provider::enforce_metadata_field_exclusion(&both),
        Err(ContractError::MutualExclusionViolation)
    );
    let one = Metadata { token_uri: Some("u".to_string()), extension: None };
    assert!(metadata_provider::enforce_metadata_field_exclusion(&one).is_ok());
}
