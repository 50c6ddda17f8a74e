use chacha20poly1305::aead::Aead;
use chacha20poly1305::{ChaCha20Poly1305, KeyInit};
use daylock::error::KeyError;
use daylock::model::calendar::KeyHandler;
use daylock::model::user::{User, UserRole};
use daylock::persistence::day_protection::Fresh;
use daylock::persistence::day_record::{DayRecord, DayState, UserDayRow};
use hkdf::Hkdf;
use sha2::Sha256;

fn user(id: i32, key_byte: u8) -> User {
    User::new(
        id,
        format!("user{}", id),
        UserRole::MEMBER,
        vec![key_byte; 32],
        vec![0u8; 12],
    )
}

fn day_key(password: &str) -> [u8; 32] {
    let mut key = [0u8; 32];
    Hkdf::<Sha256>::new(None, password.as_bytes())
        .expand(b"day key", &mut key)
        .unwrap();
    key
}

fn sealed(key: &[u8], nonce: &[u8], plaintext: &[u8]) -> Vec<u8> {
    ChaCha20Poly1305::new(key.into())
        .encrypt(nonce.into(), plaintext)
        .unwrap()
}

fn fresh() -> Fresh {
    Fresh {
        day_key_nonce: vec![1u8; 12],
        decryption_key: vec![2u8; 32],
        decryption_key_nonce: vec![3u8; 12],
        content_nonce: vec![4u8; 12],
    }
}

fn unprotected(owner: &User, content: &[u8]) -> DayRecord {
    DayRecord::create(7, 1, 1_000, owner, None, content, 10).unwrap()
}

fn read(day: &DayRecord, reader: &User) -> Result<Vec<u8>, KeyError> {
    let seen = day.get_user_day_with_key(reader)?;
    day.get_content(&seen)
}

#[test]
fn a_new_unprotected_day_stores_its_content_as_it_is() {
    let owner = user(1, 11);
    let day = unprotected(&owner, b"plain");
    assert!(!day.is_protected());
    assert!(!day.day().protected);
    assert_eq!(day.day().id, 7);
    assert_eq!(day.day().calendar_id, 1);
    assert_eq!(day.day().unlocks_at, 1_000);
    assert!(matches!(&day.state, DayState::Unprotected { content } if content == b"plain"));
    assert_eq!(day.unlocks.len(), 1);
    assert_eq!(day.unlocks[0].user_id, 1);
    assert_eq!(day.unlocks[0].unlocked_at, 10);
    assert!(day.unlocks[0].day_key.is_none());
    assert_eq!(read(&day, &owner), Ok(b"plain".to_vec()));
}

#[test]
fn a_new_protected_day_seals_the_whole_chain() {
    let owner = user(1, 11);
    let day =
        DayRecord::create_with(7, 1, 1_000, &owner, Some("x"), b"secret text", 10, &fresh())
            .unwrap();
    assert!(day.is_protected());
    assert!(day.day().protected);
    match &day.state {
        DayState::Protected {
            sealed_content,
            decryption_key,
        } => {
            assert_eq!(sealed_content.nonce, vec![4u8; 12]);
            assert_eq!(
                sealed_content.ciphertext,
                sealed(&[2u8; 32], &[4u8; 12], b"secret text")
            );
            assert_eq!(decryption_key.nonce, vec![3u8; 12]);
            assert_eq!(
                decryption_key.ciphertext,
                sealed(&day_key("x"), &[3u8; 12], &[2u8; 32])
            );
        }
        DayState::Unprotected { .. } => panic!("the day has a password"),
    }
    assert_eq!(day.unlocks.len(), 1);
    let row = &day.unlocks[0];
    assert_eq!((row.user_id, row.unlocked_at), (1, 10));
    let wrapped = row.day_key.as_ref().unwrap();
    assert_eq!(wrapped.nonce, vec![1u8; 12]);
    assert_eq!(
        wrapped.ciphertext,
        sealed(&[11u8; 32], &[1u8; 12], &day_key("x"))
    );
    assert_eq!(read(&day, &owner), Ok(b"secret text".to_vec()));
}

#[test]
fn set_password_then_unlock_by_another_user_reads_the_content() {
    let owner = user(1, 11);
    let reader = user(2, 22);
    let mut day = unprotected(&owner, b"what the day said");
    assert_eq!(day.set_password(&owner, "x"), Ok(()));
    assert!(day.is_protected());
    assert_eq!(read(&day, &reader), Err(KeyError::NotFound));
    assert_eq!(day.unlock_day(&reader, Some("x"), 2_000), Ok(()));
    assert_eq!(read(&day, &reader), Ok(b"what the day said".to_vec()));
}

#[test]
fn set_password_then_unlock_by_the_setter_without_a_record_reads_the_content() {
    let owner = user(1, 11);
    let setter = user(3, 33);
    let mut day = unprotected(&owner, b"what the day said");
    assert_eq!(day.set_password(&setter, "x"), Ok(()));
    assert_eq!(day.unlocks.len(), 0);
    assert_eq!(day.unlock_day(&setter, Some("x"), 2_000), Ok(()));
    assert_eq!(read(&day, &setter), Ok(b"what the day said".to_vec()));
}

#[test]
fn the_setter_who_had_unlocked_reads_on_and_cannot_unlock_twice() {
    let owner = user(1, 11);
    let mut day = unprotected(&owner, b"what the day said");
    assert_eq!(day.set_password(&owner, "x"), Ok(()));
    assert_eq!(read(&day, &owner), Ok(b"what the day said".to_vec()));
    assert_eq!(
        day.unlock_day(&owner, Some("x"), 2_000),
        Err(KeyError::AlreadyUnlocked)
    );
    assert_eq!(day.unlocks.len(), 1);
    assert_eq!(day.unlocks[0].unlocked_at, 10);
}

#[test]
fn unlock_with_a_wrong_password_is_refused_and_leaves_no_record() {
    let owner = user(1, 11);
    let reader = user(2, 22);
    let mut day = unprotected(&owner, b"content");
    day.set_password(&owner, "x").unwrap();
    assert_eq!(
        day.unlock_day(&reader, Some("wrong"), 2_000),
        Err(KeyError::InvalidCredentials)
    );
    assert_eq!(
        day.unlock_day(&reader, Some(""), 2_000),
        Err(KeyError::InvalidCredentials)
    );
    assert_eq!(
        day.unlock_day(&reader, None, 2_000),
        Err(KeyError::InvalidCredentials)
    );
    assert_eq!(day.unlocks.len(), 1);
    assert_eq!(day.position_of(2), None);
    assert_eq!(read(&day, &reader), Err(KeyError::NotFound));
}

#[test]
fn set_password_purges_the_other_users_records() {
    let owner = user(1, 11);
    let early = user(2, 22);
    let mut day = unprotected(&owner, b"content");
    day.unlock_day(&early, None, 1_500).unwrap();
    assert_eq!(day.unlocks.len(), 2);
    day.set_password(&owner, "x").unwrap();
    assert_eq!(day.unlocks.len(), 1);
    assert_eq!(day.unlocks[0].user_id, 1);
    assert_eq!(day.unlocks[0].unlocked_at, 10);
    assert_eq!(read(&day, &early), Err(KeyError::NotFound));
}

#[test]
fn set_password_with_seals_with_the_given_material() {
    let owner = user(1, 11);
    let mut day = unprotected(&owner, b"content");
    assert_eq!(day.set_password_with(&owner, "x", &fresh()), Ok(()));
    match &day.state {
        DayState::Protected {
            sealed_content,
            decryption_key,
        } => {
            assert_eq!(
                sealed_content.ciphertext,
                sealed(&[2u8; 32], &[4u8; 12], b"content")
            );
            assert_eq!(
                decryption_key.ciphertext,
                sealed(&day_key("x"), &[3u8; 12], &[2u8; 32])
            );
        }
        DayState::Unprotected { .. } => panic!("the day has a password"),
    }
    assert_eq!(
        day.unlocks[0].day_key.as_ref().unwrap().ciphertext,
        sealed(&[11u8; 32], &[1u8; 12], &day_key("x"))
    );
}

#[test]
fn set_password_fails_as_a_whole_when_the_content_key_is_unusable() {
    let owner = user(1, 11);
    let broken = User::new(9, "broken".to_string(), UserRole::MEMBER, vec![1u8; 5], vec![]);
    let mut day = unprotected(&owner, b"content");
    assert_eq!(day.set_password(&broken, "x"), Err(KeyError::StaleKey));
    assert!(!day.is_protected());
    assert_eq!(day.unlocks.len(), 1);
    assert_eq!(read(&day, &owner), Ok(b"content".to_vec()));
}

#[test]
fn update_password_revokes_the_other_users_and_keeps_the_content() {
    let a = user(1, 11);
    let b = user(2, 22);
    let mut day = unprotected(&a, b"what the day says");
    day.set_password(&a, "x").unwrap();
    day.unlock_day(&b, Some("x"), 2_000).unwrap();
    assert_eq!(read(&day, &b), Ok(b"what the day says".to_vec()));
    let sealed_before = match &day.state {
        DayState::Protected { sealed_content, .. } => sealed_content.clone(),
        DayState::Unprotected { .. } => panic!("the day has a password"),
    };

    let held = day.get_user_day_with_key(&a).unwrap();
    assert_eq!(day.update_password(&held, &a, "y"), Ok(()));

    match &day.state {
        DayState::Protected { sealed_content, .. } => {
            assert_eq!(sealed_content.nonce, sealed_before.nonce);
            assert_eq!(sealed_content.ciphertext, sealed_before.ciphertext);
        }
        DayState::Unprotected { .. } => panic!("the day has a password"),
    }
    assert_eq!(day.unlocks.len(), 1);
    assert_eq!(day.position_of(2), None);
    let seen = day.get_user_day_with_key(&b).unwrap();
    assert!(seen.unlocked_at.is_none());
    assert_eq!(read(&day, &b), Err(KeyError::NotFound));
    assert_eq!(
        day.unlock_day(&b, Some("x"), 3_000),
        Err(KeyError::InvalidCredentials)
    );
    assert_eq!(day.unlock_day(&b, Some("y"), 3_000), Ok(()));
    assert_eq!(read(&day, &b), Ok(b"what the day says".to_vec()));
    assert_eq!(read(&day, &a), Ok(b"what the day says".to_vec()));
}

#[test]
fn update_password_with_rewraps_the_same_decryption_key() {
    let a = user(1, 11);
    let mut day =
        DayRecord::create_with(7, 1, 1_000, &a, Some("x"), b"text", 10, &fresh()).unwrap();
    let held = day.get_user_day_with_key(&a).unwrap();
    let next = Fresh {
        day_key_nonce: vec![5u8; 12],
        decryption_key: vec![99u8; 32],
        decryption_key_nonce: vec![6u8; 12],
        content_nonce: vec![7u8; 12],
    };
    assert_eq!(day.update_password_with(&held, &a, "y", &next), Ok(()));
    match &day.state {
        DayState::Protected {
            sealed_content,
            decryption_key,
        } => {
            assert_eq!(sealed_content.nonce, vec![4u8; 12]);
            assert_eq!(
                sealed_content.ciphertext,
                sealed(&[2u8; 32], &[4u8; 12], b"text")
            );
            assert_eq!(decryption_key.nonce, vec![6u8; 12]);
            assert_eq!(
                decryption_key.ciphertext,
                sealed(&day_key("y"), &[6u8; 12], &[2u8; 32])
            );
        }
        DayState::Unprotected { .. } => panic!("the day has a password"),
    }
    assert_eq!(
        day.unlocks[0].day_key.as_ref().unwrap().ciphertext,
        sealed(&[11u8; 32], &[5u8; 12], &day_key("y"))
    );
}

#[test]
fn update_password_needs_the_day_key() {
    let a = user(1, 11);
    let b = user(2, 22);
    let mut day = unprotected(&a, b"content");
    day.set_password(&a, "x").unwrap();
    let stranger = day.get_user_day_with_key(&b).unwrap();
    assert_eq!(
        day.update_password(&stranger, &b, "y"),
        Err(KeyError::StaleKey)
    );
    assert_eq!(day.unlock_day(&b, Some("x"), 2_000), Ok(()));
    assert_eq!(read(&day, &a), Ok(b"content".to_vec()));
}

#[test]
fn update_and_remove_find_nothing_on_an_unprotected_day() {
    let a = user(1, 11);
    let mut day = unprotected(&a, b"content");
    let held = day.get_user_day_with_key(&a).unwrap();
    assert_eq!(day.update_password(&held, &a, "y"), Err(KeyError::NotFound));
    assert_eq!(day.remove_password(&held), Err(KeyError::NotFound));
    assert_eq!(read(&day, &a), Ok(b"content".to_vec()));
}

#[test]
fn remove_password_opens_the_day_to_everybody() {
    let a = user(1, 11);
    let b = user(2, 22);
    let c = user(3, 33);
    let mut day = unprotected(&a, b"for all to read");
    day.set_password(&a, "x").unwrap();
    day.unlock_day(&b, Some("x"), 2_000).unwrap();
    let held = day.get_user_day_with_key(&a).unwrap();
    assert_eq!(day.remove_password(&held), Ok(()));

    assert!(!day.is_protected());
    assert!(matches!(&day.state, DayState::Unprotected { content } if content == b"for all to read"));
    assert_eq!(day.unlocks.len(), 2);
    assert!(day.unlocks.iter().all(|row| row.day_key.is_none()));
    assert_eq!(read(&day, &a), Ok(b"for all to read".to_vec()));
    assert_eq!(read(&day, &b), Ok(b"for all to read".to_vec()));
    assert_eq!(read(&day, &c), Ok(b"for all to read".to_vec()));
    assert_eq!(day.unlock_day(&c, None, 2_000), Ok(()));
    assert_eq!(read(&day, &c), Ok(b"for all to read".to_vec()));
}

#[test]
fn remove_password_with_a_stale_key_changes_nothing() {
    let a = user(1, 11);
    let b = user(2, 22);
    let mut day = unprotected(&a, b"content");
    day.set_password(&a, "x").unwrap();
    let mut stale = day.get_user_day_with_key(&b).unwrap();
    stale.day_key_handler = KeyHandler::from_pass("not x", "day key");
    assert_eq!(day.remove_password(&stale), Err(KeyError::StaleKey));
    assert!(day.is_protected());
    assert_eq!(read(&day, &a), Ok(b"content".to_vec()));
}

#[test]
fn unlock_before_the_day_is_due_is_refused_whatever_the_password() {
    let owner = user(1, 11);
    let reader = user(2, 22);
    let mut day = unprotected(&owner, b"content");
    day.set_password(&owner, "x").unwrap();
    assert_eq!(
        day.unlock_day(&reader, Some("x"), 999),
        Err(KeyError::NotYetAvailable)
    );
    assert_eq!(
        day.unlock_day(&reader, Some("wrong"), 999),
        Err(KeyError::NotYetAvailable)
    );
    assert_eq!(
        day.unlock_day(&reader, None, i64::MIN),
        Err(KeyError::NotYetAvailable)
    );
    assert_eq!(
        day.unlock_day(&owner, Some("x"), 999),
        Err(KeyError::NotYetAvailable)
    );
    assert_eq!(
        day.unlock_day(&owner, Some("x"), 1_000),
        Err(KeyError::AlreadyUnlocked)
    );
    assert_eq!(day.unlocks.len(), 1);
    assert_eq!(day.unlock_day(&reader, Some("x"), 1_000), Ok(()));
    assert_eq!(day.unlocks[1].unlocked_at, 1_000);
}

#[test]
fn unlock_of_an_unprotected_day_needs_no_password() {
    let owner = user(1, 11);
    let reader = user(2, 22);
    let mut day = unprotected(&owner, b"content");
    assert_eq!(
        day.unlock_day(&reader, None, 999),
        Err(KeyError::NotYetAvailable)
    );
    assert_eq!(day.unlock_day(&reader, Some("anything"), 1_000), Ok(()));
    assert_eq!(
        day.unlock_day(&reader, None, 1_001),
        Err(KeyError::AlreadyUnlocked)
    );
    assert_eq!(day.unlocks.len(), 2);
    assert!(day.unlocks[1].day_key.is_none());
    let seen = day.get_user_day_with_key(&reader).unwrap();
    assert_eq!(seen.unlocked_at, Some(1_000));
    assert!(seen.day_key_handler.get_key().is_err());
}

#[test]
fn unlock_day_with_seals_the_day_key_under_the_content_key() {
    let owner = user(1, 11);
    let reader = user(2, 22);
    let mut day =
        DayRecord::create_with(7, 1, 1_000, &owner, Some("x"), b"text", 10, &fresh()).unwrap();
    assert_eq!(day.unlock_day_with(&reader, Some("x"), 1_234, &[8u8; 12]), Ok(()));
    let row = &day.unlocks[1];
    assert_eq!((row.user_id, row.unlocked_at), (2, 1_234));
    let wrapped = row.day_key.as_ref().unwrap();
    assert_eq!(wrapped.nonce, vec![8u8; 12]);
    assert_eq!(
        wrapped.ciphertext,
        sealed(&[22u8; 32], &[8u8; 12], &day_key("x"))
    );
    let seen = day.get_user_day_with_key(&reader).unwrap();
    assert_eq!(seen.day_key_handler.get_key(), Ok(day_key("x").to_vec()));
}

#[test]
fn a_rotated_day_key_is_reported_as_stale() {
    let a = user(1, 11);
    let b = user(2, 22);
    let mut day = unprotected(&a, b"content");
    day.set_password(&a, "x").unwrap();
    day.unlock_day(&b, Some("x"), 2_000).unwrap();
    let before = day.get_user_day_with_key(&b).unwrap();
    let held = day.get_user_day_with_key(&a).unwrap();
    day.update_password(&held, &a, "y").unwrap();
    assert_eq!(day.get_content(&before), Err(KeyError::StaleKey));
}

#[test]
fn a_record_that_lost_its_day_key_is_not_found() {
    let a = user(1, 11);
    let mut day = unprotected(&a, b"content");
    day.set_password(&a, "x").unwrap();
    day.unlocks.push(UserDayRow {
        user_id: 5,
        unlocked_at: 50,
        day_key: None,
    });
    assert_eq!(
        day.get_user_day_with_key(&user(5, 55)).err(),
        Some(KeyError::NotFound)
    );
    let other = user(1, 12);
    assert_eq!(
        day.get_user_day_with_key(&other).err(),
        Some(KeyError::StaleKey)
    );
}

#[test]
fn edit_content_keeps_the_protection() {
    let a = user(1, 11);
    let b = user(2, 22);
    let mut day = unprotected(&a, b"first");
    let held = day.get_user_day_with_key(&a).unwrap();
    assert_eq!(day.edit_content(&held, b"second"), Ok(()));
    assert_eq!(read(&day, &b), Ok(b"second".to_vec()));

    day.set_password(&a, "x").unwrap();
    day.unlock_day(&b, Some("x"), 2_000).unwrap();
    let held = day.get_user_day_with_key(&a).unwrap();
    assert_eq!(day.edit_content(&held, b"third"), Ok(()));
    assert!(day.is_protected());
    assert_eq!(read(&day, &a), Ok(b"third".to_vec()));
    assert_eq!(read(&day, &b), Ok(b"third".to_vec()));

    let stranger = day.get_user_day_with_key(&user(3, 33)).unwrap();
    assert_eq!(day.edit_content(&stranger, b"fourth"), Err(KeyError::StaleKey));
    assert_eq!(read(&day, &a), Ok(b"third".to_vec()));
}

#[test]
fn edit_content_with_seals_under_the_decryption_key() {
    let a = user(1, 11);
    let mut day =
        DayRecord::create_with(7, 1, 1_000, &a, Some("x"), b"text", 10, &fresh()).unwrap();
    let held = day.get_user_day_with_key(&a).unwrap();
    assert_eq!(day.edit_content_with(&held, b"new text", &[9u8; 12]), Ok(()));
    match &day.state {
        DayState::Protected {
            sealed_content,
            decryption_key,
        } => {
            assert_eq!(sealed_content.nonce, vec![9u8; 12]);
            assert_eq!(
                sealed_content.ciphertext,
                sealed(&[2u8; 32], &[9u8; 12], b"new text")
            );
            assert_eq!(decryption_key.nonce, vec![3u8; 12]);
        }
        DayState::Unprotected { .. } => panic!("the day has a password"),
    }
}

#[test]
fn material_of_the_wrong_length_is_refused_and_changes_nothing() {
    let a = user(1, 11);
    let mut day = unprotected(&a, b"content");
    let mut bad = fresh();
    bad.content_nonce = vec![0u8; 11];
    assert_eq!(day.set_password_with(&a, "x", &bad), Err(KeyError::StaleKey));
    let mut bad = fresh();
    bad.decryption_key = vec![0u8; 16];
    assert_eq!(day.set_password_with(&a, "x", &bad), Err(KeyError::StaleKey));
    assert!(!day.is_protected());
    assert_eq!(day.unlocks.len(), 1);
}

#[test]
fn drawn_material_has_the_right_lengths() {
    let first = Fresh::draw();
    let second = Fresh::draw();
    assert_eq!(first.day_key_nonce.len(), 12);
    assert_eq!(first.decryption_key.len(), 32);
    assert_eq!(first.decryption_key_nonce.len(), 12);
    assert_eq!(first.content_nonce.len(), 12);
    assert_ne!(first.decryption_key, second.decryption_key);
    assert_ne!(first.content_nonce, second.content_nonce);
}
