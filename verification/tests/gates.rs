use argon2::password_hash::SaltString;
use argon2::{Algorithm, Argon2, Params, PasswordHasher, Version};
use chacha20poly1305::aead::Aead;
use chacha20poly1305::{ChaCha20Poly1305, KeyInit};
use daylock::envelope::WrappedKey;
use daylock::error::KeyError;
use daylock::model::user::{User, UserRole};
use daylock::persistence::session_store::{SessionRow, SessionStore};
use daylock::persistence::user_repository::{LoginCredentials, UserRepository, UserRow};
use daylock::service::authentication::{
    authenticate_user, require_logged_in, require_logged_out, Gate,
};
use daylock::service::calendar_service::{CalendarDayPath, CalendarPath};
use daylock::templates::authentication_templates::{
    ChangePassTemplate, LoginTemplate, SignupTemplate,
};
use daylock::templates::calendar_templates::{
    CreateCalendarTemplate, ShowCalendarTemplate, ShowDayTemplate, UnlockDayTemplate,
};
use daylock::templates::templates::{HelloTemplate, HomeTemplate};
use daylock::model::calendar::{Calendar, CalendarDay, KeyHandler, UserCalendar, UserDay};
use daylock::web::authentication_handlers::{
    change_pass_post, login_post, logout_get, signup_post, ChangePassOutcome,
    ChangePasswordForm, LoginForm, LoginOutcome, SignupOutcome,
};
use daylock::web::calendar_handlers::{AddDayForm, CalendarCreationRequest, UnlockDayForm};

/// A verifier made with the smallest cost the hash allows, so that a test
/// can afford to check it many times.
fn quick_verifier(password: &str) -> String {
    let params = Params::new(8, 1, 1, None).unwrap();
    let salt = SaltString::encode_b64(b"saltsaltsalt").unwrap();
    Argon2::new(Algorithm::Argon2id, Version::V0x13, params)
        .hash_password(password.as_bytes(), &salt)
        .unwrap()
        .to_string()
}

/// The accounts with one row, made by hand for `ada` and `password`: her
/// content key is thirty-two eights, sealed under her master key.
fn accounts_with_ada(password: &str) -> (UserRepository, User) {
    let mut master = [0u8; 32];
    Argon2::default()
        .hash_password_into(password.as_bytes(), &[7u8; 12], &mut master)
        .unwrap();
    let sealed = ChaCha20Poly1305::new((&master).into())
        .encrypt((&[9u8; 12]).into(), &[8u8; 32][..])
        .unwrap();
    let mut users = UserRepository::new();
    users.rows.push(UserRow {
        id: 1,
        username: "ada".to_string(),
        role: UserRole::MEMBER,
        password_hash: quick_verifier(password),
        master_key_salt: vec![7u8; 12],
        content_key: WrappedKey {
            nonce: vec![9u8; 12],
            ciphertext: sealed,
        },
    });
    users.next_id = 2;
    let ada = User::new(1, "ada".to_string(), UserRole::MEMBER, vec![8u8; 32], vec![7u8; 12]);
    (users, ada)
}

const A_TOKEN: &str = "00010203-0405-0607-0809-0a0b0c0d0e0f";

fn somebody() -> Option<User> {
    Some(User::new(1, "ada".to_string(), UserRole::MEMBER, vec![0; 32], vec![0; 12]))
}

fn form(username: &str, password: &str) -> LoginForm {
    LoginForm {
        username: username.to_string(),
        password: password.to_string(),
    }
}

fn address(gate: Gate) -> Option<String> {
    match gate {
        Gate::Proceed => None,
        Gate::Redirect(address) => Some(address),
    }
}

#[test]
fn signed_in_users_are_sent_home_from_the_sign_in_pages() {
    assert_eq!(address(require_logged_out(&None)), None);
    assert_eq!(address(require_logged_out(&somebody())), Some("/".to_string()));
}

#[test]
fn visitors_are_sent_to_the_sign_in_page_and_back() {
    assert_eq!(address(require_logged_in(&somebody(), Some("/home"))), None);
    assert_eq!(
        address(require_logged_in(&None, Some("/calendar/1"))),
        Some("/login?next=/calendar/1".to_string())
    );
    assert_eq!(
        address(require_logged_in(&None, Some("/calendar/1/day/2?code=a b&x=ü"))),
        Some("/login?next=/calendar/1/day/2%3Fcode%3Da%20b%26x%3D%C3%BC".to_string())
    );
    assert_eq!(
        address(require_logged_in(&None, None)),
        Some("/login?next=/".to_string())
    );
}

#[test]
fn a_request_without_a_token_belongs_to_nobody() {
    let users = UserRepository::new();
    let mut sessions = SessionStore::new();
    assert!(matches!(
        authenticate_user(&mut sessions, &users, None, 0),
        Ok(None)
    ));
}

#[test]
fn a_malformed_token_is_refused() {
    let users = UserRepository::new();
    let mut sessions = SessionStore::new();
    for text in ["", "not a token", "0123", "zzzzzzzz-zzzz-zzzz-zzzz-zzzzzzzzzzzz"] {
        assert!(matches!(
            authenticate_user(&mut sessions, &users, Some(text), 0),
            Err(KeyError::InvalidCredentials)
        ));
    }
    assert!(matches!(
        authenticate_user(
            &mut sessions,
            &users,
            Some("00010203-0405-0607-0809-0a0b0c0d0e0f"),
            0
        ),
        Ok(None)
    ));
}

#[test]
fn a_token_text_is_read_as_the_bytes_it_spells() {
    let (users, ada) = accounts_with_ada("pw");
    let mut sessions = SessionStore::new();
    let token: [u8; 16] = [0, 1, 2, 3, 4, 5, 6, 7, 8, 9, 10, 11, 12, 13, 14, 15];
    sessions
        .add_user_with(ada, "pw", 0, token, &[0u8; 12])
        .unwrap();
    for text in [
        A_TOKEN,
        "000102030405060708090a0b0c0d0e0f",
        "00010203-0405-0607-0809-0A0B0C0D0E0F",
    ] {
        let found = authenticate_user(&mut sessions, &users, Some(text), 1).unwrap();
        assert_eq!(found.unwrap().username, "ada");
    }
    assert!(matches!(
        authenticate_user(
            &mut sessions,
            &users,
            Some("0f0e0d0c-0b0a-0908-0706-050403020100"),
            1
        ),
        Ok(None)
    ));
}

#[test]
fn signing_up_signs_in() {
    let mut users = UserRepository::new();
    let mut sessions = SessionStore::new();
    let outcome = signup_post(&mut users, &mut sessions, form("ada", "pw"), None, 100);
    let token = match outcome {
        SignupOutcome::Entered {
            user,
            token,
            target,
        } => {
            assert_eq!(user.username, "ada");
            assert_eq!(user.role, UserRole::MEMBER);
            assert_eq!(target, "/");
            token
        }
        _ => panic!("the name was free"),
    };
    assert_eq!(token.len(), 36);
    assert_eq!(users.rows.len(), 1);
    assert_eq!(sessions.rows.len(), 1);
    assert_eq!(sessions.rows[0].created_at, 100);
    let found = authenticate_user(&mut sessions, &users, Some(&token), 101).unwrap();
    assert_eq!(found.unwrap().id, 1);
}

#[test]
fn signing_up_under_a_taken_name_is_refused() {
    let (mut users, _) = accounts_with_ada("pw");
    let mut sessions = SessionStore::new();
    let again = signup_post(&mut users, &mut sessions, form("ada", "pw2"), None, 100);
    match again {
        SignupOutcome::Refused { error, page } => {
            assert_eq!(error, KeyError::Conflict);
            let message = page.status_message.unwrap();
            assert_eq!(message.message, "already taken");
            assert_eq!(message.creds.username, "ada");
            assert_eq!(message.creds.password, "pw2");
        }
        _ => panic!("the name was taken"),
    }
    assert_eq!(users.rows.len(), 1);
    assert!(sessions.rows.is_empty());
}

#[test]
fn signing_in_opens_a_session_and_leads_on() {
    let (users, _) = accounts_with_ada("pw");
    let mut sessions = SessionStore::new();
    let outcome = login_post(
        &users,
        &mut sessions,
        form("ada", "pw"),
        Some("/calendar/3".to_string()),
        50,
    );
    let token = match outcome {
        LoginOutcome::Entered { token, target } => {
            assert_eq!(target, "/calendar/3");
            token
        }
        _ => panic!("the credentials were right"),
    };
    assert_eq!(token.len(), 36);
    assert_eq!(sessions.rows.len(), 1);
    assert_eq!(sessions.rows[0].user_id, 1);
    assert_eq!(sessions.rows[0].created_at, 50);
    let found = authenticate_user(&mut sessions, &users, Some(&token), 60).unwrap();
    let found = found.unwrap();
    assert_eq!(found.username, "ada");
    assert_eq!(found.content_key_handler.get_key(), Ok(vec![8u8; 32]));

    assert_eq!(logout_get(&mut sessions, Some(&token), 70), Ok(()));
    assert!(matches!(
        authenticate_user(&mut sessions, &users, Some(&token), 70),
        Ok(None)
    ));
    assert_eq!(sessions.rows[0].expires_at, 70);
}

#[test]
fn signing_in_without_a_target_leads_home() {
    let (users, _) = accounts_with_ada("pw");
    let mut sessions = SessionStore::new();
    match login_post(&users, &mut sessions, form("ada", "pw"), None, 50) {
        LoginOutcome::Entered { target, .. } => assert_eq!(target, "/"),
        _ => panic!("the credentials were right"),
    }
}

#[test]
fn wrong_credentials_are_refused_on_the_sign_in_page() {
    let (users, _) = accounts_with_ada("pw");
    let mut sessions = SessionStore::new();
    match login_post(&users, &mut sessions, form("ada", "wrong"), None, 50) {
        LoginOutcome::Refused { error, page } => {
            assert_eq!(error, KeyError::InvalidCredentials);
            let message = page.status_message.unwrap();
            assert_eq!(message.message, "invalid credentials");
            assert_eq!(message.creds.username, "ada");
            assert_eq!(message.creds.password, "wrong");
        }
        _ => panic!("the password was wrong"),
    }
    match login_post(&users, &mut sessions, form("eve", "pw"), None, 50) {
        LoginOutcome::Refused { error, page } => {
            assert_eq!(error, KeyError::NotFound);
            assert_eq!(page.status_message.unwrap().message, "not found");
        }
        _ => panic!("there is no such user"),
    }
    assert!(sessions.rows.is_empty());
}

#[test]
fn a_session_that_cannot_be_counted_fails_the_sign_in() {
    let (users, _) = accounts_with_ada("pw");
    let mut sessions = SessionStore::new();
    assert!(matches!(
        login_post(&users, &mut sessions, form("ada", "pw"), None, i64::MAX),
        LoginOutcome::Failed
    ));
    assert!(sessions.rows.is_empty());
}

#[test]
fn signing_out_needs_a_well_formed_token() {
    let mut sessions = SessionStore::new();
    assert_eq!(
        logout_get(&mut sessions, None, 0),
        Err(KeyError::InvalidCredentials)
    );
    assert_eq!(
        logout_get(&mut sessions, Some("nonsense"), 0),
        Err(KeyError::InvalidCredentials)
    );
    assert_eq!(
        logout_get(&mut sessions, Some(A_TOKEN), 0),
        Ok(())
    );
}

fn change(old: &str, new: &str) -> ChangePasswordForm {
    ChangePasswordForm {
        old_password: old.to_string(),
        new_password: new.to_string(),
    }
}

/// A store that holds one session of `ada` under the token `A_TOKEN`.
fn sessions_with_a_token(ada: &User) -> SessionStore {
    let mut sessions = SessionStore::new();
    let token: [u8; 16] = [0, 1, 2, 3, 4, 5, 6, 7, 8, 9, 10, 11, 12, 13, 14, 15];
    sessions
        .add_user_with(ada.clone(), "old", 0, token, &[0u8; 12])
        .unwrap();
    sessions
}

/// A store whose one persisted session stands under the token `A_TOKEN`
/// and would run until the moment 1000.
fn sessions_with_a_row() -> SessionStore {
    let token: [u8; 16] = [0, 1, 2, 3, 4, 5, 6, 7, 8, 9, 10, 11, 12, 13, 14, 15];
    SessionStore::with_rows(vec![SessionRow {
        token_hash: SessionStore::row_name(&token),
        user_id: 1,
        created_at: 0,
        expires_at: 1_000,
        master_key: WrappedKey {
            nonce: vec![0u8; 12],
            ciphertext: vec![0u8; 48],
        },
    }])
}

#[test]
fn changing_the_password_expires_the_session() {
    let (mut users, ada) = accounts_with_ada("old");
    let mut sessions = sessions_with_a_row();
    let hash = users.rows[0].password_hash.clone();
    assert!(matches!(
        change_pass_post(
            &mut users,
            &mut sessions,
            &ada,
            change("old", "new"),
            Some(A_TOKEN),
            20
        ),
        ChangePassOutcome::Changed
    ));
    assert_ne!(users.rows[0].password_hash, hash);
    assert_eq!(sessions.rows[0].expires_at, 20);
    assert!(matches!(
        authenticate_user(&mut sessions, &users, Some(A_TOKEN), 20),
        Ok(None)
    ));
}

#[test]
fn a_refused_change_of_password_expires_the_session_too() {
    let (mut users, ada) = accounts_with_ada("old");
    let mut sessions = sessions_with_a_token(&ada);
    let hash = users.rows[0].password_hash.clone();
    assert!(matches!(
        authenticate_user(&mut sessions, &users, Some(A_TOKEN), 5),
        Ok(Some(_))
    ));
    match change_pass_post(
        &mut users,
        &mut sessions,
        &ada,
        change("bad", "new"),
        Some(A_TOKEN),
        10,
    ) {
        ChangePassOutcome::Refused { error, page } => {
            assert_eq!(error, KeyError::InvalidCredentials);
            assert_eq!(page.status_message, Some("invalid credentials".to_string()));
        }
        _ => panic!("the old password was wrong"),
    }
    assert_eq!(users.rows[0].password_hash, hash);
    assert_eq!(sessions.rows[0].expires_at, 10);
    assert!(matches!(
        authenticate_user(&mut sessions, &users, Some(A_TOKEN), 10),
        Ok(None)
    ));
}

#[test]
fn a_change_of_password_without_a_token_is_a_bad_request() {
    let (mut users, ada) = accounts_with_ada("old");
    let mut sessions = SessionStore::new();
    let hash = users.rows[0].password_hash.clone();
    assert!(matches!(
        change_pass_post(&mut users, &mut sessions, &ada, change("x", "y"), Some("??"), 40),
        ChangePassOutcome::BadRequest {
            changed: Err(KeyError::InvalidCredentials)
        }
    ));
    assert_eq!(users.rows[0].password_hash, hash);
    assert!(matches!(
        change_pass_post(&mut users, &mut sessions, &ada, change("old", "new"), None, 40),
        ChangePassOutcome::BadRequest { changed: Ok(()) }
    ));
    assert_ne!(users.rows[0].password_hash, hash);
    assert!(sessions.rows.is_empty());
}

#[test]
fn forms_carry_what_was_typed() {
    let login = form("ada", "pw");
    let copy = login.clone();
    let creds = login.into_credentials();
    assert_eq!((creds.username.as_str(), creds.password.as_str()), ("ada", "pw"));
    assert_eq!(copy.username, "ada");
    let change = ChangePasswordForm {
        old_password: "a".to_string(),
        new_password: "b".to_string(),
    };
    assert_eq!(change.clone().new_password, "b");
    assert_eq!(CalendarPath { calendar_id: 4 }.calendar_id, 4);
    assert_eq!(CalendarDayPath { day_id: 5 }.day_id, 5);
    assert_eq!(CalendarCreationRequest { title: "t".to_string() }.title, "t");
    assert_eq!(UnlockDayForm { code: None }.code, None);
    let add = AddDayForm {
        unlocks_at: 7,
        password: Some("x".to_string()),
        content: "c".to_string(),
    };
    assert_eq!((add.unlocks_at, add.content.as_str()), (7, "c"));
}

#[test]
fn pages_start_empty_and_show_their_message() {
    assert!(LoginTemplate::empty().status_message.is_none());
    assert!(SignupTemplate::empty().status_message.is_none());
    assert!(ChangePassTemplate::empty().status_message.is_none());
    let creds = || LoginCredentials {
        username: "ada".to_string(),
        password: "pw".to_string(),
    };
    let page = LoginTemplate::with_message("no".to_string(), creds());
    let message = page.status_message.unwrap();
    assert_eq!(message.message, "no");
    assert_eq!(message.creds.username, "ada");
    let page = SignupTemplate::with_message("taken".to_string(), creds());
    assert_eq!(page.status_message.unwrap().creds.password, "pw");
    let page = ChangePassTemplate::with_message("wrong".to_string());
    assert_eq!(page.status_message, Some("wrong".to_string()));
    assert_eq!(CreateCalendarTemplate::new(None).message, None);
    assert_eq!(
        CreateCalendarTemplate::new(Some("e".to_string())).message,
        Some("e".to_string())
    );
    assert!(HomeTemplate::with_user(None).user.is_none());
    assert_eq!(HomeTemplate::with_user(somebody()).user.unwrap().id, 1);
}

#[test]
fn calendar_pages_keep_what_they_were_given() {
    let calendar = || UserCalendar {
        calendar: Calendar {
            id: 2,
            owner_id: 1,
            title: "Advent".to_string(),
            created_at: 0,
        },
        subscribed_at: Some(3),
    };
    let day = || {
        UserDay::new(
            CalendarDay {
                id: 8,
                calendar_id: 2,
                unlocks_at: 0,
                protected: true,
            },
            None,
            KeyHandler::empty(),
        )
    };
    let page = ShowCalendarTemplate::new(calendar(), vec![day(), day()], somebody().unwrap());
    assert_eq!(page.user_calendar.calendar.title, "Advent");
    assert_eq!(page.days.len(), 2);
    assert_eq!(page.user.id, 1);
    let page = ShowDayTemplate::new(day(), calendar(), "text".to_string(), somebody().unwrap());
    assert_eq!(page.user_day.day.id, 8);
    assert_eq!(page.content, "text");
    let page = UnlockDayTemplate::new(Some("code".to_string()), day());
    assert_eq!(page.code, Some("code".to_string()));
    assert!(page.message.is_none());
    let page = page.with_message(Some("wrong".to_string()));
    assert_eq!(page.message, Some("wrong".to_string()));
    assert_eq!(page.code, Some("code".to_string()));
    assert_eq!(page.day.day.id, 8);
    let page = HelloTemplate::new(somebody().unwrap(), vec![]);
    assert_eq!(page.user.username, "ada");
    assert!(page.user_calendars.is_empty());
}
