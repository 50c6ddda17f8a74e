use daylock::error::KeyError;
use daylock::model::calendar::{
    Calendar, CalendarDay, KeyHandler, Status, UserCalendar, UserDay,
};
use daylock::model::user::{User, UserRole};
use daylock::persistence::calendar_repository::{CalendarRepository, Subscription};
use daylock::service::calendar_service::CalendarService;

fn user(id: i32, key_byte: u8) -> User {
    User::new(
        id,
        format!("user{}", id),
        UserRole::MEMBER,
        vec![key_byte; 32],
        vec![0u8; 12],
    )
}

fn day_at(unlocks_at: i64, unlocked_at: Option<i64>) -> UserDay {
    UserDay::new(
        CalendarDay {
            id: 1,
            calendar_id: 1,
            unlocks_at,
            protected: false,
        },
        unlocked_at,
        KeyHandler::empty(),
    )
}

/// A service with one calendar that user 1 owns and users 1 and 2 follow.
fn service() -> (CalendarService, User, User, UserCalendar) {
    let owner = user(1, 11);
    let reader = user(2, 22);
    let mut service = CalendarService::new(CalendarRepository::new());
    let calendar = service.create_calendar(&owner, "Advent", 5).unwrap();
    let seen = service.get_user_calendar(calendar.id, &reader).unwrap();
    service.subscribe(&reader, &seen, 6).unwrap();
    let seen = service.get_user_calendar(calendar.id, &owner).unwrap();
    (service, owner, reader, seen)
}

#[test]
fn status_words() {
    assert_eq!(Status::Future.as_str(), "future");
    assert_eq!(Status::Locked.as_str(), "locked");
    assert_eq!(Status::Unlocked.as_str(), "unlocked");
}

#[test]
fn a_day_is_future_then_locked_then_unlocked() {
    let day = day_at(100, None);
    assert!(!day.is_unlocked());
    assert!(!day.is_available(99));
    assert!(!day.is_available(100));
    assert!(day.is_available(101));
    assert_eq!(day.get_status(99), Status::Future);
    assert_eq!(day.get_status(100), Status::Future);
    assert_eq!(day.get_status(101), Status::Locked);
    let opened = day_at(100, Some(150));
    assert!(opened.is_unlocked());
    assert_eq!(opened.get_status(99), Status::Unlocked);
    assert_eq!(opened.get_status(200), Status::Unlocked);
}

#[test]
fn user_day_new_keeps_its_parts() {
    let day = CalendarDay {
        id: 4,
        calendar_id: 2,
        unlocks_at: 9,
        protected: true,
    };
    let user_day = UserDay::new(day, Some(12), KeyHandler::from_key(vec![1, 2]));
    assert_eq!(user_day.day, day);
    assert_eq!(user_day.unlocked_at, Some(12));
    assert_eq!(user_day.day_key_handler.get_key(), Ok(vec![1, 2]));
    let copy = user_day.clone();
    assert_eq!(copy.day, day);
    assert_eq!(copy.day_key_handler.get_key(), Ok(vec![1, 2]));
}

#[test]
fn create_calendar_numbers_calendars_and_subscribes_the_owner() {
    let owner = user(1, 11);
    let mut service = CalendarService::new(CalendarRepository::new());
    let first = service.create_calendar(&owner, "Advent", 5).unwrap();
    let second = service.create_calendar(&owner, "Lent", 6).unwrap();
    assert_eq!((first.id, first.owner_id, first.created_at), (1, 1, 5));
    assert_eq!(first.title, "Advent");
    assert_eq!((second.id, second.title.as_str()), (2, "Lent"));
    assert_eq!(
        service.repo.subscriptions,
        vec![
            Subscription {
                user_id: 1,
                calendar_id: 1,
                subscribed_at: 5
            },
            Subscription {
                user_id: 1,
                calendar_id: 2,
                subscribed_at: 6
            },
        ]
    );
    let seen = service.get_user_calendar(1, &owner).unwrap();
    assert_eq!(seen.subscribed_at, Some(5));
    assert_eq!(seen.calendar.title, "Advent");
}

#[test]
fn a_missing_calendar_is_not_found() {
    let (service, owner, _, _) = service();
    assert_eq!(
        service.get_user_calendar(9, &owner).err(),
        Some(KeyError::NotFound)
    );
}

#[test]
fn used_up_calendar_numbers_are_a_limit() {
    let mut repo = CalendarRepository::new();
    repo.next_calendar_id = i32::MAX;
    assert_eq!(
        repo.create_calendar(&user(1, 11), "x", 0).err(),
        Some(KeyError::LimitExceeded)
    );
    assert!(repo.calendars.is_empty());
}

#[test]
fn subscribing_twice_is_a_conflict() {
    let (mut service, _, reader, _) = service();
    let seen = service.get_user_calendar(1, &reader).unwrap();
    assert_eq!(seen.subscribed_at, Some(6));
    assert_eq!(
        service.subscribe(&reader, &seen, 7),
        Err(KeyError::Conflict)
    );
    let stale = UserCalendar {
        calendar: seen.calendar.clone(),
        subscribed_at: None,
    };
    assert_eq!(
        service.subscribe(&reader, &stale, 7),
        Err(KeyError::Conflict)
    );
    assert_eq!(service.repo.subscriptions.len(), 2);
    let newcomer = user(3, 33);
    assert_eq!(service.subscribe(&newcomer, &stale, 8), Ok(()));
    assert_eq!(service.repo.subscription_of(3, 1), Some(8));
    assert_eq!(service.repo.subscription_of(3, 2), None);
}

#[test]
fn only_the_owner_adds_days() {
    let (mut service, owner, reader, calendar) = service();
    assert_eq!(
        service.add_day(&reader, &calendar, 100, None, "text".to_string(), 10),
        Err(KeyError::Unauthorized)
    );
    assert!(service.repo.days.is_empty());
    assert_eq!(
        service.add_day(&owner, &calendar, 100, None, "text".to_string(), 10),
        Ok(1)
    );
    assert_eq!(
        service.add_day(&owner, &calendar, 50, Some("x".to_string()), "more".to_string(), 10),
        Ok(2)
    );
    assert_eq!(service.repo.days.len(), 2);
    assert!(!service.repo.days[0].is_protected());
    assert!(service.repo.days[1].is_protected());
    assert_eq!(service.repo.days[1].calendar_id, 1);
    assert_eq!(service.repo.days[1].unlocks_at, 50);
}

#[test]
fn an_empty_password_counts_as_none() {
    let (mut service, owner, _, calendar) = service();
    service
        .add_day(&owner, &calendar, 100, Some(String::new()), "text".to_string(), 10)
        .unwrap();
    assert!(!service.repo.days[0].is_protected());
}

#[test]
fn used_up_day_numbers_are_a_limit() {
    let (mut service, owner, _, calendar) = service();
    service.repo.next_day_id = i32::MAX;
    assert_eq!(
        service.add_day(&owner, &calendar, 100, None, "text".to_string(), 10),
        Err(KeyError::LimitExceeded)
    );
    assert!(service.repo.days.is_empty());
}

#[test]
fn a_protected_day_is_read_after_unlocking_with_its_password() {
    let (mut service, owner, reader, calendar) = service();
    let id = service
        .add_day(&owner, &calendar, 100, Some("x".to_string()), "grüße".to_string(), 10)
        .unwrap();

    let seen = service.get_user_day(&calendar, id, &reader).unwrap();
    assert!(seen.day.protected);
    assert_eq!(seen.get_status(99), Status::Future);
    assert_eq!(seen.get_status(101), Status::Locked);
    assert_eq!(
        service.get_rich_content(&seen, &reader).err(),
        Some(KeyError::NotFound)
    );
    assert_eq!(
        service.unlock_day(&seen, &reader, Some("x".to_string()), 99),
        Err(KeyError::NotYetAvailable)
    );
    assert_eq!(
        service.unlock_day(&seen, &reader, Some("nope".to_string()), 99),
        Err(KeyError::NotYetAvailable)
    );
    assert_eq!(
        service.unlock_day(&seen, &reader, Some("nope".to_string()), 100),
        Err(KeyError::InvalidCredentials)
    );
    assert_eq!(
        service.unlock_day(&seen, &reader, None, 100),
        Err(KeyError::InvalidCredentials)
    );
    assert_eq!(service.repo.days[0].unlocks.len(), 1);
    assert_eq!(
        service.unlock_day(&seen, &reader, Some("x".to_string()), 100),
        Ok(())
    );

    let seen = service.get_user_day(&calendar, id, &reader).unwrap();
    assert_eq!(seen.unlocked_at, Some(100));
    assert_eq!(seen.get_status(100), Status::Unlocked);
    assert_eq!(service.get_rich_content(&seen, &reader), Ok("grüße".to_string()));
    assert_eq!(
        service.unlock_day(&seen, &reader, Some("x".to_string()), 101),
        Err(KeyError::AlreadyUnlocked)
    );
    let stale = day_at(100, None);
    let stale = UserDay::new(
        CalendarDay { id, ..stale.day },
        None,
        KeyHandler::empty(),
    );
    assert_eq!(
        service.unlock_day(&stale, &reader, Some("x".to_string()), 101),
        Err(KeyError::AlreadyUnlocked)
    );
    assert_eq!(service.repo.days[0].unlocks.len(), 2);
}

#[test]
fn edit_password_sets_changes_and_removes() {
    let (mut service, owner, reader, calendar) = service();
    let id = service
        .add_day(&owner, &calendar, 100, None, "the text".to_string(), 10)
        .unwrap();
    let as_reader = service.get_user_day(&calendar, id, &reader).unwrap();
    service.unlock_day(&as_reader, &reader, None, 100).unwrap();

    let held = service.get_user_day(&calendar, id, &owner).unwrap();
    assert_eq!(
        service.edit_password(&calendar, &held, &reader, Some("x".to_string())),
        Err(KeyError::Unauthorized)
    );
    assert_eq!(service.edit_password(&calendar, &held, &owner, None), Ok(()));
    assert!(!service.repo.days[0].is_protected());
    assert_eq!(service.repo.days[0].unlocks.len(), 2);

    assert_eq!(
        service.edit_password(&calendar, &held, &owner, Some("x".to_string())),
        Ok(())
    );
    assert!(service.repo.days[0].is_protected());
    assert_eq!(service.repo.days[0].unlocks.len(), 1);
    let as_reader = service.get_user_day(&calendar, id, &reader).unwrap();
    assert!(as_reader.unlocked_at.is_none());
    service
        .unlock_day(&as_reader, &reader, Some("x".to_string()), 100)
        .unwrap();
    let as_reader = service.get_user_day(&calendar, id, &reader).unwrap();
    assert_eq!(
        service.get_rich_content(&as_reader, &reader),
        Ok("the text".to_string())
    );

    let held = service.get_user_day(&calendar, id, &owner).unwrap();
    assert_eq!(
        service.edit_password(&calendar, &held, &owner, Some("y".to_string())),
        Ok(())
    );
    assert_eq!(
        service.get_rich_content(&as_reader, &reader),
        Err(KeyError::StaleKey)
    );
    let as_reader = service.get_user_day(&calendar, id, &reader).unwrap();
    assert!(as_reader.unlocked_at.is_none());
    assert_eq!(
        service.unlock_day(&as_reader, &reader, Some("x".to_string()), 100),
        Err(KeyError::InvalidCredentials)
    );
    service
        .unlock_day(&as_reader, &reader, Some("y".to_string()), 100)
        .unwrap();
    let as_reader = service.get_user_day(&calendar, id, &reader).unwrap();
    assert_eq!(
        service.get_rich_content(&as_reader, &reader),
        Ok("the text".to_string())
    );

    let held = service.get_user_day(&calendar, id, &owner).unwrap();
    assert_eq!(service.edit_password(&calendar, &held, &owner, None), Ok(()));
    assert!(!service.repo.days[0].is_protected());
    let newcomer = user(3, 33);
    let as_newcomer = service.get_user_day(&calendar, id, &newcomer).unwrap();
    assert_eq!(
        service.repo.get_content(&as_newcomer),
        Ok("the text".to_string())
    );
    service.unlock_day(&as_newcomer, &newcomer, None, 100).unwrap();
    let as_newcomer = service.get_user_day(&calendar, id, &newcomer).unwrap();
    assert_eq!(
        service.get_rich_content(&as_newcomer, &newcomer),
        Ok("the text".to_string())
    );
}

#[test]
fn only_the_owner_edits_and_deletes() {
    let (mut service, owner, reader, calendar) = service();
    let id = service
        .add_day(&owner, &calendar, 100, None, "first".to_string(), 10)
        .unwrap();
    let held = service.get_user_day(&calendar, id, &owner).unwrap();
    assert_eq!(
        service.edit_content(&calendar, &held, &reader, "hacked".to_string()),
        Err(KeyError::Unauthorized)
    );
    assert_eq!(
        service.edit_content(&calendar, &held, &owner, "second".to_string()),
        Ok(())
    );
    assert_eq!(service.get_rich_content(&held, &owner), Ok("second".to_string()));
    assert_eq!(
        service.delete_day(&calendar, &held, &reader),
        Err(KeyError::Unauthorized)
    );
    assert_eq!(service.delete_day(&calendar, &held, &owner), Ok(()));
    assert!(service.repo.days.is_empty());
    assert_eq!(
        service.delete_day(&calendar, &held, &owner),
        Err(KeyError::NotFound)
    );
    assert_eq!(
        service.edit_content(&calendar, &held, &owner, "third".to_string()),
        Err(KeyError::NotFound)
    );
    assert_eq!(
        service.edit_password(&calendar, &held, &owner, None),
        Err(KeyError::NotFound)
    );
    assert_eq!(
        service.get_rich_content(&held, &owner),
        Err(KeyError::NotFound)
    );
    assert_eq!(
        service.get_user_day(&calendar, id, &owner).err(),
        Some(KeyError::NotFound)
    );
}

#[test]
fn a_day_of_another_calendar_is_not_found() {
    let (mut service, owner, _, calendar) = service();
    let other = service.create_calendar(&owner, "Other", 5).unwrap();
    let id = service
        .add_day(&owner, &calendar, 100, None, "text".to_string(), 10)
        .unwrap();
    let other = service.get_user_calendar(other.id, &owner).unwrap();
    assert_eq!(
        service.get_user_day(&other, id, &owner).err(),
        Some(KeyError::NotFound)
    );
    assert!(service.get_user_day(&calendar, id, &owner).is_ok());
}

#[test]
fn content_that_is_no_text_is_corrupted() {
    let (mut service, owner, _, calendar) = service();
    let id = service
        .add_day(&owner, &calendar, 100, None, "text".to_string(), 10)
        .unwrap();
    let held = service.get_user_day(&calendar, id, &owner).unwrap();
    service.repo.days[0]
        .edit_content(&held, &[0xff, 0xfe])
        .unwrap();
    assert_eq!(
        service.get_rich_content(&held, &owner),
        Err(KeyError::Corrupted)
    );
}

#[test]
fn days_are_listed_in_the_order_they_unlock() {
    let (mut service, owner, reader, calendar) = service();
    let other = service.create_calendar(&owner, "Other", 5).unwrap();
    let other = service.get_user_calendar(other.id, &owner).unwrap();
    for (unlocks_at, cal) in [(30, &calendar), (10, &calendar), (20, &other), (10, &calendar), (5, &calendar)] {
        service
            .add_day(&owner, cal, unlocks_at, None, "t".to_string(), 1)
            .unwrap();
    }
    let days = service.get_calendar_user_days(&calendar, &reader);
    let listed: Vec<(i32, i64)> = days.iter().map(|d| (d.day.id, d.day.unlocks_at)).collect();
    assert_eq!(listed, vec![(5, 5), (2, 10), (4, 10), (1, 30)]);
    assert!(days.iter().all(|d| d.unlocked_at.is_none()));
    assert!(days.iter().all(|d| d.day_key_handler.get_key().is_err()));

    let days = service.get_calendar_user_days(&calendar, &owner);
    assert!(days.iter().all(|d| d.unlocked_at == Some(1)));

    let all = service.repo.get_user_days_without_key(&[1, 2], &owner);
    let listed: Vec<i32> = all.iter().map(|d| d.day.id).collect();
    assert_eq!(listed, vec![5, 2, 4, 3, 1]);
    assert!(service.repo.get_user_days_without_key(&[], &owner).is_empty());
    assert!(CalendarRepository::contains_id(&[3, 4], 4));
    assert!(!CalendarRepository::contains_id(&[3, 4], 5));
}

#[test]
fn the_dashboard_groups_days_by_calendar() {
    let (mut service, owner, reader, calendar) = service();
    let other = service.create_calendar(&owner, "Other", 5).unwrap();
    let other = service.get_user_calendar(other.id, &owner).unwrap();
    service.create_calendar(&owner, "Empty", 5).unwrap();
    for (unlocks_at, cal) in [(30, &calendar), (20, &other), (10, &calendar)] {
        service
            .add_day(&owner, cal, unlocks_at, None, "t".to_string(), 1)
            .unwrap();
    }
    let data = service.get_dashboard_data(&owner);
    let shape: Vec<(String, Vec<i32>)> = data
        .iter()
        .map(|c| {
            (
                c.calendar.calendar.title.clone(),
                c.days.iter().map(|d| d.day.id).collect(),
            )
        })
        .collect();
    assert_eq!(
        shape,
        vec![
            ("Advent".to_string(), vec![3, 1]),
            ("Other".to_string(), vec![2]),
            ("Empty".to_string(), vec![]),
        ]
    );
    assert_eq!(data[0].calendar.subscribed_at, Some(5));

    let data = service.get_dashboard_data(&reader);
    assert_eq!(data.len(), 1);
    assert_eq!(data[0].calendar.subscribed_at, Some(6));
    assert_eq!(data[0].days.len(), 2);
    assert!(service.get_dashboard_data(&user(9, 99)).is_empty());
}

#[test]
fn a_calendar_followed_twice_shows_its_days_once() {
    let (mut service, owner, _, calendar) = service();
    service
        .add_day(&owner, &calendar, 30, None, "t".to_string(), 1)
        .unwrap();
    service.repo.subscriptions.push(Subscription {
        user_id: 1,
        calendar_id: 1,
        subscribed_at: 9,
    });
    service.repo.subscriptions.push(Subscription {
        user_id: 1,
        calendar_id: 77,
        subscribed_at: 9,
    });
    let followed = service.repo.get_subscriptions(&owner);
    assert_eq!(followed.len(), 2);
    let data = service.get_dashboard_data(&owner);
    assert_eq!(data.len(), 2);
    assert_eq!(data[0].days.len(), 1);
    assert_eq!(data[1].days.len(), 0);
    assert_eq!(data[1].calendar.subscribed_at, Some(9));
}

#[test]
fn group_puts_each_day_with_its_calendar() {
    let cal = |id: i32| UserCalendar {
        calendar: Calendar {
            id,
            owner_id: 1,
            title: format!("c{}", id),
            created_at: 0,
        },
        subscribed_at: None,
    };
    let day = |id: i32, calendar_id: i32| {
        UserDay::new(
            CalendarDay {
                id,
                calendar_id,
                unlocks_at: 0,
                protected: false,
            },
            None,
            KeyHandler::empty(),
        )
    };
    let calendars = vec![cal(2), cal(1), cal(2)];
    let days = vec![day(1, 1), day(2, 2), day(3, 3), day(4, 2)];
    let rich = CalendarRepository::group(&calendars, &days);
    let shape: Vec<(i32, Vec<i32>)> = rich
        .iter()
        .map(|c| (c.calendar.calendar.id, c.days.iter().map(|d| d.day.id).collect()))
        .collect();
    assert_eq!(shape, vec![(2, vec![2, 4]), (1, vec![1]), (2, vec![])]);
    let chosen = CalendarRepository::days_of_calendar(&days, 3);
    assert_eq!(chosen.len(), 1);
    assert_eq!(chosen[0].day.id, 3);
}
