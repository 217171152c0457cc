use community_portal::models::{Event, User};
use community_portal::store::{
    EventRepository, EventStore, ListError, UserRepository, UserStore,
};

fn add_event(store: &mut EventStore, title: &str, date: i64) {
    EventRepository::create_event(
        store,
        title,
        "a description",
        "Workshop",
        date,
        "Berlin",
        Some(30),
        true,
        "contact@example.com",
        None,
        1,
        None,
        None,
        None,
        None,
        None,
        None,
        None,
        "developers",
        "grow the chapter",
        "outreach",
        None,
        500,
    );
}

#[test]
fn created_user_is_found_by_each_unique_field() {
    let mut store = UserStore::new();
    let created = UserRepository::create_user(
        &mut store,
        "alice",
        "a@x.com",
        "GABC",
        "Ambassador",
        Some("Org"),
        None,
        1000,
    );
    assert_eq!(created.id, 1);
    assert_eq!(store.next_id, 2);
    assert_eq!(created.created_at, Some(1000));

    let by_email = UserRepository::find_by_email(&store, "a@x.com").unwrap();
    assert_eq!(by_email.username, "alice");
    assert_eq!(by_email.organization.as_deref(), Some("Org"));
    let by_wallet = UserRepository::find_by_wallet_address(&store, "GABC").unwrap();
    assert_eq!(by_wallet.id, 1);
    let by_id = UserRepository::find_by_id(&store, 1).unwrap();
    assert_eq!(by_id.email, "a@x.com");
}

#[test]
fn lookups_on_missing_rows_return_none() {
    let store = UserStore::new();
    assert!(UserRepository::find_by_email(&store, "a@x.com").is_none());
    assert!(UserRepository::find_by_wallet_address(&store, "GABC").is_none());
    assert!(UserRepository::find_by_id(&store, 1).is_none());
    let events = EventStore::new();
    assert!(EventRepository::find_by_id(&events, 1).is_none());
}

#[test]
fn events_are_kept_in_ascending_date_order() {
    let mut store = EventStore::new();
    add_event(&mut store, "third", 300);
    add_event(&mut store, "first", 100);
    add_event(&mut store, "second", 200);
    let listed = EventRepository::list_events(&store, None, None).unwrap();
    let titles: Vec<&str> = listed.iter().map(|e| e.title.as_str()).collect();
    assert_eq!(titles, vec!["first", "second", "third"]);
    let dates: Vec<i64> = listed.iter().map(|e| e.date).collect();
    assert_eq!(dates, vec![100, 200, 300]);
}

#[test]
fn events_with_equal_dates_keep_insertion_order() {
    let mut store = EventStore::new();
    add_event(&mut store, "earlier insert", 100);
    add_event(&mut store, "later insert", 100);
    let listed = EventRepository::list_events(&store, None, None).unwrap();
    assert_eq!(listed[0].title, "earlier insert");
    assert_eq!(listed[1].title, "later insert");
}

#[test]
fn listing_defaults_to_fifty_items() {
    let mut store = EventStore::new();
    for i in 0..55 {
        add_event(&mut store, "e", i);
    }
    let listed = EventRepository::list_events(&store, None, None).unwrap();
    assert_eq!(listed.len(), 50);
    assert_eq!(listed[0].date, 0);
    assert_eq!(listed[49].date, 49);
}

#[test]
fn listing_honors_limit_and_offset() {
    let mut store = EventStore::new();
    for i in 0..5 {
        add_event(&mut store, "e", i * 10);
    }
    let page = EventRepository::list_events(&store, Some(2), Some(1)).unwrap();
    assert_eq!(page.len(), 2);
    assert_eq!(page[0].date, 10);
    assert_eq!(page[1].date, 20);

    let beyond = EventRepository::list_events(&store, Some(10), Some(7)).unwrap();
    assert_eq!(beyond.len(), 0);

    let tail = EventRepository::list_events(&store, Some(10), Some(3)).unwrap();
    assert_eq!(tail.len(), 2);
}

#[test]
fn listing_rejects_negative_parameters() {
    let store = EventStore::new();
    assert_eq!(
        EventRepository::list_events(&store, Some(-1), None),
        Err(ListError::NegativeLimit)
    );
    assert_eq!(
        EventRepository::list_events(&store, None, Some(-3)),
        Err(ListError::NegativeOffset)
    );
    assert_eq!(
        EventRepository::list_events(&store, Some(-1), Some(-3)),
        Err(ListError::NegativeLimit)
    );
}

#[test]
fn fresh_rows_carry_no_identifier_yet() {
    let u = User::new_with_type(
        "bob".to_string(),
        "b@x.com".to_string(),
        "GDEF".to_string(),
        "ChapterLead".to_string(),
        None,
        Some("bio".to_string()),
    );
    assert_eq!(u.id, 0);
    assert_eq!(u.user_type, "ChapterLead");
    assert!(u.created_at.is_some());

    let e = Event::new(
        "t".to_string(),
        "d".to_string(),
        "Meetup".to_string(),
        123,
        "l".to_string(),
        None,
        false,
        "c@x.com".to_string(),
        None,
        1,
        Some(vec!["SCF Referrals".to_string()]),
        None,
        None,
        None,
        None,
        None,
        None,
        "a".to_string(),
        "q".to_string(),
        "s".to_string(),
        None,
    );
    assert_eq!(e.id, 0);
    assert_eq!(e.date, 123);
    assert!(e.created_at.is_some());
    assert_eq!(e.strategic_focus_areas, Some(vec!["SCF Referrals".to_string()]));
}

#[test]
fn created_event_row_echoes_its_fields() {
    let mut store = EventStore::new();
    let rec = EventRepository::create_event(
        &mut store,
        "Launch",
        "desc",
        "Hackathon",
        777,
        "Lisbon",
        Some(12),
        false,
        "c@x.com",
        Some("https://example.com"),
        9,
        Some(&vec!["Developer Growth".to_string()]),
        Some(1),
        Some(2),
        Some(3),
        Some(4),
        Some(5),
        Some(6),
        "audience",
        "goals",
        "purpose",
        Some("metrics"),
        4242,
    );
    assert_eq!(rec.id, 1);
    assert_eq!(rec.title, "Launch");
    assert_eq!(rec.event_type, "Hackathon");
    assert_eq!(rec.date, 777);
    assert_eq!(rec.max_participants, Some(12));
    assert_eq!(rec.external_link.as_deref(), Some("https://example.com"));
    assert_eq!(rec.organizer_id, 9);
    assert_eq!(rec.created_at, Some(4242));
    assert_eq!(rec.strategic_focus_areas, Some(vec!["Developer Growth".to_string()]));
    assert_eq!(rec.monthly_active_ambassadors, Some(1));
    assert_eq!(rec.social_growth_target, Some(6));
    assert_eq!(rec.success_metrics.as_deref(), Some("metrics"));
    assert_eq!(store.next_id, 2);
}
