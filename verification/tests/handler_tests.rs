use community_portal::codec::{EventType, StrategicFocusArea, UserType};
use community_portal::dto::{EventRequest, KPIEstimates, SignUpRequest};
use community_portal::handlers::auth::{create_error_user_public, signup};
use community_portal::handlers::events::{create_event, list_events, ListEventsQuery};
use community_portal::store::{EventStore, UserStore};
use community_portal::{
    STATUS_BAD_REQUEST, STATUS_CONFLICT, STATUS_CREATED, STATUS_INTERNAL_SERVER_ERROR, STATUS_OK,
};

fn signup_request(username: &str, email: &str, wallet: &str, role: UserType) -> SignUpRequest {
    SignUpRequest {
        username: username.to_string(),
        email: email.to_string(),
        wallet_address: wallet.to_string(),
        user_type: role,
        organization: None,
        bio: None,
    }
}

fn event_request(date: &str, areas: Vec<StrategicFocusArea>) -> EventRequest {
    EventRequest {
        title: "Launch meetup".to_string(),
        description: "First chapter meetup".to_string(),
        event_type: EventType::Meetup,
        date: date.to_string(),
        location: "Berlin".to_string(),
        max_participants: Some(40),
        registration_required: true,
        contact_email: "events@example.com".to_string(),
        external_link: Some("https://example.com".to_string()),
        strategic_focus_areas: areas,
        kpi_estimates: KPIEstimates {
            monthly_active_ambassadors: Some(5),
            monthly_active_accounts: Some(100),
            scf_referrals: Some(2),
            content_produced: None,
            expected_attendance: Some(40),
            social_growth_target: None,
        },
        target_audience: "developers".to_string(),
        quarterly_goals: "grow the chapter".to_string(),
        strategic_purpose: "outreach".to_string(),
        success_metrics: Some("attendance".to_string()),
    }
}

#[test]
fn signup_on_empty_store_creates_and_repeat_conflicts() {
    let mut users = UserStore::new();
    let req = signup_request("alice", "a@x.com", "GABC", UserType::Ambassador);

    let (status, resp) = signup(&mut users, &req, 1000);
    assert_eq!(status, STATUS_CREATED);
    assert_eq!(resp.user.username, "alice");
    assert_eq!(resp.user.email, "a@x.com");
    assert_eq!(resp.user.wallet_address, "GABC");
    assert_eq!(resp.user.id, "1");
    assert_eq!(resp.user.user_type, UserType::Ambassador);
    assert_eq!(resp.message, "User created successfully!");

    let (status2, resp2) = signup(&mut users, &req, 2000);
    assert_eq!(status2, STATUS_CONFLICT);
    assert_eq!(resp2.message, "User with this email already exists");
    assert_eq!(resp2.user, create_error_user_public());
}

#[test]
fn signup_role_round_trips_for_chapter_leads() {
    let mut users = UserStore::new();
    let req = signup_request("carol", "c@x.com", "GXYZ", UserType::ChapterLead);
    let (status, resp) = signup(&mut users, &req, 1000);
    assert_eq!(status, STATUS_CREATED);
    assert_eq!(resp.user.user_type, UserType::ChapterLead);
}

#[test]
fn signup_with_taken_email_conflicts_whatever_else_differs() {
    let mut users = UserStore::new();
    let first = signup_request("alice", "a@x.com", "GABC", UserType::Ambassador);
    signup(&mut users, &first, 1000);

    let mut second = signup_request("bob", "a@x.com", "GDEF", UserType::ChapterLead);
    second.organization = Some("Another Org".to_string());
    second.bio = Some("different".to_string());
    let (status, resp) = signup(&mut users, &second, 2000);
    assert_eq!(status, STATUS_CONFLICT);
    assert_eq!(resp.message, "User with this email already exists");
}

#[test]
fn signup_with_taken_wallet_and_fresh_email_conflicts() {
    let mut users = UserStore::new();
    let first = signup_request("alice", "a@x.com", "GABC", UserType::Ambassador);
    signup(&mut users, &first, 1000);

    let second = signup_request("bob", "b@x.com", "GABC", UserType::Ambassador);
    let (status, resp) = signup(&mut users, &second, 2000);
    assert_eq!(status, STATUS_CONFLICT);
    assert_eq!(resp.message, "User with this wallet address already exists");
    assert_eq!(resp.user.id, "error");
    assert_eq!(resp.user.username, "Error");
}

#[test]
fn create_event_with_bad_date_is_rejected() {
    let mut events = EventStore::new();
    let req = event_request("not-a-date", vec![]);
    let (status, body) = create_event(&mut events, &req, 1000);
    assert_eq!(status, STATUS_BAD_REQUEST);
    assert_eq!(body, "Invalid date format");

    let users = UserStore::new();
    let (_, listed) = list_events(&users, &events, &ListEventsQuery { limit: None, offset: None });
    assert_eq!(listed.total, 0);
}

#[test]
fn create_event_with_empty_focus_list_is_accepted() {
    let mut events = EventStore::new();
    let req = event_request("2024-05-01T10:00:00Z", vec![]);
    let (status, body) = create_event(&mut events, &req, 1000);
    assert_eq!(status, STATUS_CREATED);
    assert_eq!(body, "Event created successfully!");

    let users = UserStore::new();
    let (status2, listed) =
        list_events(&users, &events, &ListEventsQuery { limit: None, offset: None });
    assert_eq!(status2, STATUS_OK);
    assert_eq!(listed.total, 1);
    assert_eq!(listed.events[0].strategic_focus_areas, vec![]);
}

#[test]
fn listed_events_round_trip_their_fields() {
    let mut users = UserStore::new();
    // The first signup receives identifier 1, the placeholder organizer.
    signup(
        &mut users,
        &signup_request("alice", "a@x.com", "GABC", UserType::Ambassador),
        500,
    );

    let mut events = EventStore::new();
    let req = event_request(
        "2024-05-01T10:00:00Z",
        vec![StrategicFocusArea::DeveloperGrowth, StrategicFocusArea::SCFReferrals],
    );
    create_event(&mut events, &req, 1000);

    let (status, listed) =
        list_events(&users, &events, &ListEventsQuery { limit: None, offset: None });
    assert_eq!(status, STATUS_OK);
    assert_eq!(listed.total, 1);
    let e = &listed.events[0];
    assert_eq!(e.id, "1");
    assert_eq!(e.title, "Launch meetup");
    assert_eq!(e.event_type, EventType::Meetup);
    assert_eq!(e.date, "2024-05-01 10:00:00 UTC");
    assert_eq!(e.location, "Berlin");
    assert_eq!(e.max_participants, Some(40));
    assert!(e.registration_required);
    assert_eq!(e.contact_email, "events@example.com");
    assert_eq!(e.external_link.as_deref(), Some("https://example.com"));
    assert_eq!(e.organizer, "alice");
    assert_eq!(
        e.strategic_focus_areas,
        vec![StrategicFocusArea::DeveloperGrowth, StrategicFocusArea::SCFReferrals]
    );
    assert_eq!(e.kpi_estimates.monthly_active_ambassadors, Some(5));
    assert_eq!(e.kpi_estimates.monthly_active_accounts, Some(100));
    assert_eq!(e.kpi_estimates.scf_referrals, Some(2));
    assert_eq!(e.kpi_estimates.content_produced, None);
    assert_eq!(e.kpi_estimates.expected_attendance, Some(40));
    assert_eq!(e.kpi_estimates.social_growth_target, None);
    assert_eq!(e.target_audience, "developers");
    assert_eq!(e.quarterly_goals, "grow the chapter");
    assert_eq!(e.strategic_purpose, "outreach");
    assert_eq!(e.success_metrics.as_deref(), Some("attendance"));
}

#[test]
fn missing_organizer_is_annotated_unknown() {
    let users = UserStore::new();
    let mut events = EventStore::new();
    create_event(&mut events, &event_request("2024-05-01T10:00:00Z", vec![]), 1000);
    let (_, listed) = list_events(&users, &events, &ListEventsQuery { limit: None, offset: None });
    assert_eq!(listed.events[0].organizer, "Unknown");
}

#[test]
fn listing_defaults_cap_the_page_at_fifty_in_date_order() {
    let users = UserStore::new();
    let mut events = EventStore::new();
    // Created newest-first; listing must come back oldest-first.
    for year in (2000..2055).rev() {
        let req = event_request(&format!("{}-01-01T00:00:00Z", year), vec![]);
        let (status, _) = create_event(&mut events, &req, 1000);
        assert_eq!(status, STATUS_CREATED);
    }
    let (status, listed) =
        list_events(&users, &events, &ListEventsQuery { limit: None, offset: None });
    assert_eq!(status, STATUS_OK);
    assert_eq!(listed.events.len(), 50);
    assert_eq!(listed.total, listed.events.len());
    assert_eq!(listed.events[0].date, "2000-01-01 00:00:00 UTC");
    assert_eq!(listed.events[49].date, "2049-01-01 00:00:00 UTC");
    for w in listed.events.windows(2) {
        assert!(w[0].date <= w[1].date);
    }
}

#[test]
fn listing_with_limit_and_offset_pages_the_table() {
    let users = UserStore::new();
    let mut events = EventStore::new();
    for year in 2000..2005 {
        create_event(
            &mut events,
            &event_request(&format!("{}-01-01T00:00:00Z", year), vec![]),
            1000,
        );
    }
    let (_, page) =
        list_events(&users, &events, &ListEventsQuery { limit: Some(2), offset: Some(1) });
    assert_eq!(page.total, 2);
    assert_eq!(page.events[0].date, "2001-01-01 00:00:00 UTC");
    assert_eq!(page.events[1].date, "2002-01-01 00:00:00 UTC");
}

#[test]
fn listing_with_negative_parameters_reports_a_storage_failure() {
    let users = UserStore::new();
    let mut events = EventStore::new();
    create_event(&mut events, &event_request("2024-05-01T10:00:00Z", vec![]), 1000);
    let (status, listed) =
        list_events(&users, &events, &ListEventsQuery { limit: Some(-1), offset: None });
    assert_eq!(status, STATUS_INTERNAL_SERVER_ERROR);
    assert_eq!(listed.total, 0);
    assert!(listed.events.is_empty());

    let (status2, _) =
        list_events(&users, &events, &ListEventsQuery { limit: None, offset: Some(-5) });
    assert_eq!(status2, STATUS_INTERNAL_SERVER_ERROR);
}

#[test]
fn error_user_shape() {
    let u = create_error_user_public();
    assert_eq!(u.id, "error");
    assert_eq!(u.username, "Error");
    assert_eq!(u.email, "");
    assert_eq!(u.wallet_address, "");
    assert_eq!(u.user_type, UserType::Ambassador);
    assert_eq!(u.organization, None);
    assert_eq!(u.bio, None);
    assert_eq!(u.created_at, "");
}

#[test]
fn signup_renders_creation_time_and_optional_fields() {
    let mut users = UserStore::new();
    let mut req = signup_request("dora", "d@x.com", "GHIJ", UserType::Ambassador);
    req.organization = Some("Org".to_string());
    req.bio = Some("hi".to_string());
    let now = community_portal::dates::parse_utc_date("2024-05-01T10:00:00Z").unwrap();
    let (status, resp) = signup(&mut users, &req, now);
    assert_eq!(status, STATUS_CREATED);
    assert_eq!(resp.user.organization.as_deref(), Some("Org"));
    assert_eq!(resp.user.bio.as_deref(), Some("hi"));
    assert_eq!(resp.user.created_at, "2024-05-01 10:00:00 UTC");
}
