use community_portal::codec::{
    decode_focus_areas, encode_focus_areas, EventType, StrategicFocusArea, UserType,
};
use community_portal::dates::{format_utc_date, parse_utc_date};
use community_portal::numeral::u64_to_string;

#[test]
fn user_type_storage_strings() {
    assert_eq!(UserType::Ambassador.storage_string(), "Ambassador");
    assert_eq!(UserType::ChapterLead.storage_string(), "ChapterLead");
}

#[test]
fn user_type_round_trips() {
    for t in [UserType::Ambassador, UserType::ChapterLead] {
        assert_eq!(UserType::from_storage(&t.storage_string()), t);
    }
}

#[test]
fn unknown_role_defaults_to_ambassador() {
    assert_eq!(UserType::from_storage("Admin"), UserType::Ambassador);
    assert_eq!(UserType::from_storage(""), UserType::Ambassador);
    assert_eq!(UserType::from_storage("ambassador"), UserType::Ambassador);
}

#[test]
fn event_type_storage_strings() {
    assert_eq!(EventType::Workshop.storage_string(), "Workshop");
    assert_eq!(EventType::Meetup.storage_string(), "Meetup");
    assert_eq!(EventType::Conference.storage_string(), "Conference");
    assert_eq!(EventType::Hackathon.storage_string(), "Hackathon");
    assert_eq!(EventType::Community.storage_string(), "Community Event");
}

#[test]
fn event_type_round_trips() {
    for t in [
        EventType::Workshop,
        EventType::Meetup,
        EventType::Conference,
        EventType::Hackathon,
        EventType::Community,
    ] {
        assert_eq!(EventType::from_storage(&t.storage_string()), t);
    }
}

#[test]
fn unknown_event_type_defaults_to_community() {
    assert_eq!(EventType::from_storage("Festival"), EventType::Community);
    assert_eq!(EventType::from_storage(""), EventType::Community);
    // The encoder writes "Community Event", which the decoder does not
    // recognize; the fallback still lands on Community.
    assert_eq!(EventType::from_storage("Community Event"), EventType::Community);
}

#[test]
fn focus_area_storage_strings() {
    assert_eq!(
        StrategicFocusArea::CommunityParticipation.storage_string(),
        "Community Participation"
    );
    assert_eq!(StrategicFocusArea::OnChainActivity.storage_string(), "On-Chain Activity");
    assert_eq!(StrategicFocusArea::SCFReferrals.storage_string(), "SCF Referrals");
    assert_eq!(
        StrategicFocusArea::EcosystemCollaboration.storage_string(),
        "Ecosystem Collaboration"
    );
    assert_eq!(StrategicFocusArea::DeveloperGrowth.storage_string(), "Developer Growth");
}

#[test]
fn focus_area_round_trips() {
    for a in [
        StrategicFocusArea::CommunityParticipation,
        StrategicFocusArea::OnChainActivity,
        StrategicFocusArea::SCFReferrals,
        StrategicFocusArea::EcosystemCollaboration,
        StrategicFocusArea::DeveloperGrowth,
    ] {
        assert_eq!(StrategicFocusArea::from_storage(&a.storage_string()), Some(a));
    }
}

#[test]
fn unknown_focus_area_is_rejected() {
    assert_eq!(StrategicFocusArea::from_storage("Sports"), None);
    assert_eq!(StrategicFocusArea::from_storage(""), None);
    assert_eq!(StrategicFocusArea::from_storage("community participation"), None);
}

#[test]
fn decoding_drops_unknown_entries_and_keeps_known_in_order() {
    let stored = vec![
        "Community Participation".to_string(),
        "Sports".to_string(),
        "Developer Growth".to_string(),
        "???".to_string(),
    ];
    let decoded = decode_focus_areas(&stored);
    assert_eq!(
        decoded,
        vec![StrategicFocusArea::CommunityParticipation, StrategicFocusArea::DeveloperGrowth]
    );
    assert!(decoded.len() < stored.len());
}

#[test]
fn decoding_keeps_fully_recognized_lists_intact() {
    let stored = vec!["SCF Referrals".to_string(), "On-Chain Activity".to_string()];
    let decoded = decode_focus_areas(&stored);
    assert_eq!(
        decoded,
        vec![StrategicFocusArea::SCFReferrals, StrategicFocusArea::OnChainActivity]
    );
}

#[test]
fn encoding_focus_areas_writes_storage_strings() {
    let encoded = encode_focus_areas(&vec![
        StrategicFocusArea::EcosystemCollaboration,
        StrategicFocusArea::SCFReferrals,
    ]);
    assert_eq!(encoded, vec!["Ecosystem Collaboration".to_string(), "SCF Referrals".to_string()]);
}

#[test]
fn decimal_rendering() {
    assert_eq!(u64_to_string(0), "0");
    assert_eq!(u64_to_string(7), "7");
    assert_eq!(u64_to_string(10), "10");
    assert_eq!(u64_to_string(42), "42");
    assert_eq!(u64_to_string(1234567890), "1234567890");
    assert_eq!(u64_to_string(u64::MAX), "18446744073709551615");
}

#[test]
fn date_parsing_accepts_utc_date_times() {
    assert!(parse_utc_date("2024-05-01T10:00:00Z").is_some());
    assert!(parse_utc_date("2024-05-01T10:00:00+00:00").is_some());
}

#[test]
fn date_parsing_rejects_malformed_input() {
    assert_eq!(parse_utc_date("not-a-date"), None);
    assert_eq!(parse_utc_date(""), None);
    assert_eq!(parse_utc_date("2024-13-45"), None);
}

#[test]
fn date_formatting_renders_the_parsed_instant() {
    let ts = parse_utc_date("2024-05-01T10:00:00Z").unwrap();
    assert_eq!(format_utc_date(ts), "2024-05-01 10:00:00 UTC");
    let ts2 = parse_utc_date("2024-05-01T10:00:00+02:00").unwrap();
    assert_eq!(format_utc_date(ts2), "2024-05-01 08:00:00 UTC");
}
