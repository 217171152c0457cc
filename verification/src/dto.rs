//! Wire shapes: the request and response bodies the endpoints exchange,
//! distinct from the storage rows in `models`.

use vstd::prelude::*;

use crate::codec::{EventType, StrategicFocusArea, UserType};

verus! {

/// A signup request.
#[derive(Clone, Debug, PartialEq, Eq)]
pub struct SignUpRequest {
    pub username: String,
    pub email: String,
    pub wallet_address: String,
    pub user_type: UserType,
    pub organization: Option<String>,
    pub bio: Option<String>,
}

/// The public shape of a user, as responses carry it.
#[derive(Clone, Debug, PartialEq, Eq)]
pub struct UserPublic {
    pub id: String,
    pub username: String,
    pub email: String,
    pub wallet_address: String,
    pub user_type: UserType,
    pub organization: Option<String>,
    pub bio: Option<String>,
    pub created_at: String,
}

/// The body of a signup response.
#[derive(Clone, Debug, PartialEq, Eq)]
pub struct SignUpResponse {
    pub user: UserPublic,
    pub message: String,
}

/// The six optional numeric targets attached to an event.
#[derive(Clone, Copy, Debug, PartialEq, Eq)]
pub struct KPIEstimates {
    pub monthly_active_ambassadors: Option<u32>,
    pub monthly_active_accounts: Option<u32>,
    pub scf_referrals: Option<u32>,
    pub content_produced: Option<u32>,
    pub expected_attendance: Option<u32>,
    pub social_growth_target: Option<u32>,
}

/// An event-creation request, with its KPI-planning block.
#[derive(Clone, Debug, PartialEq)]
pub struct EventRequest {
    pub title: String,
    pub description: String,
    pub event_type: EventType,
    /// A date-time string; the creation flow rejects one that does not parse.
    pub date: String,
    pub location: String,
    pub max_participants: Option<u32>,
    pub registration_required: bool,
    pub contact_email: String,
    pub external_link: Option<String>,
    pub strategic_focus_areas: Vec<StrategicFocusArea>,
    pub kpi_estimates: KPIEstimates,
    pub target_audience: String,
    pub quarterly_goals: String,
    pub strategic_purpose: String,
    pub success_metrics: Option<String>,
}

/// The public shape of an event, annotated with its organizer's username.
#[derive(Clone, Debug, PartialEq)]
pub struct EventResponse {
    pub id: String,
    pub title: String,
    pub description: String,
    pub event_type: EventType,
    pub date: String,
    pub location: String,
    pub max_participants: Option<u32>,
    pub registration_required: bool,
    pub contact_email: String,
    pub external_link: Option<String>,
    pub organizer: String,
    pub created_at: String,
    pub strategic_focus_areas: Vec<StrategicFocusArea>,
    pub kpi_estimates: KPIEstimates,
    pub target_audience: String,
    pub quarterly_goals: String,
    pub strategic_purpose: String,
    pub success_metrics: Option<String>,
}

/// The body of a listing response: the page of events and how many items it
/// holds.
#[derive(Clone, Debug, PartialEq)]
pub struct EventListResponse {
    pub events: Vec<EventResponse>,
    pub total: usize,
}

} // verus!
