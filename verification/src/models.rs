//! Storage rows: the records the store holds for users and events.
//!
//! Enumerated fields are held denormalized, as their storage strings; dates
//! and creation times are held as UTC millisecond timestamps. Each record
//! type has a ghost view over character sequences and plain values, which
//! the repository and handler contracts speak of.

use vstd::prelude::*;

verus! {

/// The abstract value of an `Option<String>`: its character sequence, if any.
pub open spec fn opt_str_view(o: Option<String>) -> Option<Seq<char>> {
    match o {
        Some(s) => Some(s@),
        None => None,
    }
}

/// The abstract value of an optional list of strings.
pub open spec fn opt_vec_str_view(o: Option<Vec<String>>) -> Option<Seq<Seq<char>>> {
    match o {
        Some(v) => Some(v@.map_values(|s: String| s@)),
        None => None,
    }
}

/// A stored user row.
#[derive(Debug, Clone, PartialEq)]
pub struct User {
    pub id: u64,
    pub username: String,
    pub email: String,
    pub wallet_address: String,
    /// Storage string of the role, normally `"Ambassador"` or `"ChapterLead"`.
    pub user_type: String,
    pub organization: Option<String>,
    pub bio: Option<String>,
    /// Creation time in UTC milliseconds; `None` where storage holds none.
    pub created_at: Option<i64>,
}

/// The abstract value of a stored user row.
pub ghost struct UserView {
    pub id: u64,
    pub username: Seq<char>,
    pub email: Seq<char>,
    pub wallet_address: Seq<char>,
    pub user_type: Seq<char>,
    pub organization: Option<Seq<char>>,
    pub bio: Option<Seq<char>>,
    pub created_at: Option<i64>,
}

impl View for User {
    type V = UserView;

    open spec fn view(&self) -> UserView {
        UserView {
            id: self.id,
            username: self.username@,
            email: self.email@,
            wallet_address: self.wallet_address@,
            user_type: self.user_type@,
            organization: opt_str_view(self.organization),
            bio: opt_str_view(self.bio),
            created_at: self.created_at,
        }
    }
}

impl User {
    /// A fresh user row, before storage has assigned it an identifier: the
    /// identifier is zero and the creation time is the given clock reading.
    pub fn new_with_type(
        username: String,
        email: String,
        wallet_address: String,
        user_type: String,
        organization: Option<String>,
        bio: Option<String>,
    ) -> (r: User)
        ensures
            r.id == 0,
            r@.username == username@,
            r@.email == email@,
            r@.wallet_address == wallet_address@,
            r@.user_type == user_type@,
            r@.organization == opt_str_view(organization),
            r@.bio == opt_str_view(bio),
            r.created_at is Some,
    {
        let now: i64 = crate::dates::now_millis();
        User {
            id: 0,
            username,
            email,
            wallet_address,
            user_type,
            organization,
            bio,
            created_at: Some(now),
        }
    }
}

/// A stored event row, with its KPI-planning block.
#[derive(Debug, Clone, PartialEq)]
pub struct Event {
    pub id: u64,
    pub title: String,
    pub description: String,
    /// Storage string of the event type.
    pub event_type: String,
    /// The event's date-time in UTC milliseconds.
    pub date: i64,
    pub location: String,
    pub max_participants: Option<u32>,
    pub registration_required: bool,
    pub contact_email: String,
    pub external_link: Option<String>,
    pub organizer_id: u64,
    /// Creation time in UTC milliseconds; `None` where storage holds none.
    pub created_at: Option<i64>,
    /// Storage strings of the strategic focus areas.
    pub strategic_focus_areas: Option<Vec<String>>,
    pub monthly_active_ambassadors: Option<u32>,
    pub monthly_active_accounts: Option<u32>,
    pub scf_referrals: Option<u32>,
    pub content_produced: Option<u32>,
    pub expected_attendance: Option<u32>,
    pub social_growth_target: Option<u32>,
    pub target_audience: String,
    pub quarterly_goals: String,
    pub strategic_purpose: String,
    pub success_metrics: Option<String>,
}

impl Event {
    /// A fresh event row, before storage has assigned it an identifier: the
    /// identifier is zero and the creation time is the given clock reading.
    pub fn new(
        title: String,
        description: String,
        event_type: String,
        date: i64,
        location: String,
        max_participants: Option<u32>,
        registration_required: bool,
        contact_email: String,
        external_link: Option<String>,
        organizer_id: u64,
        strategic_focus_areas: Option<Vec<String>>,
        monthly_active_ambassadors: Option<u32>,
        monthly_active_accounts: Option<u32>,
        scf_referrals: Option<u32>,
        content_produced: Option<u32>,
        expected_attendance: Option<u32>,
        social_growth_target: Option<u32>,
        target_audience: String,
        quarterly_goals: String,
        strategic_purpose: String,
        success_metrics: Option<String>,
    ) -> (r: Event)
        ensures
            r.id == 0,
            r@.title == title@,
            r@.description == description@,
            r@.event_type == event_type@,
            r@.date == date,
            r@.location == location@,
            r@.max_participants == max_participants,
            r@.registration_required == registration_required,
            r@.contact_email == contact_email@,
            r@.external_link == opt_str_view(external_link),
            r@.organizer_id == organizer_id,
            r.created_at is Some,
            r@.strategic_focus_areas == opt_vec_str_view(strategic_focus_areas),
            r@.monthly_active_ambassadors == monthly_active_ambassadors,
            r@.monthly_active_accounts == monthly_active_accounts,
            r@.scf_referrals == scf_referrals,
            r@.content_produced == content_produced,
            r@.expected_attendance == expected_attendance,
            r@.social_growth_target == social_growth_target,
            r@.target_audience == target_audience@,
            r@.quarterly_goals == quarterly_goals@,
            r@.strategic_purpose == strategic_purpose@,
            r@.success_metrics == opt_str_view(success_metrics),
    {
        let now: i64 = crate::dates::now_millis();
        Event {
            id: 0,
            title,
            description,
            event_type,
            date,
            location,
            max_participants,
            registration_required,
            contact_email,
            external_link,
            organizer_id,
            created_at: Some(now),
            strategic_focus_areas,
            monthly_active_ambassadors,
            monthly_active_accounts,
            scf_referrals,
            content_produced,
            expected_attendance,
            social_growth_target,
            target_audience,
            quarterly_goals,
            strategic_purpose,
            success_metrics,
        }
    }
}

/// The abstract value of a stored event row.
pub ghost struct EventView {
    pub id: u64,
    pub title: Seq<char>,
    pub description: Seq<char>,
    pub event_type: Seq<char>,
    pub date: i64,
    pub location: Seq<char>,
    pub max_participants: Option<u32>,
    pub registration_required: bool,
    pub contact_email: Seq<char>,
    pub external_link: Option<Seq<char>>,
    pub organizer_id: u64,
    pub created_at: Option<i64>,
    pub strategic_focus_areas: Option<Seq<Seq<char>>>,
    pub monthly_active_ambassadors: Option<u32>,
    pub monthly_active_accounts: Option<u32>,
    pub scf_referrals: Option<u32>,
    pub content_produced: Option<u32>,
    pub expected_attendance: Option<u32>,
    pub social_growth_target: Option<u32>,
    pub target_audience: Seq<char>,
    pub quarterly_goals: Seq<char>,
    pub strategic_purpose: Seq<char>,
    pub success_metrics: Option<Seq<char>>,
}

impl View for Event {
    type V = EventView;

    open spec fn view(&self) -> EventView {
        EventView {
            id: self.id,
            title: self.title@,
            description: self.description@,
            event_type: self.event_type@,
            date: self.date,
            location: self.location@,
            max_participants: self.max_participants,
            registration_required: self.registration_required,
            contact_email: self.contact_email@,
            external_link: opt_str_view(self.external_link),
            organizer_id: self.organizer_id,
            created_at: self.created_at,
            strategic_focus_areas: opt_vec_str_view(self.strategic_focus_areas),
            monthly_active_ambassadors: self.monthly_active_ambassadors,
            monthly_active_accounts: self.monthly_active_accounts,
            scf_referrals: self.scf_referrals,
            content_produced: self.content_produced,
            expected_attendance: self.expected_attendance,
            social_growth_target: self.social_growth_target,
            target_audience: self.target_audience@,
            quarterly_goals: self.quarterly_goals@,
            strategic_purpose: self.strategic_purpose@,
            success_metrics: opt_str_view(self.success_metrics),
        }
    }
}

/// Copy an optional string.
pub fn clone_opt_string(o: &Option<String>) -> (r: Option<String>)
    ensures
        r == *o,
{
    match o {
        Some(s) => Some(s.clone()),
        None => None,
    }
}

/// Copy a list of strings.
pub fn clone_string_vec(v: &Vec<String>) -> (r: Vec<String>)
    ensures
        r@.map_values(|s: String| s@) == v@.map_values(|s: String| s@),
        r@.len() == v@.len(),
{
    let mut r: Vec<String> = Vec::new();
    let mut i: usize = 0;
    while i < v.len()
        invariant
            i <= v.len(),
            r@.len() == i,
            forall|j: int| 0 <= j < i ==> r@[j]@ == v@[j]@,
        decreases v.len() - i,
    {
        r.push(v[i].clone());
        i = i + 1;
    }
    proof {
        assert(r@.map_values(|s: String| s@) =~= v@.map_values(|s: String| s@));
    }
    r
}

/// Copy an optional list of strings.
pub fn clone_opt_string_vec(o: &Option<Vec<String>>) -> (r: Option<Vec<String>>)
    ensures
        opt_vec_str_view(r) == opt_vec_str_view(*o),
{
    match o {
        Some(v) => Some(clone_string_vec(v)),
        None => None,
    }
}

/// Copy a user row.
pub fn clone_user(u: &User) -> (r: User)
    ensures
        r@ == u@,
{
    User {
        id: u.id,
        username: u.username.clone(),
        email: u.email.clone(),
        wallet_address: u.wallet_address.clone(),
        user_type: u.user_type.clone(),
        organization: clone_opt_string(&u.organization),
        bio: clone_opt_string(&u.bio),
        created_at: u.created_at,
    }
}

/// Copy an event row.
pub fn clone_event(e: &Event) -> (r: Event)
    ensures
        r@ == e@,
{
    Event {
        id: e.id,
        title: e.title.clone(),
        description: e.description.clone(),
        event_type: e.event_type.clone(),
        date: e.date,
        location: e.location.clone(),
        max_participants: e.max_participants,
        registration_required: e.registration_required,
        contact_email: e.contact_email.clone(),
        external_link: clone_opt_string(&e.external_link),
        organizer_id: e.organizer_id,
        created_at: e.created_at,
        strategic_focus_areas: clone_opt_string_vec(&e.strategic_focus_areas),
        monthly_active_ambassadors: e.monthly_active_ambassadors,
        monthly_active_accounts: e.monthly_active_accounts,
        scf_referrals: e.scf_referrals,
        content_produced: e.content_produced,
        expected_attendance: e.expected_attendance,
        social_growth_target: e.social_growth_target,
        target_audience: e.target_audience.clone(),
        quarterly_goals: e.quarterly_goals.clone(),
        strategic_purpose: e.strategic_purpose.clone(),
        success_metrics: clone_opt_string(&e.success_metrics),
    }
}

} // verus!
