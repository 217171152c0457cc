//! The event flows: creation, which parses the request's date and rejects
//! an unparseable one, and listing, which pages the date-ordered table and
//! annotates each event with its organizer's username.

use vstd::prelude::*;

use crate::codec::{encode_focus_areas, encode_focus_seq, spec_decode_focus_seq, EventType,
    StrategicFocusArea};
use crate::dates::{parse_utc_date, utc_display_millis, utc_parse_millis};
use crate::dto::{EventListResponse, EventRequest, EventResponse, KPIEstimates};
use crate::models::{opt_str_view, Event, EventView, UserView};
use crate::numeral::spec_dec_rep;
use crate::store::{spec_limit, spec_offset, EventRepository, EventStore, UserRepository,
    UserStore};
use crate::{STATUS_BAD_REQUEST, STATUS_CREATED, STATUS_INTERNAL_SERVER_ERROR, STATUS_OK};

verus! {

/// The identifier of the organizer every created event is attributed to;
/// the flow carries no authentication, so it is a fixed placeholder.
pub const PLACEHOLDER_ORGANIZER_ID: u64 = 1;

/// A listing request: an optional page size and an optional offset.
#[derive(Clone, Copy, Debug, PartialEq, Eq)]
pub struct ListEventsQuery {
    pub limit: Option<i64>,
    pub offset: Option<i64>,
}

/// The row the creation flow stores for a request, under the identifier and
/// clock reading storage assigns and the timestamp its date parsed to.
pub open spec fn created_event_view(req: EventRequest, id: u64, date_ms: i64, now_ms: i64) -> EventView {
    EventView {
        id,
        title: req.title@,
        description: req.description@,
        event_type: req.event_type.spec_storage_str(),
        date: date_ms,
        location: req.location@,
        max_participants: req.max_participants,
        registration_required: req.registration_required,
        contact_email: req.contact_email@,
        external_link: opt_str_view(req.external_link),
        organizer_id: PLACEHOLDER_ORGANIZER_ID,
        created_at: Some(now_ms),
        strategic_focus_areas: Some(encode_focus_seq(req.strategic_focus_areas@)),
        monthly_active_ambassadors: req.kpi_estimates.monthly_active_ambassadors,
        monthly_active_accounts: req.kpi_estimates.monthly_active_accounts,
        scf_referrals: req.kpi_estimates.scf_referrals,
        content_produced: req.kpi_estimates.content_produced,
        expected_attendance: req.kpi_estimates.expected_attendance,
        social_growth_target: req.kpi_estimates.social_growth_target,
        target_audience: req.target_audience@,
        quarterly_goals: req.quarterly_goals@,
        strategic_purpose: req.strategic_purpose@,
        success_metrics: opt_str_view(req.success_metrics),
    }
}

/// The public shape faithfully renders a stored event row: the identifier in
/// decimal, the event type decoded under the fallback policy, the stored
/// focus-area strings decoded with unrecognized entries dropped, dates
/// rendered as text, and the given organizer username attached.
pub open spec fn event_response_matches(resp: EventResponse, e: EventView, organizer: Seq<char>) -> bool {
    &&& resp.id@ == spec_dec_rep(e.id as nat)
    &&& resp.title@ == e.title
    &&& resp.description@ == e.description
    &&& resp.event_type == EventType::spec_from_storage(e.event_type)
    &&& resp.date@ == utc_display_millis(e.date)
    &&& resp.location@ == e.location
    &&& resp.max_participants == e.max_participants
    &&& resp.registration_required == e.registration_required
    &&& resp.contact_email@ == e.contact_email
    &&& opt_str_view(resp.external_link) == e.external_link
    &&& resp.organizer@ == organizer
    &&& resp.created_at@ == (match e.created_at {
        Some(ms) => utc_display_millis(ms),
        None => "Unknown"@,
    })
    &&& resp.strategic_focus_areas@ == spec_decode_focus_seq(
        match e.strategic_focus_areas {
            Some(ss) => ss,
            None => Seq::empty(),
        },
    )
    &&& resp.kpi_estimates == (KPIEstimates {
        monthly_active_ambassadors: e.monthly_active_ambassadors,
        monthly_active_accounts: e.monthly_active_accounts,
        scf_referrals: e.scf_referrals,
        content_produced: e.content_produced,
        expected_attendance: e.expected_attendance,
        social_growth_target: e.social_growth_target,
    })
    &&& resp.target_audience@ == e.target_audience
    &&& resp.quarterly_goals@ == e.quarterly_goals
    &&& resp.strategic_purpose@ == e.strategic_purpose
    &&& opt_str_view(resp.success_metrics) == e.success_metrics
}

/// The username annotation for an organizer identifier: the unique matching
/// row's username, or `"Unknown"` where no row matches.
pub open spec fn spec_username_of(users: UserStore, id: u64) -> Seq<char> {
    if users.contains_id(id) {
        users.rows()[choose|i: int|
            0 <= i < users.rows().len() && #[trigger] users.rows()[i].id == id].username
    } else {
        "Unknown"@
    }
}

/// In a well-formed table the username annotation of an identifier is the
/// username of any row carrying it, identifiers being unique.
pub proof fn lemma_username_of(users: UserStore, u: UserView, id: u64)
    requires
        users.wf(),
        u.id == id,
        exists|i: int| 0 <= i < users.rows().len() && #[trigger] users.rows()[i] == u,
    ensures
        spec_username_of(users, id) == u.username,
{
    let i = choose|i: int| 0 <= i < users.rows().len() && #[trigger] users.rows()[i] == u;
    assert(users.rows()[i].id == id);
    assert(users.contains_id(id));
    let j = choose|j: int| 0 <= j < users.rows().len() && #[trigger] users.rows()[j].id == id;
    if i != j {
        assert(users.rows()[i].id != users.rows()[j].id);
    }
}

/// Map a stored event row and its organizer's username to the public shape.
pub fn create_event_response(event: &Event, organizer_username: &str) -> (r: EventResponse)
    ensures
        event_response_matches(r, event@, organizer_username@),
{
    let event_type = EventType::from_storage(event.event_type.as_str());
    let strategic_focus_areas: Vec<StrategicFocusArea> = match &event.strategic_focus_areas {
        Some(areas) => crate::codec::decode_focus_areas(areas),
        None => Vec::new(),
    };
    let kpi_estimates = KPIEstimates {
        monthly_active_ambassadors: event.monthly_active_ambassadors,
        monthly_active_accounts: event.monthly_active_accounts,
        scf_referrals: event.scf_referrals,
        content_produced: event.content_produced,
        expected_attendance: event.expected_attendance,
        social_growth_target: event.social_growth_target,
    };
    let created_at = match event.created_at {
        Some(ms) => crate::dates::format_utc_date(ms),
        None => "Unknown".to_owned(),
    };
    proof {
        if event@.strategic_focus_areas is None {
            assert(spec_decode_focus_seq(Seq::empty()) =~= Seq::<StrategicFocusArea>::empty());
        }
    }
    EventResponse {
        id: crate::numeral::u64_to_string(event.id),
        title: event.title.clone(),
        description: event.description.clone(),
        event_type,
        date: crate::dates::format_utc_date(event.date),
        location: event.location.clone(),
        max_participants: event.max_participants,
        registration_required: event.registration_required,
        contact_email: event.contact_email.clone(),
        external_link: crate::models::clone_opt_string(&event.external_link),
        organizer: organizer_username.to_owned(),
        created_at,
        strategic_focus_areas,
        kpi_estimates,
        target_audience: event.target_audience.clone(),
        quarterly_goals: event.quarterly_goals.clone(),
        strategic_purpose: event.strategic_purpose.clone(),
        success_metrics: crate::models::clone_opt_string(&event.success_metrics),
    }
}

/// Handle an event-creation request against the event table, at the given
/// clock reading.
///
/// The request's date string decides the outcome: one that does not parse as
/// a UTC date-time is rejected with a bad-request answer and the table is
/// unchanged; one that parses has its event stored — enumerated fields
/// encoded as storage strings, attributed to the placeholder organizer —
/// in date order, and the answer is a plain success message.
pub fn create_event(events: &mut EventStore, req: &EventRequest, now_ms: i64) -> (r: (u16, String))
    requires
        old(events).wf(),
        old(events).next_id < u64::MAX,
        old(events).rows().len() < usize::MAX,
    ensures
        final(events).wf(),
        match utc_parse_millis(req.date@) {
            None => {
                &&& r.0 == STATUS_BAD_REQUEST
                &&& r.1@ == "Invalid date format"@
                &&& final(events).rows() == old(events).rows()
                &&& final(events).next_id == old(events).next_id
            },
            Some(ts) => {
                &&& r.0 == STATUS_CREATED
                &&& r.1@ == "Event created successfully!"@
                &&& final(events).next_id == old(events).next_id + 1
                &&& exists|k: int|
                    0 <= k <= old(events).rows().len() && (forall|j: int|
                        0 <= j < k ==> (#[trigger] old(events).rows()[j]).date <= ts) && (forall|
                        j: int,
                    |
                        k <= j < old(events).rows().len() ==> (#[trigger] old(
                            events,
                        ).rows()[j]).date > ts) && final(events).rows() == old(
                        events,
                    ).rows().insert(
                        k,
                        created_event_view(*req, old(events).next_id, ts, now_ms),
                    )
            },
        },
{
    let date: i64 = match parse_utc_date(req.date.as_str()) {
        Some(d) => d,
        None => {
            return (STATUS_BAD_REQUEST, "Invalid date format".to_owned());
        },
    };
    let event_type_str = req.event_type.storage_string();
    let focus_strings = encode_focus_areas(&req.strategic_focus_areas);
    let external_link: Option<&str> = match &req.external_link {
        Some(s) => Some(s.as_str()),
        None => None,
    };
    let success_metrics: Option<&str> = match &req.success_metrics {
        Some(s) => Some(s.as_str()),
        None => None,
    };
    let rec = EventRepository::create_event(
        events,
        req.title.as_str(),
        req.description.as_str(),
        event_type_str.as_str(),
        date,
        req.location.as_str(),
        req.max_participants,
        req.registration_required,
        req.contact_email.as_str(),
        external_link,
        PLACEHOLDER_ORGANIZER_ID,
        Some(&focus_strings),
        req.kpi_estimates.monthly_active_ambassadors,
        req.kpi_estimates.monthly_active_accounts,
        req.kpi_estimates.scf_referrals,
        req.kpi_estimates.content_produced,
        req.kpi_estimates.expected_attendance,
        req.kpi_estimates.social_growth_target,
        req.target_audience.as_str(),
        req.quarterly_goals.as_str(),
        req.strategic_purpose.as_str(),
        success_metrics,
        now_ms,
    );
    proof {
        assert(rec@ == created_event_view(*req, old(events).next_id, date, now_ms));
    }
    (STATUS_CREATED, "Event created successfully!".to_owned())
}

/// Handle a listing request against the two tables.
///
/// A negative page size or offset is answered as a storage failure: an
/// empty body and a count of zero. Otherwise the answer carries the page of
/// the date-ordered table at the requested offset — at most the requested
/// page size long, 50 by default — each event annotated with its
/// organizer's username, `"Unknown"` where no user row matches, and a count
/// equal to the number of items returned.
pub fn list_events(users: &UserStore, events: &EventStore, params: &ListEventsQuery) -> (r: (
    u16,
    EventListResponse,
))
    requires
        users.wf(),
        events.wf(),
    ensures
        ({
            let lim = spec_limit(params.limit);
            let off = spec_offset(params.offset);
            let start = vstd::math::min(off, events.rows().len() as int);
            let end = vstd::math::min(off + lim, events.rows().len() as int);
            if lim < 0 || off < 0 {
                &&& r.0 == STATUS_INTERNAL_SERVER_ERROR
                &&& r.1.events@.len() == 0
                &&& r.1.total == 0
            } else {
                &&& r.0 == STATUS_OK
                &&& r.1.events@.len() == end - start
                &&& r.1.events@.len() <= lim
                &&& r.1.total == r.1.events@.len()
                &&& forall|j: int|
                    0 <= j < r.1.events@.len() ==> event_response_matches(
                        #[trigger] r.1.events@[j],
                        events.rows()[start + j],
                        spec_username_of(*users, events.rows()[start + j].organizer_id),
                    )
            }
        }),
{
    let page = match EventRepository::list_events(events, params.limit, params.offset) {
        Ok(v) => v,
        Err(_) => {
            return (
                STATUS_INTERNAL_SERVER_ERROR,
                EventListResponse { events: Vec::new(), total: 0 },
            );
        },
    };
    let ghost start = vstd::math::min(spec_offset(params.offset), events.rows().len() as int);
    let mut event_responses: Vec<EventResponse> = Vec::new();
    let mut i: usize = 0;
    while i < page.len()
        invariant
            users.wf(),
            events.wf(),
            i <= page@.len(),
            event_responses@.len() == i,
            forall|j: int|
                0 <= j < page@.len() ==> (#[trigger] page@[j])@ == events.rows()[start + j],
            0 <= start,
            start + page@.len() <= events.rows().len(),
            forall|j: int|
                0 <= j < i ==> event_response_matches(
                    #[trigger] event_responses@[j],
                    events.rows()[start + j],
                    spec_username_of(*users, events.rows()[start + j].organizer_id),
                ),
        decreases page.len() - i,
    {
        let ev = &page[i];
        let organizer_username: String = match UserRepository::find_by_id(users, ev.organizer_id) {
            Some(user) => {
                proof {
                    lemma_username_of(*users, user@, ev.organizer_id);
                }
                user.username
            },
            None => "Unknown".to_owned(),
        };
        let resp = create_event_response(ev, organizer_username.as_str());
        event_responses.push(resp);
        i = i + 1;
    }
    let total: usize = event_responses.len();
    (STATUS_OK, EventListResponse { events: event_responses, total })
}

} // verus!
