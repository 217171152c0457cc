//! The in-memory store and its repositories.
//!
//! Two tables, one of users and one of events, each owning its rows and
//! assigning identifiers sequentially. The event table keeps its rows
//! ordered by ascending date, so listing is a slice of the table. The
//! repositories are the only writers; their contracts say exactly which
//! rows a call adds and which rows a lookup returns.

use vstd::prelude::*;

use crate::codec::str_eq;
use crate::models::{clone_event, clone_user, opt_str_view, Event, EventView, User, UserView};

verus! {

/// The character sequence of an optional borrowed string.
pub open spec fn opt_ref_view(o: Option<&str>) -> Option<Seq<char>> {
    match o {
        Some(s) => Some(s@),
        None => None,
    }
}

/// Copy an optional borrowed string into an owned one.
fn opt_str_to_owned(o: Option<&str>) -> (r: Option<String>)
    ensures
        opt_str_view(r) == opt_ref_view(o),
{
    match o {
        Some(s) => Some(s.to_owned()),
        None => None,
    }
}

/// The table of user rows.
pub struct UserStore {
    pub users: Vec<User>,
    /// The identifier the next created row receives.
    pub next_id: u64,
}

impl UserStore {
    /// The abstract rows of the table, in insertion order.
    pub open spec fn rows(self) -> Seq<UserView> {
        self.users@.map_values(|u: User| u@)
    }

    /// Identifiers are below the next one and pairwise distinct.
    pub open spec fn wf(self) -> bool {
        &&& forall|i: int| 0 <= i < self.rows().len() ==> #[trigger] self.rows()[i].id
            < self.next_id
        &&& forall|i: int, j: int|
            0 <= i < j < self.rows().len() ==> #[trigger] self.rows()[i].id
                != #[trigger] self.rows()[j].id
    }

    /// Whether some row carries the given email.
    pub open spec fn contains_email(self, email: Seq<char>) -> bool {
        exists|i: int| 0 <= i < self.rows().len() && #[trigger] self.rows()[i].email == email
    }

    /// Whether some row carries the given wallet address.
    pub open spec fn contains_wallet(self, wallet: Seq<char>) -> bool {
        exists|i: int|
            0 <= i < self.rows().len() && #[trigger] self.rows()[i].wallet_address == wallet
    }

    /// Whether some row carries the given identifier.
    pub open spec fn contains_id(self, id: u64) -> bool {
        exists|i: int| 0 <= i < self.rows().len() && #[trigger] self.rows()[i].id == id
    }

    /// An empty table.
    pub fn new() -> (s: UserStore)
        ensures
            s.wf(),
            s.rows() == Seq::<UserView>::empty(),
            s.next_id == 1,
    {
        let s = UserStore { users: Vec::new(), next_id: 1 };
        proof {
            assert(s.rows() =~= Seq::<UserView>::empty());
        }
        s
    }
}

/// Query operations on the user table.
pub struct UserRepository;

impl UserRepository {
    /// Insert a user row: the row receives the next identifier and the given
    /// clock reading, and is appended to the table.
    pub fn create_user(
        store: &mut UserStore,
        username: &str,
        email: &str,
        wallet_address: &str,
        user_type: &str,
        organization: Option<&str>,
        bio: Option<&str>,
        now_ms: i64,
    ) -> (r: User)
        requires
            old(store).wf(),
            old(store).next_id < u64::MAX,
        ensures
            final(store).wf(),
            final(store).rows() == old(store).rows().push(r@),
            final(store).next_id == old(store).next_id + 1,
            r@.id == old(store).next_id,
            r@.username == username@,
            r@.email == email@,
            r@.wallet_address == wallet_address@,
            r@.user_type == user_type@,
            r@.organization == opt_ref_view(organization),
            r@.bio == opt_ref_view(bio),
            r@.created_at == Some(now_ms),
    {
        let rec = User {
            id: store.next_id,
            username: username.to_owned(),
            email: email.to_owned(),
            wallet_address: wallet_address.to_owned(),
            user_type: user_type.to_owned(),
            organization: opt_str_to_owned(organization),
            bio: opt_str_to_owned(bio),
            created_at: Some(now_ms),
        };
        let out = clone_user(&rec);
        store.users.push(rec);
        store.next_id = store.next_id + 1;
        proof {
            assert(store.rows() =~= old(store).rows().push(out@));
        }
        out
    }

    /// Look a user up by email; `Some` exactly when a row carries it.
    pub fn find_by_email(store: &UserStore, email: &str) -> (r: Option<User>)
        ensures
            match r {
                Some(u) => store.contains_email(email@) && u@.email == email@ && exists|i: int|
                    0 <= i < store.rows().len() && #[trigger] store.rows()[i] == u@,
                None => !store.contains_email(email@),
            },
    {
        let mut i: usize = 0;
        while i < store.users.len()
            invariant
                i <= store.users.len(),
                forall|j: int| 0 <= j < i ==> #[trigger] store.rows()[j].email != email@,
            decreases store.users.len() - i,
        {
            if str_eq(store.users[i].email.as_str(), email) {
                let u = clone_user(&store.users[i]);
                proof {
                    assert(store.rows()[i as int] == u@);
                    assert(store.rows()[i as int].email == email@);
                }
                return Some(u);
            }
            i = i + 1;
        }
        None
    }

    /// Look a user up by wallet address; `Some` exactly when a row carries it.
    pub fn find_by_wallet_address(store: &UserStore, wallet_address: &str) -> (r: Option<User>)
        ensures
            match r {
                Some(u) => store.contains_wallet(wallet_address@) && u@.wallet_address
                    == wallet_address@ && exists|i: int|
                    0 <= i < store.rows().len() && #[trigger] store.rows()[i] == u@,
                None => !store.contains_wallet(wallet_address@),
            },
    {
        let mut i: usize = 0;
        while i < store.users.len()
            invariant
                i <= store.users.len(),
                forall|j: int|
                    0 <= j < i ==> #[trigger] store.rows()[j].wallet_address != wallet_address@,
            decreases store.users.len() - i,
        {
            if str_eq(store.users[i].wallet_address.as_str(), wallet_address) {
                let u = clone_user(&store.users[i]);
                proof {
                    assert(store.rows()[i as int] == u@);
                    assert(store.rows()[i as int].wallet_address == wallet_address@);
                }
                return Some(u);
            }
            i = i + 1;
        }
        None
    }

    /// Look a user up by identifier; `Some` exactly when a row carries it.
    pub fn find_by_id(store: &UserStore, user_id: u64) -> (r: Option<User>)
        ensures
            match r {
                Some(u) => store.contains_id(user_id) && u@.id == user_id && exists|i: int|
                    0 <= i < store.rows().len() && #[trigger] store.rows()[i] == u@,
                None => !store.contains_id(user_id),
            },
    {
        let mut i: usize = 0;
        while i < store.users.len()
            invariant
                i <= store.users.len(),
                forall|j: int| 0 <= j < i ==> #[trigger] store.rows()[j].id != user_id,
            decreases store.users.len() - i,
        {
            if store.users[i].id == user_id {
                let u = clone_user(&store.users[i]);
                proof {
                    assert(store.rows()[i as int] == u@);
                    assert(store.rows()[i as int].id == user_id);
                }
                return Some(u);
            }
            i = i + 1;
        }
        None
    }
}

/// Rows ordered by ascending date.
pub open spec fn sorted_by_date(rows: Seq<EventView>) -> bool {
    forall|i: int, j: int|
        0 <= i <= j < rows.len() ==> #[trigger] rows[i].date <= #[trigger] rows[j].date
}

/// The table of event rows, kept ordered by ascending date.
pub struct EventStore {
    pub events: Vec<Event>,
    /// The identifier the next created row receives.
    pub next_id: u64,
}

impl EventStore {
    /// The abstract rows of the table, in date order.
    pub open spec fn rows(self) -> Seq<EventView> {
        self.events@.map_values(|e: Event| e@)
    }

    /// Rows are ordered by date; identifiers are below the next one and
    /// pairwise distinct.
    pub open spec fn wf(self) -> bool {
        &&& sorted_by_date(self.rows())
        &&& forall|i: int| 0 <= i < self.rows().len() ==> #[trigger] self.rows()[i].id
            < self.next_id
        &&& forall|i: int, j: int|
            0 <= i < j < self.rows().len() ==> #[trigger] self.rows()[i].id
                != #[trigger] self.rows()[j].id
    }

    /// Whether some row carries the given identifier.
    pub open spec fn contains_id(self, id: u64) -> bool {
        exists|i: int| 0 <= i < self.rows().len() && #[trigger] self.rows()[i].id == id
    }

    /// An empty table.
    pub fn new() -> (s: EventStore)
        ensures
            s.wf(),
            s.rows() == Seq::<EventView>::empty(),
            s.next_id == 1,
    {
        let s = EventStore { events: Vec::new(), next_id: 1 };
        proof {
            assert(s.rows() =~= Seq::<EventView>::empty());
        }
        s
    }
}

/// Why a listing request was refused.
#[derive(Clone, Copy, Debug, PartialEq, Eq, Structural)]
pub enum ListError {
    /// The requested page size was negative.
    NegativeLimit,
    /// The requested offset was negative.
    NegativeOffset,
}

/// The page size a listing request asks for; the default is 50.
pub open spec fn spec_limit(limit: Option<i64>) -> int {
    match limit {
        Some(l) => l as int,
        None => 50,
    }
}

/// The offset a listing request asks for; the default is 0.
pub open spec fn spec_offset(offset: Option<i64>) -> int {
    match offset {
        Some(o) => o as int,
        None => 0,
    }
}

/// Query operations on the event table.
pub struct EventRepository;

impl EventRepository {
    /// Insert an event row: the row receives the next identifier and the
    /// given clock reading, and is placed after the rows dated up to its
    /// date and before those dated after it.
    #[verifier::rlimit(100)]
    pub fn create_event(
        store: &mut EventStore,
        title: &str,
        description: &str,
        event_type: &str,
        date: i64,
        location: &str,
        max_participants: Option<u32>,
        registration_required: bool,
        contact_email: &str,
        external_link: Option<&str>,
        organizer_id: u64,
        strategic_focus_areas: Option<&Vec<String>>,
        monthly_active_ambassadors: Option<u32>,
        monthly_active_accounts: Option<u32>,
        scf_referrals: Option<u32>,
        content_produced: Option<u32>,
        expected_attendance: Option<u32>,
        social_growth_target: Option<u32>,
        target_audience: &str,
        quarterly_goals: &str,
        strategic_purpose: &str,
        success_metrics: Option<&str>,
        now_ms: i64,
    ) -> (r: Event)
        requires
            old(store).wf(),
            old(store).next_id < u64::MAX,
            old(store).events@.len() < usize::MAX,
        ensures
            final(store).wf(),
            final(store).next_id == old(store).next_id + 1,
            exists|k: int|
                0 <= k <= old(store).rows().len() && (forall|j: int|
                    0 <= j < k ==> (#[trigger] old(store).rows()[j]).date <= date) && (forall|
                    j: int,
                |
                    k <= j < old(store).rows().len() ==> (#[trigger] old(
                        store,
                    ).rows()[j]).date > date) && final(store).rows() == old(store).rows().insert(
                    k,
                    r@,
                ),
            r@.id == old(store).next_id,
            r@.title == title@,
            r@.description == description@,
            r@.event_type == event_type@,
            r@.date == date,
            r@.location == location@,
            r@.max_participants == max_participants,
            r@.registration_required == registration_required,
            r@.contact_email == contact_email@,
            r@.external_link == opt_ref_view(external_link),
            r@.organizer_id == organizer_id,
            r@.created_at == Some(now_ms),
            r@.strategic_focus_areas == (match strategic_focus_areas {
                Some(v) => Some(v@.map_values(|s: String| s@)),
                None => None,
            }),
            r@.monthly_active_ambassadors == monthly_active_ambassadors,
            r@.monthly_active_accounts == monthly_active_accounts,
            r@.scf_referrals == scf_referrals,
            r@.content_produced == content_produced,
            r@.expected_attendance == expected_attendance,
            r@.social_growth_target == social_growth_target,
            r@.target_audience == target_audience@,
            r@.quarterly_goals == quarterly_goals@,
            r@.strategic_purpose == strategic_purpose@,
            r@.success_metrics == opt_ref_view(success_metrics),
    {
        let focus_owned: Option<Vec<String>> = match strategic_focus_areas {
            Some(v) => Some(crate::models::clone_string_vec(v)),
            None => None,
        };
        let rec = Event {
            id: store.next_id,
            title: title.to_owned(),
            description: description.to_owned(),
            event_type: event_type.to_owned(),
            date,
            location: location.to_owned(),
            max_participants,
            registration_required,
            contact_email: contact_email.to_owned(),
            external_link: opt_str_to_owned(external_link),
            organizer_id,
            created_at: Some(now_ms),
            strategic_focus_areas: focus_owned,
            monthly_active_ambassadors,
            monthly_active_accounts,
            scf_referrals,
            content_produced,
            expected_attendance,
            social_growth_target,
            target_audience: target_audience.to_owned(),
            quarterly_goals: quarterly_goals.to_owned(),
            strategic_purpose: strategic_purpose.to_owned(),
            success_metrics: opt_str_to_owned(success_metrics),
        };
        let out = clone_event(&rec);
        let ghost old_rows = store.rows();
        let mut k: usize = 0;
        while k < store.events.len() && store.events[k].date <= date
            invariant
                store == old(store),
                k <= store.events.len(),
                forall|j: int| 0 <= j < k ==> (#[trigger] store.rows()[j]).date <= date,
            decreases store.events.len() - k,
        {
            k = k + 1;
        }
        proof {
            assert(forall|j: int|
                k <= j < store.rows().len() ==> (#[trigger] store.rows()[j]).date > date) by {
                if k < store.rows().len() {
                    assert(store.rows()[k as int].date > date);
                    assert(forall|j: int|
                        k <= j < store.rows().len() ==> (#[trigger] store.rows()[j]).date
                            >= store.rows()[k as int].date);
                }
            }
        }
        store.events.insert(k, rec);
        store.next_id = store.next_id + 1;
        proof {
            old_rows.insert_ensures(k as int, out@);
            assert(store.rows() =~= old_rows.insert(k as int, out@));
            let rows = store.rows();
            assert forall|i: int, j: int| 0 <= i <= j < rows.len() implies rows[i].date
                <= rows[j].date by {
                if i > k {
                    assert(rows[i] == old_rows[i - 1]);
                }
                if j > k {
                    assert(rows[j] == old_rows[j - 1]);
                }
            }
            assert forall|i: int| 0 <= i < rows.len() implies rows[i].id < store.next_id by {
                if i > k {
                    assert(rows[i] == old_rows[i - 1]);
                }
            }
            assert forall|i: int, j: int| 0 <= i < j < rows.len() implies rows[i].id
                != rows[j].id by {
                if i > k {
                    assert(rows[i] == old_rows[i - 1]);
                }
                if j > k {
                    assert(rows[j] == old_rows[j - 1]);
                }
            }
        }
        out
    }

    /// List a page of event rows, in date order: the slice of the table
    /// starting at the requested offset, at most the requested page size
    /// long. A negative page size or offset is refused.
    pub fn list_events(store: &EventStore, limit: Option<i64>, offset: Option<i64>) -> (r: Result<
        Vec<Event>,
        ListError,
    >)
        requires
            store.wf(),
        ensures
            r is Err <==> (spec_limit(limit) < 0 || spec_offset(offset) < 0),
            r == Err::<Vec<Event>, ListError>(ListError::NegativeLimit) <==> spec_limit(limit) < 0,
            match r {
                Ok(v) => {
                    let start = vstd::math::min(spec_offset(offset), store.rows().len() as int);
                    let end = vstd::math::min(
                        spec_offset(offset) + spec_limit(limit),
                        store.rows().len() as int,
                    );
                    &&& v@.len() == end - start
                    &&& v@.len() <= spec_limit(limit)
                    &&& forall|j: int|
                        0 <= j < v@.len() ==> (#[trigger] v@[j])@ == store.rows()[start + j]
                    &&& sorted_by_date(v@.map_values(|e: Event| e@))
                },
                Err(e) => e == ListError::NegativeOffset ==> spec_offset(offset) < 0,
            },
    {
        let lim: i64 = match limit {
            Some(l) => l,
            None => 50,
        };
        let off: i64 = match offset {
            Some(o) => o,
            None => 0,
        };
        if lim < 0 {
            return Err(ListError::NegativeLimit);
        }
        if off < 0 {
            return Err(ListError::NegativeOffset);
        }
        let len: usize = store.events.len();
        let start: usize = if off as u64 >= len as u64 {
            len
        } else {
            off as usize
        };
        let room: usize = len - start;
        let take: usize = if (lim as u64) < (room as u64) {
            lim as usize
        } else {
            room
        };
        let mut v: Vec<Event> = Vec::new();
        let mut j: usize = 0;
        while j < take
            invariant
                store.wf(),
                j <= take,
                start <= store.events.len(),
                take <= store.events.len() - start,
                v@.len() == j,
                forall|t: int| 0 <= t < j ==> (#[trigger] v@[t])@ == store.rows()[start + t],
            decreases take - j,
        {
            v.push(clone_event(&store.events[start + j]));
            j = j + 1;
        }
        proof {
            let vr = v@.map_values(|e: Event| e@);
            assert(sorted_by_date(vr)) by {
                assert(forall|t: int|
                    0 <= t < vr.len() ==> #[trigger] vr[t] == store.rows()[start + t]);
            }
        }
        Ok(v)
    }

    /// Look an event up by identifier; `Some` exactly when a row carries it.
    pub fn find_by_id(store: &EventStore, event_id: u64) -> (r: Option<Event>)
        ensures
            match r {
                Some(e) => store.contains_id(event_id) && e@.id == event_id && exists|i: int|
                    0 <= i < store.rows().len() && #[trigger] store.rows()[i] == e@,
                None => !store.contains_id(event_id),
            },
    {
        let mut i: usize = 0;
        while i < store.events.len()
            invariant
                i <= store.events.len(),
                forall|j: int| 0 <= j < i ==> (#[trigger] store.rows()[j]).id != event_id,
            decreases store.events.len() - i,
        {
            if store.events[i].id == event_id {
                let e = clone_event(&store.events[i]);
                proof {
                    assert(store.rows()[i as int] == e@);
                    assert(store.rows()[i as int].id == event_id);
                }
                return Some(e);
            }
            i = i + 1;
        }
        None
    }
}

} // verus!
