//! Enumeration codecs between wire enums and their canonical storage strings.
//!
//! Each enumeration has a total encoder to its storage string and a decoder
//! from stored strings back to the enum. The fallback policies differ on
//! purpose: user roles and event types fall back to a fixed default variant
//! on unrecognized input, while strategic focus areas drop unrecognized
//! entries from the collection.

use vstd::prelude::*;

verus! {

/// The two recognized user roles.
#[derive(Clone, Copy, Debug, PartialEq, Eq, Structural)]
pub enum UserType {
    Ambassador,
    ChapterLead,
}

impl UserType {
    /// The canonical storage string of a role.
    pub open spec fn spec_storage_str(self) -> Seq<char> {
        match self {
            UserType::Ambassador => "Ambassador"@,
            UserType::ChapterLead => "ChapterLead"@,
        }
    }

    /// Decoding policy for stored role strings: unrecognized input falls
    /// back to the default role, `Ambassador`.
    pub open spec fn spec_from_storage(s: Seq<char>) -> UserType {
        if s == "Ambassador"@ {
            UserType::Ambassador
        } else if s == "ChapterLead"@ {
            UserType::ChapterLead
        } else {
            UserType::Ambassador
        }
    }

    /// Encode a role as its storage string.
    pub fn storage_string(&self) -> (r: String)
        ensures
            r@ == self.spec_storage_str(),
    {
        match self {
            UserType::Ambassador => "Ambassador".to_owned(),
            UserType::ChapterLead => "ChapterLead".to_owned(),
        }
    }

    /// Decode a stored role string, substituting the default role for
    /// unrecognized input.
    pub fn from_storage(s: &str) -> (r: UserType)
        ensures
            r == Self::spec_from_storage(s@),
    {
        if str_eq(s, "Ambassador") {
            UserType::Ambassador
        } else if str_eq(s, "ChapterLead") {
            UserType::ChapterLead
        } else {
            UserType::Ambassador
        }
    }
}

/// Roles round-trip: encoding a role and decoding the result gives the same
/// role back.
pub proof fn lemma_user_type_round_trip(t: UserType)
    ensures
        UserType::spec_from_storage(t.spec_storage_str()) == t,
{
    reveal_strlit("Ambassador");
    reveal_strlit("ChapterLead");
    assert("Ambassador"@.len() == 10);
    assert("ChapterLead"@.len() == 11);
}

/// The five recognized event types.
#[derive(Clone, Copy, Debug, PartialEq, Eq, Structural)]
pub enum EventType {
    Workshop,
    Meetup,
    Conference,
    Hackathon,
    Community,
}

impl EventType {
    /// The canonical storage string of an event type.
    pub open spec fn spec_storage_str(self) -> Seq<char> {
        match self {
            EventType::Workshop => "Workshop"@,
            EventType::Meetup => "Meetup"@,
            EventType::Conference => "Conference"@,
            EventType::Hackathon => "Hackathon"@,
            EventType::Community => "Community Event"@,
        }
    }

    /// Decoding policy for stored event-type strings: unrecognized input
    /// falls back to the default type, `Community`.
    pub open spec fn spec_from_storage(s: Seq<char>) -> EventType {
        if s == "Workshop"@ {
            EventType::Workshop
        } else if s == "Meetup"@ {
            EventType::Meetup
        } else if s == "Conference"@ {
            EventType::Conference
        } else if s == "Hackathon"@ {
            EventType::Hackathon
        } else {
            EventType::Community
        }
    }

    /// Encode an event type as its storage string.
    pub fn storage_string(&self) -> (r: String)
        ensures
            r@ == self.spec_storage_str(),
    {
        match self {
            EventType::Workshop => "Workshop".to_owned(),
            EventType::Meetup => "Meetup".to_owned(),
            EventType::Conference => "Conference".to_owned(),
            EventType::Hackathon => "Hackathon".to_owned(),
            EventType::Community => "Community Event".to_owned(),
        }
    }

    /// Decode a stored event-type string, substituting the default type for
    /// unrecognized input.
    pub fn from_storage(s: &str) -> (r: EventType)
        ensures
            r == Self::spec_from_storage(s@),
    {
        if str_eq(s, "Workshop") {
            EventType::Workshop
        } else if str_eq(s, "Meetup") {
            EventType::Meetup
        } else if str_eq(s, "Conference") {
            EventType::Conference
        } else if str_eq(s, "Hackathon") {
            EventType::Hackathon
        } else {
            EventType::Community
        }
    }
}

/// Event types round-trip: encoding an event type and decoding the result
/// gives the same type back. `Community` encodes to a string the decoder
/// does not recognize, yet round-trips through the fallback, which is
/// `Community` itself.
pub proof fn lemma_event_type_round_trip(t: EventType)
    ensures
        EventType::spec_from_storage(t.spec_storage_str()) == t,
{
    reveal_strlit("Workshop");
    reveal_strlit("Meetup");
    reveal_strlit("Conference");
    reveal_strlit("Hackathon");
    reveal_strlit("Community Event");
    assert("Workshop"@.len() == 8);
    assert("Meetup"@.len() == 6);
    assert("Conference"@.len() == 10);
    assert("Hackathon"@.len() == 9);
    assert("Community Event"@.len() == 15);
}

/// Every role string outside the recognized set decodes to the default
/// role rather than failing.
pub proof fn lemma_unrecognized_user_type_defaults(s: Seq<char>)
    requires
        s != "Ambassador"@,
        s != "ChapterLead"@,
    ensures
        UserType::spec_from_storage(s) == UserType::Ambassador,
{
}

/// Every event-type string outside the recognized set decodes to the
/// default type rather than failing.
pub proof fn lemma_unrecognized_event_type_defaults(s: Seq<char>)
    requires
        s != "Workshop"@,
        s != "Meetup"@,
        s != "Conference"@,
        s != "Hackathon"@,
    ensures
        EventType::spec_from_storage(s) == EventType::Community,
{
}

/// The five recognized strategic focus areas.
#[derive(Clone, Copy, Debug, PartialEq, Eq, Structural)]
pub enum StrategicFocusArea {
    CommunityParticipation,
    OnChainActivity,
    SCFReferrals,
    EcosystemCollaboration,
    DeveloperGrowth,
}

impl StrategicFocusArea {
    /// The canonical storage string of a focus area.
    pub open spec fn spec_storage_str(self) -> Seq<char> {
        match self {
            StrategicFocusArea::CommunityParticipation => "Community Participation"@,
            StrategicFocusArea::OnChainActivity => "On-Chain Activity"@,
            StrategicFocusArea::SCFReferrals => "SCF Referrals"@,
            StrategicFocusArea::EcosystemCollaboration => "Ecosystem Collaboration"@,
            StrategicFocusArea::DeveloperGrowth => "Developer Growth"@,
        }
    }

    /// Decoding policy for stored focus-area strings: unrecognized input is
    /// rejected with `None`, so list decoding drops the entry instead of
    /// substituting a default.
    pub open spec fn spec_from_storage(s: Seq<char>) -> Option<StrategicFocusArea> {
        if s == "Community Participation"@ {
            Some(StrategicFocusArea::CommunityParticipation)
        } else if s == "On-Chain Activity"@ {
            Some(StrategicFocusArea::OnChainActivity)
        } else if s == "SCF Referrals"@ {
            Some(StrategicFocusArea::SCFReferrals)
        } else if s == "Ecosystem Collaboration"@ {
            Some(StrategicFocusArea::EcosystemCollaboration)
        } else if s == "Developer Growth"@ {
            Some(StrategicFocusArea::DeveloperGrowth)
        } else {
            None
        }
    }

    /// Encode a focus area as its storage string.
    pub fn storage_string(&self) -> (r: String)
        ensures
            r@ == self.spec_storage_str(),
    {
        match self {
            StrategicFocusArea::CommunityParticipation => "Community Participation".to_owned(),
            StrategicFocusArea::OnChainActivity => "On-Chain Activity".to_owned(),
            StrategicFocusArea::SCFReferrals => "SCF Referrals".to_owned(),
            StrategicFocusArea::EcosystemCollaboration => "Ecosystem Collaboration".to_owned(),
            StrategicFocusArea::DeveloperGrowth => "Developer Growth".to_owned(),
        }
    }

    /// Decode a stored focus-area string; unrecognized input yields `None`.
    pub fn from_storage(s: &str) -> (r: Option<StrategicFocusArea>)
        ensures
            r == Self::spec_from_storage(s@),
    {
        if str_eq(s, "Community Participation") {
            Some(StrategicFocusArea::CommunityParticipation)
        } else if str_eq(s, "On-Chain Activity") {
            Some(StrategicFocusArea::OnChainActivity)
        } else if str_eq(s, "SCF Referrals") {
            Some(StrategicFocusArea::SCFReferrals)
        } else if str_eq(s, "Ecosystem Collaboration") {
            Some(StrategicFocusArea::EcosystemCollaboration)
        } else if str_eq(s, "Developer Growth") {
            Some(StrategicFocusArea::DeveloperGrowth)
        } else {
            None
        }
    }
}

/// Focus areas round-trip: encoding a focus area and decoding the result
/// recognizes it, giving the same area back.
pub proof fn lemma_focus_area_round_trip(a: StrategicFocusArea)
    ensures
        StrategicFocusArea::spec_from_storage(a.spec_storage_str()) == Some(a),
{
    reveal_strlit("Community Participation");
    reveal_strlit("On-Chain Activity");
    reveal_strlit("SCF Referrals");
    reveal_strlit("Ecosystem Collaboration");
    reveal_strlit("Developer Growth");
    assert("Community Participation"@.len() == 23);
    assert("On-Chain Activity"@.len() == 17);
    assert("SCF Referrals"@.len() == 13);
    assert("Ecosystem Collaboration"@.len() == 23);
    assert("Developer Growth"@.len() == 16);
    assert("Community Participation"@[0] == 'C');
    assert("Ecosystem Collaboration"@[0] == 'E');
}

/// The storage strings of a sequence of focus areas.
pub open spec fn encode_focus_seq(areas: Seq<StrategicFocusArea>) -> Seq<Seq<char>> {
    areas.map_values(|a: StrategicFocusArea| a.spec_storage_str())
}

/// Encode a list of focus areas as their storage strings.
pub fn encode_focus_areas(areas: &Vec<StrategicFocusArea>) -> (r: Vec<String>)
    ensures
        seq_views(r@) == encode_focus_seq(areas@),
        r@.len() == areas@.len(),
{
    let mut r: Vec<String> = Vec::new();
    let mut i: usize = 0;
    while i < areas.len()
        invariant
            i <= areas.len(),
            r@.len() == i,
            forall|j: int| 0 <= j < i ==> (#[trigger] r@[j])@ == areas@[j].spec_storage_str(),
        decreases areas.len() - i,
    {
        r.push(areas[i].storage_string());
        i = i + 1;
    }
    proof {
        assert(seq_views(r@) =~= encode_focus_seq(areas@));
    }
    r
}

/// The character sequences of a sequence of stored strings.
pub open spec fn seq_views(ss: Seq<String>) -> Seq<Seq<char>> {
    ss.map_values(|s: String| s@)
}

/// Decode a sequence of stored focus-area strings: recognized entries are
/// kept in order, unrecognized entries are dropped.
pub open spec fn spec_decode_focus_seq(ss: Seq<Seq<char>>) -> Seq<StrategicFocusArea>
    decreases ss.len(),
{
    if ss.len() == 0 {
        Seq::empty()
    } else {
        spec_decode_focus_seq(ss.drop_last()) + (match StrategicFocusArea::spec_from_storage(
            ss.last(),
        ) {
            Some(a) => seq![a],
            None => Seq::empty(),
        })
    }
}

/// Decode a list of stored focus-area strings, dropping unrecognized
/// entries and keeping the recognized ones in order.
pub fn decode_focus_areas(ss: &Vec<String>) -> (r: Vec<StrategicFocusArea>)
    ensures
        r@ == spec_decode_focus_seq(seq_views(ss@)),
{
    let mut r: Vec<StrategicFocusArea> = Vec::new();
    let mut i: usize = 0;
    while i < ss.len()
        invariant
            i <= ss.len(),
            r@ == spec_decode_focus_seq(seq_views(ss@.take(i as int))),
        decreases ss.len() - i,
    {
        proof {
            assert(seq_views(ss@.take(i + 1)).drop_last() =~= seq_views(ss@.take(i as int)));
            assert(seq_views(ss@.take(i + 1)).last() == ss@[i as int]@);
        }
        match StrategicFocusArea::from_storage(ss[i].as_str()) {
            Some(a) => {
                r.push(a);
            },
            None => {},
        }
        i = i + 1;
    }
    proof {
        assert(ss@.take(ss@.len() as int) =~= ss@);
    }
    r
}

/// Decoding a list of stored focus-area strings never lengthens it, and
/// drops at least one entry exactly when some entry is unrecognized.
pub proof fn lemma_decode_focus_len(ss: Seq<Seq<char>>)
    ensures
        spec_decode_focus_seq(ss).len() <= ss.len(),
        spec_decode_focus_seq(ss).len() < ss.len() <==> exists|i: int|
            0 <= i < ss.len() && StrategicFocusArea::spec_from_storage(ss[i]) is None,
    decreases ss.len(),
{
    if ss.len() > 0 {
        lemma_decode_focus_len(ss.drop_last());
        if StrategicFocusArea::spec_from_storage(ss.last()) is None {
            assert(StrategicFocusArea::spec_from_storage(ss[ss.len() - 1]) is None);
        }
        if spec_decode_focus_seq(ss).len() < ss.len() {
            if spec_decode_focus_seq(ss.drop_last()).len() < ss.drop_last().len() {
                let i = choose|i: int|
                    0 <= i < ss.drop_last().len() && StrategicFocusArea::spec_from_storage(
                        ss.drop_last()[i],
                    ) is None;
                assert(StrategicFocusArea::spec_from_storage(ss[i]) is None);
            }
        }
        if exists|i: int|
            0 <= i < ss.len() && StrategicFocusArea::spec_from_storage(ss[i]) is None {
            let i = choose|i: int|
                0 <= i < ss.len() && StrategicFocusArea::spec_from_storage(ss[i]) is None;
            if i < ss.len() - 1 {
                assert(StrategicFocusArea::spec_from_storage(ss.drop_last()[i]) is None);
            }
        }
    }
}

/// Compare two string slices by their character sequences.
pub(crate) fn str_eq(a: &str, b: &str) -> (r: bool)
    ensures
        r == (a@ == b@),
{
    let a1: String = a.to_owned();
    let b1: String = b.to_owned();
    a1 == b1
}

} // verus!
