//! The signup flow: uniqueness checks on email and wallet address, then
//! creation, with a conflict answer when either check finds a match.

use vstd::prelude::*;

use crate::codec::{lemma_user_type_round_trip, UserType};
use crate::dates::utc_display_millis;
use crate::dto::{SignUpRequest, SignUpResponse, UserPublic};
use crate::models::{opt_str_view, User, UserView};
use crate::numeral::spec_dec_rep;
use crate::store::{UserRepository, UserStore};
use crate::{STATUS_CONFLICT, STATUS_CREATED};

verus! {

/// The public shape faithfully renders a stored user row: the identifier in
/// decimal, the role decoded under the fallback policy, and the creation
/// time rendered as text, with `"Unknown"` where storage holds none.
pub open spec fn user_public_matches(up: UserPublic, u: UserView) -> bool {
    &&& up.id@ == spec_dec_rep(u.id as nat)
    &&& up.username@ == u.username
    &&& up.email@ == u.email
    &&& up.wallet_address@ == u.wallet_address
    &&& up.user_type == UserType::spec_from_storage(u.user_type)
    &&& opt_str_view(up.organization) == u.organization
    &&& opt_str_view(up.bio) == u.bio
    &&& up.created_at@ == (match u.created_at {
        Some(ms) => utc_display_millis(ms),
        None => "Unknown"@,
    })
}

/// The placeholder user shape that failure responses carry.
pub open spec fn is_error_user_public(up: UserPublic) -> bool {
    &&& up.id@ == "error"@
    &&& up.username@ == "Error"@
    &&& up.email@ == Seq::<char>::empty()
    &&& up.wallet_address@ == Seq::<char>::empty()
    &&& up.user_type == UserType::Ambassador
    &&& up.organization is None
    &&& up.bio is None
    &&& up.created_at@ == Seq::<char>::empty()
}

/// The row the signup flow stores for a request, under the identifier and
/// clock reading storage assigns.
pub open spec fn created_user_view(req: SignUpRequest, id: u64, now_ms: i64) -> UserView {
    UserView {
        id,
        username: req.username@,
        email: req.email@,
        wallet_address: req.wallet_address@,
        user_type: req.user_type.spec_storage_str(),
        organization: opt_str_view(req.organization),
        bio: opt_str_view(req.bio),
        created_at: Some(now_ms),
    }
}

/// Map a stored user row to its public shape.
pub fn create_user_public(user: &User) -> (up: UserPublic)
    ensures
        user_public_matches(up, user@),
{
    let user_type = UserType::from_storage(user.user_type.as_str());
    let created_at = match user.created_at {
        Some(ms) => crate::dates::format_utc_date(ms),
        None => "Unknown".to_owned(),
    };
    UserPublic {
        id: crate::numeral::u64_to_string(user.id),
        username: user.username.clone(),
        email: user.email.clone(),
        wallet_address: user.wallet_address.clone(),
        user_type,
        organization: crate::models::clone_opt_string(&user.organization),
        bio: crate::models::clone_opt_string(&user.bio),
        created_at,
    }
}

/// The placeholder user shape that failure responses carry.
pub fn create_error_user_public() -> (up: UserPublic)
    ensures
        is_error_user_public(up),
{
    UserPublic {
        id: "error".to_owned(),
        username: "Error".to_owned(),
        email: String::new(),
        wallet_address: String::new(),
        user_type: UserType::Ambassador,
        organization: None,
        bio: None,
        created_at: String::new(),
    }
}

/// Handle a signup request against the user table, at the given clock
/// reading.
///
/// The outcome is a conflict exactly when the request's email or wallet
/// address matches an existing row — the email check comes first — and a
/// creation otherwise: the new row carries the request's fields with the
/// role encoded as its storage string, and the response echoes the created
/// user, whose role decodes back to the one the request supplied.
pub fn signup(users: &mut UserStore, req: &SignUpRequest, now_ms: i64) -> (r: (u16, SignUpResponse))
    requires
        old(users).wf(),
        old(users).next_id < u64::MAX,
    ensures
        final(users).wf(),
        old(users).contains_email(req.email@) ==> {
            &&& r.0 == STATUS_CONFLICT
            &&& final(users).rows() == old(users).rows()
            &&& final(users).next_id == old(users).next_id
            &&& is_error_user_public(r.1.user)
            &&& r.1.message@ == "User with this email already exists"@
        },
        !old(users).contains_email(req.email@) && old(users).contains_wallet(
            req.wallet_address@,
        ) ==> {
            &&& r.0 == STATUS_CONFLICT
            &&& final(users).rows() == old(users).rows()
            &&& final(users).next_id == old(users).next_id
            &&& is_error_user_public(r.1.user)
            &&& r.1.message@ == "User with this wallet address already exists"@
        },
        !old(users).contains_email(req.email@) && !old(users).contains_wallet(
            req.wallet_address@,
        ) ==> {
            &&& r.0 == STATUS_CREATED
            &&& final(users).rows() == old(users).rows().push(
                created_user_view(*req, old(users).next_id, now_ms),
            )
            &&& final(users).next_id == old(users).next_id + 1
            &&& user_public_matches(r.1.user, created_user_view(*req, old(users).next_id, now_ms))
            &&& r.1.user.user_type == req.user_type
            &&& r.1.message@ == "User created successfully!"@
        },
{
    if let Some(_existing) = UserRepository::find_by_email(users, req.email.as_str()) {
        let resp = SignUpResponse {
            user: create_error_user_public(),
            message: "User with this email already exists".to_owned(),
        };
        return (STATUS_CONFLICT, resp);
    }
    if let Some(_existing) = UserRepository::find_by_wallet_address(
        users,
        req.wallet_address.as_str(),
    ) {
        let resp = SignUpResponse {
            user: create_error_user_public(),
            message: "User with this wallet address already exists".to_owned(),
        };
        return (STATUS_CONFLICT, resp);
    }
    let user_type_str = req.user_type.storage_string();
    let db_user = UserRepository::create_user(
        users,
        req.username.as_str(),
        req.email.as_str(),
        req.wallet_address.as_str(),
        user_type_str.as_str(),
        match &req.organization {
            Some(s) => Some(s.as_str()),
            None => None,
        },
        match &req.bio {
            Some(s) => Some(s.as_str()),
            None => None,
        },
        now_ms,
    );
    proof {
        assert(db_user@ == created_user_view(*req, old(users).next_id, now_ms));
        lemma_user_type_round_trip(req.user_type);
    }
    let user_public = create_user_public(&db_user);
    let resp = SignUpResponse { user: user_public, message: "User created successfully!".to_owned() };
    (STATUS_CREATED, resp)
}

} // verus!
