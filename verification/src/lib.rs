//! Community-management library: member signup with roles and wallet
//! addresses, and community events with KPI-planning metadata.
//!
//! The crate verifies the validation and type-mapping discipline between the
//! wire shapes and the storage rows: the enumeration codecs with their
//! fallback policies, the uniqueness-checking signup flow, the event
//! creation and listing flows over an in-memory store, and the client-side
//! form-state registry.

pub mod codec;
pub mod dates;
pub mod dto;
pub mod form;
pub mod handlers;
pub mod models;
pub mod numeral;
pub mod store;

use vstd::prelude::*;

verus! {

/// HTTP status of a successful read.
pub const STATUS_OK: u16 = 200;

/// HTTP status of a successful creation.
pub const STATUS_CREATED: u16 = 201;

/// HTTP status of a request the caller must correct.
pub const STATUS_BAD_REQUEST: u16 = 400;

/// HTTP status of a request that conflicts with existing records.
pub const STATUS_CONFLICT: u16 = 409;

/// HTTP status of a storage failure.
pub const STATUS_INTERNAL_SERVER_ERROR: u16 = 500;

} // verus!
