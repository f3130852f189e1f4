//! Authorization and settlement ledger for medical-record access.
//!
//! Participants register once with a fixed role; doctors file medical records
//! for patients and ask patients for read access; every permitted read is
//! logged; data pools collect contributions that are paid out of a pool's
//! escrow at most once each.
use vstd::prelude::*;

pub mod state;
pub mod ledger;
pub mod access;
pub mod log;
pub mod marketplace;
pub mod records;
pub mod registry;
pub mod laws;

pub use state::{
    AccessLog, AccessLogged, AccessRequest, AccessRequestResponded, AccessRequested,
    Contribution, ContributionKey, DataPool, ErrorCode, Gender, LogKey, MedicalRecord, PoolKey,
    Pubkey, RecordAdded, RecordKey, RequestKey, RequestStatus, User, UserRegistered, UserRole,
};
pub use ledger::{Ledger, LedgerView};
