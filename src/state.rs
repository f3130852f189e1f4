//! Entities, keys, events and error kinds of the ledger.
use vstd::prelude::*;
use vstd::string::StrSliceExecFns;

verus! {

/// Longest national identity number of a profile, in characters.
pub const MAX_NIK_LEN: usize = 16;
/// Longest full name of a profile.
pub const MAX_NAME_LEN: usize = 64;
/// Longest blood type of a profile.
pub const MAX_BLOOD_TYPE_LEN: usize = 3;
/// Longest e-mail address of a profile.
pub const MAX_EMAIL_LEN: usize = 64;
/// Longest phone number of a profile.
pub const MAX_PHONE_LEN: usize = 16;
/// Longest content pointer of a medical record.
pub const MAX_CID_LEN: usize = 64;
/// Longest metadata of a medical record.
pub const MAX_METADATA_LEN: usize = 256;
/// Longest scope of an access request.
pub const MAX_SCOPE_LEN: usize = 64;
/// Longest action description of a log entry.
pub const MAX_ACTION_LEN: usize = 32;
/// Longest name of a data pool.
pub const MAX_POOL_NAME_LEN: usize = 64;
/// Longest description of a data pool.
pub const MAX_DESCRIPTION_LEN: usize = 200;

/// Whether `s` has at most `max` characters.
pub fn within_len(s: &String, max: usize) -> (r: bool)
    ensures
        r == (s@.len() <= max),
{
    s.as_str().unicode_len() <= max
}

/// An authenticated principal: the 32 bytes of its public key, read as two
/// big-endian halves.
#[derive(Clone, Copy, Debug, PartialEq, Eq, Structural)]
pub struct Pubkey {
    pub high: u128,
    pub low: u128,
}

/// The fixed role of a registered participant.
#[derive(Clone, Copy, Debug, PartialEq, Eq, Structural)]
pub enum UserRole {
    Patient,
    Doctor,
}

/// Descriptive gender attribute of a profile.
#[derive(Clone, Copy, Debug, PartialEq, Eq, Structural)]
pub enum Gender {
    Male,
    Female,
    Other,
}

/// Lifecycle state of an access request.
#[derive(Clone, Copy, Debug, PartialEq, Eq, Structural)]
pub enum RequestStatus {
    Pending,
    Approved,
    Denied,
}

/// Every way an operation on the ledger can be refused.
#[derive(Clone, Copy, Debug, PartialEq, Eq, Structural)]
pub enum ErrorCode {
    NotFound,
    AlreadyExists,
    AlreadyRegistered,
    UnauthorizedRole,
    UnauthorizedAccess,
    AccessDenied,
    AccessExpired,
    PoolFull,
    AlreadyPaid,
    /// The operation does not fit the entity's lifecycle state, or an input
    /// is empty where it must not be or longer than its declared bound.
    InvalidState,
    InsufficientEscrow,
    BalanceOverflow,
}

/// Keys that executable code can compare for equality.
pub trait KeyEq: Sized {
    fn key_eq(&self, o: &Self) -> (r: bool)
        ensures
            r == (*self == *o),
    ;
}

impl KeyEq for Pubkey {
    fn key_eq(&self, o: &Self) -> (r: bool) {
        *self == *o
    }
}

/// A medical record is addressed by its patient and a per-patient counter.
#[derive(Clone, Copy, Debug, PartialEq, Eq, Structural)]
pub struct RecordKey {
    pub patient: Pubkey,
    pub counter: u8,
}

impl KeyEq for RecordKey {
    fn key_eq(&self, o: &Self) -> (r: bool) {
        *self == *o
    }
}

/// An access request is addressed by the ordered pair (doctor, patient).
#[derive(Clone, Copy, Debug, PartialEq, Eq, Structural)]
pub struct RequestKey {
    pub doctor: Pubkey,
    pub patient: Pubkey,
}

impl KeyEq for RequestKey {
    fn key_eq(&self, o: &Self) -> (r: bool) {
        *self == *o
    }
}

/// A log entry is addressed by the record read, the reader and a nonce that
/// the reader picks to tell repeated reads apart.
#[derive(Clone, Copy, Debug, PartialEq, Eq, Structural)]
pub struct LogKey {
    pub record: RecordKey,
    pub actor: Pubkey,
    pub nonce: u8,
}

impl KeyEq for LogKey {
    fn key_eq(&self, o: &Self) -> (r: bool) {
        *self == *o
    }
}

/// A data pool is addressed by its creator and a creator-chosen id.
#[derive(Clone, Copy, Debug, PartialEq, Eq, Structural)]
pub struct PoolKey {
    pub creator: Pubkey,
    pub id: u64,
}

impl KeyEq for PoolKey {
    fn key_eq(&self, o: &Self) -> (r: bool) {
        *self == *o
    }
}

/// A contribution is addressed by its pool, the record offered and the
/// contributor.
#[derive(Clone, Copy, Debug, PartialEq, Eq, Structural)]
pub struct ContributionKey {
    pub pool: PoolKey,
    pub record_id: u64,
    pub contributor: Pubkey,
}

impl KeyEq for ContributionKey {
    fn key_eq(&self, o: &Self) -> (r: bool) {
        *self == *o
    }
}

/// A registered participant.
#[derive(Debug)]
pub struct User {
    pub public_key: Pubkey,
    pub nik: String,
    pub full_name: String,
    pub blood_type: String,
    pub birthdate: i64,
    pub gender: Gender,
    pub email: String,
    pub phone_number: String,
    pub role: UserRole,
    pub created_at: i64,
}

/// A pointer to off-ledger medical data, with its author and subject.
#[derive(Debug)]
pub struct MedicalRecord {
    pub doctor: Pubkey,
    pub patient: Pubkey,
    pub cid: String,
    pub doctor_did: String,
    pub patient_did: String,
    pub timestamp: i64,
    pub metadata: String,
}

/// A doctor's request to read a patient's records.
#[derive(Debug)]
pub struct AccessRequest {
    pub doctor_did: String,
    pub patient_did: String,
    pub requested_at: i64,
    pub scope: String,
    pub expires_at: i64,
    pub status: RequestStatus,
    pub responded_at: i64,
}

/// One permitted read of a record.
#[derive(Debug)]
pub struct AccessLog {
    pub user: Pubkey,
    pub record_cid: String,
    pub user_did: String,
    pub timestamp: i64,
    pub action: String,
}

/// Demand for records: each contributed record is paid `price_per_record`.
#[derive(Debug)]
pub struct DataPool {
    pub id: u64,
    pub creator: Pubkey,
    pub name: String,
    pub description: String,
    pub price_per_record: u64,
    pub total_needed: u64,
    pub collected: u64,
}

/// One record offered to a pool.
#[derive(Clone, Copy, Debug, PartialEq, Eq, Structural)]
pub struct Contribution {
    pub id: u64,
    pub pool_id: u64,
    pub record_id: u64,
    pub contributor: Pubkey,
    pub paid: bool,
}

/// Notification of a registration.
#[derive(Debug)]
pub struct UserRegistered {
    pub public_key: Pubkey,
    pub nik: String,
    pub full_name: String,
    pub role: UserRole,
    pub email: String,
    pub timestamp: i64,
}

/// Notification of a new medical record.
#[derive(Debug)]
pub struct RecordAdded {
    pub doctor: Pubkey,
    pub patient: Pubkey,
    pub cid: String,
    pub patient_did: String,
    pub doctor_did: String,
    pub timestamp: i64,
}

/// Notification of a new access request.
#[derive(Debug)]
pub struct AccessRequested {
    pub doctor: Pubkey,
    pub patient: Pubkey,
    pub doctor_did: String,
    pub patient_did: String,
    pub timestamp: i64,
}

/// Notification of a patient's answer to an access request.
#[derive(Debug)]
pub struct AccessRequestResponded {
    pub doctor: Pubkey,
    pub patient: Pubkey,
    pub doctor_did: String,
    pub patient_did: String,
    pub approved: bool,
    pub timestamp: i64,
}

/// Notification of a logged read.
#[derive(Debug)]
pub struct AccessLogged {
    pub user: Pubkey,
    pub record_cid: String,
    pub user_did: String,
    pub action: String,
    pub timestamp: i64,
}

} // verus!
