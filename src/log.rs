//! The append-only log of permitted reads.
use vstd::prelude::*;
use crate::access::{access_decision, check_access, grant_of};
use crate::ledger::{find_key, lemma_lookup_at, lemma_lookup_push, Ledger, LedgerView};
use crate::state::{
    within_len, AccessLog, AccessLogged, ErrorCode, LogKey, Pubkey, RecordKey, RequestKey,
    MAX_ACTION_LEN,
};

verus! {

/// Why a read of `record` by `actor` with `nonce` and `action` is refused,
/// if it is: the record and the reader must exist, `access_decision` must
/// permit the read, the log key must be fresh and the action must fit its
/// bound.
pub open spec fn log_access_error(
    v: LedgerView,
    actor: Pubkey,
    record: RecordKey,
    nonce: u8,
    action: String,
    now: i64,
) -> Option<ErrorCode> {
    if v.record(record) is None || v.user(actor) is None {
        Some(ErrorCode::NotFound)
    } else {
        match access_decision(
            actor,
            v.user(actor).unwrap().role,
            record.patient,
            grant_of(v, RequestKey { doctor: actor, patient: record.patient }),
            now,
        ) {
            Err(e) => Some(e),
            Ok(()) => if v.log(LogKey { record, actor, nonce }) is Some {
                Some(ErrorCode::AlreadyExists)
            } else if action@.len() > MAX_ACTION_LEN {
                Some(ErrorCode::InvalidState)
            } else {
                None
            },
        }
    }
}

/// The entry that a permitted read appends.
pub open spec fn new_log(v: LedgerView, actor: Pubkey, record: RecordKey, action: String, now: i64) -> AccessLog {
    AccessLog {
        user: actor,
        record_cid: v.record(record).unwrap().cid,
        user_did: v.user(actor).unwrap().full_name,
        timestamp: now,
        action,
    }
}

/// What a `log_access` call returned (`r`) and left behind (`v1`) given the
/// state before it (`v0`).
pub open spec fn log_access_post(
    v0: LedgerView,
    v1: LedgerView,
    actor: Pubkey,
    record: RecordKey,
    nonce: u8,
    action: String,
    now: i64,
    r: Result<AccessLogged, ErrorCode>,
) -> bool {
    match log_access_error(v0, actor, record, nonce, action, now) {
        Some(e) => r == Err::<AccessLogged, ErrorCode>(e) && v1 == v0,
        None => {
            let entry = new_log(v0, actor, record, action, now);
            let key = LogKey { record, actor, nonce };
            &&& r is Ok
            &&& r.unwrap().user == actor
            &&& r.unwrap().record_cid == entry.record_cid
            &&& r.unwrap().user_did == entry.user_did
            &&& r.unwrap().action == entry.action
            &&& r.unwrap().timestamp == now
            &&& v1 == (LedgerView {
                logs: v0.logs.push((key, entry)),
                ..v0
            })
            &&& v1.log(key) == Some(entry)
            &&& forall|k: LogKey| k != key ==> #[trigger] v1.log(k) == v0.log(k)
        },
    }
}

impl Ledger {
    /// A participant reads a record: the read is checked against the
    /// record's patient and, for a doctor, its access request; a permitted
    /// read appends one log entry under (record, actor, nonce). A read that
    /// is not permitted is refused whatever the nonce.
    pub fn log_access(
        &mut self,
        actor: Pubkey,
        record: RecordKey,
        nonce: u8,
        action: String,
        now: i64,
    ) -> (r: Result<AccessLogged, ErrorCode>)
        requires
            old(self)@.wf(),
        ensures
            final(self)@.wf(),
            log_access_post(old(self)@, final(self)@, actor, record, nonce, action, now, r),

    {
        let ri = match find_key(&self.records, &record) {
            Some(i) => i,
            None => return Err(ErrorCode::NotFound),
        };
        let ui = match find_key(&self.users, &actor) {
            Some(i) => i,
            None => return Err(ErrorCode::NotFound),
        };
        proof {
            lemma_lookup_at(self.records@, ri as int);
            lemma_lookup_at(self.users@, ui as int);
        }
        let request_key = RequestKey { doctor: actor, patient: record.patient };
        let grant = match find_key(&self.requests, &request_key) {
            Some(i) => {
                proof {
                    lemma_lookup_at(self.requests@, i as int);
                }
                Some((self.requests[i].1.status, self.requests[i].1.expires_at))
            },
            None => None,
        };
        check_access(actor, self.users[ui].1.role, record.patient, grant, now)?;
        let key = LogKey { record, actor, nonce };
        if let Some(i) = find_key(&self.logs, &key) {
            proof {
                lemma_lookup_at(self.logs@, i as int);
            }
            return Err(ErrorCode::AlreadyExists);
        }
        if !within_len(&action, MAX_ACTION_LEN) {
            return Err(ErrorCode::InvalidState);
        }
        let entry = AccessLog {
            user: actor,
            record_cid: self.records[ri].1.cid.clone(),
            user_did: self.users[ui].1.full_name.clone(),
            timestamp: now,
            action,
        };
        let event = AccessLogged {
            user: actor,
            record_cid: entry.record_cid.clone(),
            user_did: entry.user_did.clone(),
            action: entry.action.clone(),
            timestamp: now,
        };
        proof {
            lemma_lookup_push(self.logs@, key, entry);
        }
        self.logs.push((key, entry));
        Ok(event)
    }
}

} // verus!
