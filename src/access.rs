//! Access requests: who may ask, who may answer, and who may read.
use vstd::prelude::*;
use crate::ledger::{find_key, lemma_lookup_at, lemma_lookup_push, lemma_lookup_update, Ledger, LedgerView};
use crate::state::{
    within_len, AccessRequest, AccessRequestResponded, AccessRequested, ErrorCode, Pubkey,
    RequestKey, RequestStatus, UserRole, MAX_SCOPE_LEN,
};

verus! {

/// Whether `actor` may read a record of `patient` at time `now`. The patient
/// always may. A doctor may while its request for the patient (`grant`: its
/// status and expiry) is approved and has not expired; an approved request
/// that has expired is told apart from one that was never approved.
pub open spec fn access_decision(
    actor: Pubkey,
    actor_role: UserRole,
    patient: Pubkey,
    grant: Option<(RequestStatus, i64)>,
    now: i64,
) -> Result<(), ErrorCode> {
    if actor == patient {
        Ok(())
    } else if actor_role != UserRole::Doctor {
        Err(ErrorCode::AccessDenied)
    } else {
        match grant {
            None => Err(ErrorCode::AccessDenied),
            Some((status, expires_at)) => if status != RequestStatus::Approved {
                Err(ErrorCode::AccessDenied)
            } else if expires_at <= now {
                Err(ErrorCode::AccessExpired)
            } else {
                Ok(())
            },
        }
    }
}

/// The status and expiry of the request filed under `k`, if any.
pub open spec fn grant_of(v: LedgerView, k: RequestKey) -> Option<(RequestStatus, i64)> {
    match v.request(k) {
        Some(r) => Some((r.status, r.expires_at)),
        None => None,
    }
}

/// Decides a read as `access_decision` says.
pub fn check_access(
    actor: Pubkey,
    actor_role: UserRole,
    patient: Pubkey,
    grant: Option<(RequestStatus, i64)>,
    now: i64,
) -> (r: Result<(), ErrorCode>)
    ensures
        r == access_decision(actor, actor_role, patient, grant, now),
{
    if actor == patient {
        return Ok(());
    }
    if actor_role != UserRole::Doctor {
        return Err(ErrorCode::AccessDenied);
    }
    match grant {
        None => Err(ErrorCode::AccessDenied),
        Some((status, expires_at)) => {
            if status != RequestStatus::Approved {
                Err(ErrorCode::AccessDenied)
            } else if expires_at <= now {
                Err(ErrorCode::AccessExpired)
            } else {
                Ok(())
            }
        },
    }
}

/// Why a request by `doctor` for `patient` covering `scope` is refused, if
/// it is.
pub open spec fn request_access_error(v: LedgerView, doctor: Pubkey, patient: Pubkey, scope: String) -> Option<
    ErrorCode,
> {
    if v.user(doctor) is None || v.user(patient) is None {
        Some(ErrorCode::NotFound)
    } else if v.user(doctor).unwrap().role != UserRole::Doctor
        || v.user(patient).unwrap().role != UserRole::Patient {
        Some(ErrorCode::UnauthorizedRole)
    } else if v.request(RequestKey { doctor, patient }) is Some {
        Some(ErrorCode::AlreadyExists)
    } else if scope@.len() > MAX_SCOPE_LEN {
        Some(ErrorCode::InvalidState)
    } else {
        None
    }
}

/// The pending request that a successful `request_access` files.
pub open spec fn new_request(
    v: LedgerView,
    doctor: Pubkey,
    patient: Pubkey,
    scope: String,
    expiration: i64,
    now: i64,
) -> AccessRequest {
    AccessRequest {
        doctor_did: v.user(doctor).unwrap().full_name,
        patient_did: v.user(patient).unwrap().full_name,
        requested_at: now,
        scope,
        expires_at: expiration,
        status: RequestStatus::Pending,
        responded_at: 0,
    }
}

/// Why `caller` may not answer the request under `key`, if it may not.
pub open spec fn respond_access_error(v: LedgerView, caller: Pubkey, key: RequestKey) -> Option<ErrorCode> {
    if v.request(key) is None {
        Some(ErrorCode::NotFound)
    } else if caller != key.patient {
        Some(ErrorCode::UnauthorizedAccess)
    } else if v.request(key).unwrap().status != RequestStatus::Pending {
        Some(ErrorCode::InvalidState)
    } else {
        None
    }
}

/// What a `respond_access` call returned (`r`) and left behind (`v1`) given
/// the state before it (`v0`).
pub open spec fn respond_access_post(
    v0: LedgerView,
    v1: LedgerView,
    caller: Pubkey,
    key: RequestKey,
    approved: bool,
    now: i64,
    r: Result<AccessRequestResponded, ErrorCode>,
) -> bool {
    match respond_access_error(v0, caller, key) {
        Some(e) => r == Err::<AccessRequestResponded, ErrorCode>(e) && v1 == v0,
        None => {
            let before = v0.request(key).unwrap();
            let status = if approved {
                RequestStatus::Approved
            } else {
                RequestStatus::Denied
            };
            &&& r is Ok
            &&& r.unwrap().doctor == key.doctor
            &&& r.unwrap().patient == key.patient
            &&& r.unwrap().doctor_did == before.doctor_did
            &&& r.unwrap().patient_did == before.patient_did
            &&& r.unwrap().approved == approved
            &&& r.unwrap().timestamp == now
            &&& v1.request(key) == Some(
                AccessRequest { status, responded_at: now, ..before },
            )
            &&& forall|k: RequestKey|
                k != key ==> #[trigger] v1.request(k) == v0.request(k)
            &&& v1 == (LedgerView { requests: v1.requests, ..v0 })
        },
    }
}

impl Ledger {
    /// A registered doctor asks a registered patient for access until
    /// `expiration`; the request starts pending. At most one request exists
    /// per (doctor, patient).
    pub fn request_access(
        &mut self,
        doctor: Pubkey,
        patient: Pubkey,
        scope: String,
        expiration: i64,
        now: i64,
    ) -> (r: Result<AccessRequested, ErrorCode>)
        requires
            old(self)@.wf(),
        ensures
            final(self)@.wf(),
            match request_access_error(old(self)@, doctor, patient, scope) {
                Some(e) => r == Err::<AccessRequested, ErrorCode>(e) && final(self)@ == old(self)@,
                None => {
                    let req = new_request(old(self)@, doctor, patient, scope, expiration, now);
                    &&& r is Ok
                    &&& r.unwrap().doctor == doctor
                    &&& r.unwrap().patient == patient
                    &&& r.unwrap().doctor_did == req.doctor_did
                    &&& r.unwrap().patient_did == req.patient_did
                    &&& r.unwrap().timestamp == now
                    &&& final(self)@ == (LedgerView {
                        requests: old(self)@.requests.push((RequestKey { doctor, patient }, req)),
                        ..old(self)@
                    })
                    &&& final(self)@.request(RequestKey { doctor, patient }) == Some(req)
                    &&& forall|k: RequestKey|
                        k != (RequestKey { doctor, patient }) ==> #[trigger] final(self)@.request(k)
                            == old(self)@.request(k)
                },
            },
    {
        let di = match find_key(&self.users, &doctor) {
            Some(i) => i,
            None => return Err(ErrorCode::NotFound),
        };
        let pi = match find_key(&self.users, &patient) {
            Some(i) => i,
            None => return Err(ErrorCode::NotFound),
        };
        proof {
            lemma_lookup_at(self.users@, di as int);
            lemma_lookup_at(self.users@, pi as int);
        }
        if self.users[di].1.role != UserRole::Doctor || self.users[pi].1.role != UserRole::Patient {
            return Err(ErrorCode::UnauthorizedRole);
        }
        let key = RequestKey { doctor, patient };
        if let Some(i) = find_key(&self.requests, &key) {
            proof {
                lemma_lookup_at(self.requests@, i as int);
            }
            return Err(ErrorCode::AlreadyExists);
        }
        if !within_len(&scope, MAX_SCOPE_LEN) {
            return Err(ErrorCode::InvalidState);
        }
        let doctor_did = self.users[di].1.full_name.clone();
        let patient_did = self.users[pi].1.full_name.clone();
        let event = AccessRequested {
            doctor,
            patient,
            doctor_did: doctor_did.clone(),
            patient_did: patient_did.clone(),
            timestamp: now,
        };
        let req = AccessRequest {
            doctor_did,
            patient_did,
            requested_at: now,
            scope,
            expires_at: expiration,
            status: RequestStatus::Pending,
            responded_at: 0,
        };
        proof {
            lemma_lookup_push(self.requests@, key, req);
        }
        self.requests.push((key, req));
        Ok(event)
    }

    /// The patient named by a pending request approves or denies it. Only
    /// that patient may answer, and only once.
    pub fn respond_access(
        &mut self,
        caller: Pubkey,
        key: RequestKey,
        approved: bool,
        now: i64,
    ) -> (r: Result<AccessRequestResponded, ErrorCode>)
        requires
            old(self)@.wf(),
        ensures
            final(self)@.wf(),
            respond_access_post(old(self)@, final(self)@, caller, key, approved, now, r),

    {
        let i = match find_key(&self.requests, &key) {
            Some(i) => i,
            None => return Err(ErrorCode::NotFound),
        };
        proof {
            lemma_lookup_at(self.requests@, i as int);
        }
        if caller != key.patient {
            return Err(ErrorCode::UnauthorizedAccess);
        }
        if self.requests[i].1.status != RequestStatus::Pending {
            return Err(ErrorCode::InvalidState);
        }
        let status = if approved {
            RequestStatus::Approved
        } else {
            RequestStatus::Denied
        };
        let ghost before = self.requests@[i as int].1;
        proof {
            lemma_lookup_update(
                self.requests@,
                i as int,
                AccessRequest { status, responded_at: now, ..before },
            );
        }
        self.requests[i].1.status = status;
        self.requests[i].1.responded_at = now;
        let event = AccessRequestResponded {
            doctor: key.doctor,
            patient: key.patient,
            doctor_did: self.requests[i].1.doctor_did.clone(),
            patient_did: self.requests[i].1.patient_did.clone(),
            approved,
            timestamp: now,
        };
        assert(self.requests@ =~= old(self).requests@.update(
            i as int,
            (key, AccessRequest { status, responded_at: now, ..before }),
        ));
        Ok(event)
    }
}

} // verus!
