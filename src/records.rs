//! Medical records: pointers to off-ledger content, written once.
use vstd::prelude::*;
use crate::ledger::{find_key, lemma_lookup_at, lemma_lookup_push, Ledger, LedgerView};
use crate::state::{
    within_len, ErrorCode, MedicalRecord, Pubkey, RecordAdded, RecordKey, UserRole, MAX_CID_LEN,
    MAX_METADATA_LEN,
};

verus! {

/// Why `doctor` may not file record `record_counter` of `patient` with
/// content pointer `cid` and `metadata`, if it may not. The content pointer
/// must be non-empty; both strings must fit their bounds.
pub open spec fn add_record_error(
    v: LedgerView,
    doctor: Pubkey,
    patient: Pubkey,
    record_counter: u8,
    cid: String,
    metadata: String,
) -> Option<ErrorCode> {
    if v.user(doctor) is None || v.user(patient) is None {
        Some(ErrorCode::NotFound)
    } else if v.user(doctor).unwrap().role != UserRole::Doctor
        || v.user(patient).unwrap().role != UserRole::Patient {
        Some(ErrorCode::UnauthorizedRole)
    } else if v.record(RecordKey { patient, counter: record_counter }) is Some {
        Some(ErrorCode::AlreadyExists)
    } else if cid@.len() == 0 || cid@.len() > MAX_CID_LEN || metadata@.len() > MAX_METADATA_LEN {
        Some(ErrorCode::InvalidState)
    } else {
        None
    }
}

/// The record that a successful `add_record` files.
pub open spec fn new_record(
    v: LedgerView,
    doctor: Pubkey,
    patient: Pubkey,
    cid: String,
    metadata: String,
    now: i64,
) -> MedicalRecord {
    MedicalRecord {
        doctor,
        patient,
        cid,
        doctor_did: v.user(doctor).unwrap().full_name,
        patient_did: v.user(patient).unwrap().full_name,
        timestamp: now,
        metadata,
    }
}

impl Ledger {
    /// A registered doctor files a record about a registered patient under
    /// (patient, record_counter). The content pointer is kept as given, never
    /// parsed.
    pub fn add_record(
        &mut self,
        doctor: Pubkey,
        patient: Pubkey,
        record_counter: u8,
        cid: String,
        metadata: String,
        now: i64,
    ) -> (r: Result<RecordAdded, ErrorCode>)
        requires
            old(self)@.wf(),
        ensures
            final(self)@.wf(),
            match add_record_error(old(self)@, doctor, patient, record_counter, cid, metadata) {
                Some(e) => r == Err::<RecordAdded, ErrorCode>(e) && final(self)@ == old(self)@,
                None => {
                    let rec = new_record(old(self)@, doctor, patient, cid, metadata, now);
                    let key = RecordKey { patient, counter: record_counter };
                    &&& r is Ok
                    &&& r.unwrap().doctor == doctor
                    &&& r.unwrap().patient == patient
                    &&& r.unwrap().cid == rec.cid
                    &&& r.unwrap().patient_did == rec.patient_did
                    &&& r.unwrap().doctor_did == rec.doctor_did
                    &&& r.unwrap().timestamp == now
                    &&& final(self)@ == (LedgerView { records: old(self)@.records.push((key, rec)), ..old(self)@ })
                    &&& final(self)@.record(key) == Some(rec)
                    &&& forall|k: RecordKey|
                        k != key ==> #[trigger] final(self)@.record(k) == old(self)@.record(k)
                },
            },
    {
        let di = match find_key(&self.users, &doctor) {
            Some(i) => i,
            None => return Err(ErrorCode::NotFound),
        };
        let pi = match find_key(&self.users, &patient) {
            Some(i) => i,
            None => return Err(ErrorCode::NotFound),
        };
        proof {
            lemma_lookup_at(self.users@, di as int);
            lemma_lookup_at(self.users@, pi as int);
        }
        if self.users[di].1.role != UserRole::Doctor || self.users[pi].1.role != UserRole::Patient {
            return Err(ErrorCode::UnauthorizedRole);
        }
        let key = RecordKey { patient, counter: record_counter };
        if let Some(i) = find_key(&self.records, &key) {
            proof {
                lemma_lookup_at(self.records@, i as int);
            }
            return Err(ErrorCode::AlreadyExists);
        }
        // An empty content pointer is one within a bound of zero.
        if within_len(&cid, 0) || !within_len(&cid, MAX_CID_LEN) || !within_len(&metadata, MAX_METADATA_LEN) {
            return Err(ErrorCode::InvalidState);
        }
        let rec = MedicalRecord {
            doctor,
            patient,
            cid,
            doctor_did: self.users[di].1.full_name.clone(),
            patient_did: self.users[pi].1.full_name.clone(),
            timestamp: now,
            metadata,
        };
        let event = RecordAdded {
            doctor,
            patient,
            cid: rec.cid.clone(),
            patient_did: rec.patient_did.clone(),
            doctor_did: rec.doctor_did.clone(),
            timestamp: now,
        };
        proof {
            lemma_lookup_push(self.records@, key, rec);
        }
        self.records.push((key, rec));
        Ok(event)
    }
}

} // verus!
