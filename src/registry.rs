//! Registration of participants: one profile per principal, written once.
use vstd::prelude::*;
use crate::ledger::{find_key, lemma_lookup_at, lemma_lookup_push, Ledger, LedgerView};
use crate::state::{
    within_len, ErrorCode, Gender, Pubkey, User, UserRegistered, UserRole, MAX_BLOOD_TYPE_LEN,
    MAX_EMAIL_LEN, MAX_NAME_LEN, MAX_NIK_LEN, MAX_PHONE_LEN,
};

verus! {

/// Every profile field fits its declared bound.
pub open spec fn profile_within_bounds(
    nik: String,
    full_name: String,
    blood_type: String,
    email: String,
    phone_number: String,
) -> bool {
    &&& nik@.len() <= MAX_NIK_LEN
    &&& full_name@.len() <= MAX_NAME_LEN
    &&& blood_type@.len() <= MAX_BLOOD_TYPE_LEN
    &&& email@.len() <= MAX_EMAIL_LEN
    &&& phone_number@.len() <= MAX_PHONE_LEN
}

impl Ledger {
    /// Registers `authority` with a fixed role and profile. A principal that
    /// already has a profile is refused, and so is a profile with a field
    /// over its bound.
    pub fn register(
        &mut self,
        authority: Pubkey,
        nik: String,
        full_name: String,
        blood_type: String,
        birthdate: i64,
        gender: Gender,
        email: String,
        phone_number: String,
        role: UserRole,
        now: i64,
    ) -> (r: Result<UserRegistered, ErrorCode>)
        requires
            old(self)@.wf(),
        ensures
            final(self)@.wf(),
            old(self)@.user(authority) is Some ==> r == Err::<UserRegistered, ErrorCode>(
                ErrorCode::AlreadyRegistered,
            ) && final(self)@ == old(self)@,
            old(self)@.user(authority) is None && !profile_within_bounds(
                nik,
                full_name,
                blood_type,
                email,
                phone_number,
            ) ==> r == Err::<UserRegistered, ErrorCode>(ErrorCode::InvalidState) && final(self)@
                == old(self)@,
            old(self)@.user(authority) is None && profile_within_bounds(
                nik,
                full_name,
                blood_type,
                email,
                phone_number,
            ) ==> {
                let user = User {
                    public_key: authority,
                    nik,
                    full_name,
                    blood_type,
                    birthdate,
                    gender,
                    email,
                    phone_number,
                    role,
                    created_at: now,
                };
                &&& r is Ok
                &&& r.unwrap().public_key == authority
                &&& r.unwrap().nik == nik
                &&& r.unwrap().full_name == full_name
                &&& r.unwrap().role == role
                &&& r.unwrap().email == email
                &&& r.unwrap().timestamp == now
                &&& final(self)@ == (LedgerView { users: old(self)@.users.push((authority, user)), ..old(self)@ })
                &&& final(self)@.user(authority) == Some(user)
                &&& forall|k: Pubkey| k != authority ==> #[trigger] final(self)@.user(k) == old(self)@.user(k)
            },
    {
        if let Some(i) = find_key(&self.users, &authority) {
            proof {
                lemma_lookup_at(self.users@, i as int);
            }
            return Err(ErrorCode::AlreadyRegistered);
        }
        if !within_len(&nik, MAX_NIK_LEN) || !within_len(&full_name, MAX_NAME_LEN) || !within_len(
            &blood_type,
            MAX_BLOOD_TYPE_LEN,
        ) || !within_len(&email, MAX_EMAIL_LEN) || !within_len(&phone_number, MAX_PHONE_LEN) {
            return Err(ErrorCode::InvalidState);
        }
        let event = UserRegistered {
            public_key: authority,
            nik: nik.clone(),
            full_name: full_name.clone(),
            role,
            email: email.clone(),
            timestamp: now,
        };
        let user = User {
            public_key: authority,
            nik,
            full_name,
            blood_type,
            birthdate,
            gender,
            email,
            phone_number,
            role,
            created_at: now,
        };
        proof {
            lemma_lookup_push(self.users@, authority, user);
        }
        self.users.push((authority, user));
        Ok(event)
    }
}

} // verus!
