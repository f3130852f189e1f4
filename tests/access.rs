use medilock::access::check_access;
use medilock::{ErrorCode, Gender, Ledger, LogKey, Pubkey, RecordKey, RequestKey, RequestStatus, UserRole};

const NOW: i64 = 1_700_000_000;

fn key(n: u128) -> Pubkey {
    Pubkey { high: n, low: n * 7 }
}

fn register(l: &mut Ledger, who: Pubkey, name: &str, role: UserRole) {
    l.register(
        who,
        "3201".to_string(),
        name.to_string(),
        "O+".to_string(),
        631152000,
        Gender::Other,
        format!("{}@example.org", name),
        "0812".to_string(),
        role,
        NOW,
    )
    .unwrap();
}

/// Patient P, doctor D and one record of P filed by a treating doctor T.
fn setup() -> (Ledger, Pubkey, Pubkey, RecordKey) {
    let mut l = Ledger::initialize();
    let p = key(1);
    let d = key(2);
    let t = key(3);
    register(&mut l, p, "pat", UserRole::Patient);
    register(&mut l, d, "doc", UserRole::Doctor);
    register(&mut l, t, "treating", UserRole::Doctor);
    l.add_record(t, p, 0, "bafy-record".to_string(), "labs 2024".to_string(), NOW).unwrap();
    (l, p, d, RecordKey { patient: p, counter: 0 })
}

#[test]
fn scenario_approved_request_permits_logged_reads() {
    let (mut l, p, d, rec) = setup();
    let ev = l.request_access(d, p, "labs".to_string(), NOW + 3600, NOW).unwrap();
    assert_eq!(ev.doctor_did, "doc");
    assert_eq!(ev.patient_did, "pat");
    let rk = RequestKey { doctor: d, patient: p };
    assert_eq!(l.get_request(rk).unwrap().status, RequestStatus::Pending);
    let resp = l.respond_access(p, rk, true, NOW + 5).unwrap();
    assert!(resp.approved);
    let req = l.get_request(rk).unwrap();
    assert_eq!(req.status, RequestStatus::Approved);
    assert_eq!(req.responded_at, NOW + 5);

    let logged = l.log_access(d, rec, 1, "read".to_string(), NOW + 10).unwrap();
    assert_eq!(logged.record_cid, "bafy-record");
    assert_eq!(logged.user_did, "doc");
    assert_eq!(l.log_count(), 1);
    assert_eq!(
        l.log_access(d, rec, 1, "read".to_string(), NOW + 11).unwrap_err(),
        ErrorCode::AlreadyExists
    );
    assert_eq!(l.log_count(), 1);
    l.log_access(d, rec, 2, "read".to_string(), NOW + 12).unwrap();
    assert_eq!(l.log_count(), 2);
    let entry = l.get_log(LogKey { record: rec, actor: d, nonce: 2 }).unwrap();
    assert_eq!(entry.timestamp, NOW + 12);
    assert_eq!(entry.action, "read");
}

#[test]
fn scenario_expired_request_gives_access_expired() {
    let (mut l, p, d, rec) = setup();
    l.request_access(d, p, "labs".to_string(), NOW - 1, NOW).unwrap();
    l.respond_access(p, RequestKey { doctor: d, patient: p }, true, NOW).unwrap();
    assert_eq!(
        l.log_access(d, rec, 1, "read".to_string(), NOW).unwrap_err(),
        ErrorCode::AccessExpired
    );
    assert_eq!(l.log_count(), 0);
}

#[test]
fn expiry_equal_to_now_is_expired() {
    let (mut l, p, d, rec) = setup();
    l.request_access(d, p, "labs".to_string(), NOW, NOW - 100).unwrap();
    l.respond_access(p, RequestKey { doctor: d, patient: p }, true, NOW - 50).unwrap();
    assert_eq!(
        l.log_access(d, rec, 1, "read".to_string(), NOW).unwrap_err(),
        ErrorCode::AccessExpired
    );
    l.log_access(d, rec, 1, "read".to_string(), NOW - 1).unwrap();
}

#[test]
fn read_without_request_is_denied() {
    let (mut l, _p, d, rec) = setup();
    assert_eq!(
        l.log_access(d, rec, 1, "read".to_string(), NOW).unwrap_err(),
        ErrorCode::AccessDenied
    );
}

#[test]
fn read_with_pending_or_denied_request_is_denied() {
    let (mut l, p, d, rec) = setup();
    l.request_access(d, p, "labs".to_string(), NOW + 3600, NOW).unwrap();
    assert_eq!(
        l.log_access(d, rec, 1, "read".to_string(), NOW).unwrap_err(),
        ErrorCode::AccessDenied
    );
    l.respond_access(p, RequestKey { doctor: d, patient: p }, false, NOW).unwrap();
    assert_eq!(
        l.get_request(RequestKey { doctor: d, patient: p }).unwrap().status,
        RequestStatus::Denied
    );
    assert_eq!(
        l.log_access(d, rec, 1, "read".to_string(), NOW).unwrap_err(),
        ErrorCode::AccessDenied
    );
}

#[test]
fn patient_reads_own_record() {
    let (mut l, p, _d, rec) = setup();
    let ev = l.log_access(p, rec, 9, "view".to_string(), NOW).unwrap();
    assert_eq!(ev.user_did, "pat");
    assert_eq!(ev.action, "view");
    assert_eq!(l.log_count(), 1);
}

#[test]
fn other_patient_is_denied() {
    let (mut l, _p, _d, rec) = setup();
    let q = key(9);
    register(&mut l, q, "other", UserRole::Patient);
    assert_eq!(
        l.log_access(q, rec, 1, "read".to_string(), NOW).unwrap_err(),
        ErrorCode::AccessDenied
    );
}

#[test]
fn read_of_missing_record_or_by_unknown_actor() {
    let (mut l, p, d, _rec) = setup();
    let missing = RecordKey { patient: p, counter: 5 };
    assert_eq!(
        l.log_access(d, missing, 1, "read".to_string(), NOW).unwrap_err(),
        ErrorCode::NotFound
    );
    let rec = RecordKey { patient: p, counter: 0 };
    assert_eq!(
        l.log_access(key(77), rec, 1, "read".to_string(), NOW).unwrap_err(),
        ErrorCode::NotFound
    );
}

#[test]
fn only_the_patient_may_respond() {
    let (mut l, p, d, _rec) = setup();
    l.request_access(d, p, "labs".to_string(), NOW + 3600, NOW).unwrap();
    let rk = RequestKey { doctor: d, patient: p };
    assert_eq!(l.respond_access(d, rk, true, NOW).unwrap_err(), ErrorCode::UnauthorizedAccess);
    assert_eq!(l.respond_access(key(3), rk, true, NOW).unwrap_err(), ErrorCode::UnauthorizedAccess);
    let req = l.get_request(rk).unwrap();
    assert_eq!(req.status, RequestStatus::Pending);
    assert_eq!(req.responded_at, 0);
}

#[test]
fn answered_request_cannot_be_answered_again() {
    let (mut l, p, d, _rec) = setup();
    l.request_access(d, p, "labs".to_string(), NOW + 3600, NOW).unwrap();
    let rk = RequestKey { doctor: d, patient: p };
    l.respond_access(p, rk, false, NOW).unwrap();
    assert_eq!(l.respond_access(p, rk, true, NOW + 1).unwrap_err(), ErrorCode::InvalidState);
    assert_eq!(l.get_request(rk).unwrap().status, RequestStatus::Denied);
}

#[test]
fn respond_to_missing_request() {
    let (mut l, p, d, _rec) = setup();
    let rk = RequestKey { doctor: d, patient: p };
    assert_eq!(l.respond_access(p, rk, true, NOW).unwrap_err(), ErrorCode::NotFound);
}

#[test]
fn request_access_checks_roles_and_duplicates() {
    let (mut l, p, d, _rec) = setup();
    assert_eq!(
        l.request_access(p, d, "x".to_string(), NOW + 1, NOW).unwrap_err(),
        ErrorCode::UnauthorizedRole
    );
    assert_eq!(
        l.request_access(d, key(3), "x".to_string(), NOW + 1, NOW).unwrap_err(),
        ErrorCode::UnauthorizedRole
    );
    assert_eq!(
        l.request_access(d, key(55), "x".to_string(), NOW + 1, NOW).unwrap_err(),
        ErrorCode::NotFound
    );
    l.request_access(d, p, "labs".to_string(), NOW + 1, NOW).unwrap();
    assert_eq!(
        l.request_access(d, p, "again".to_string(), NOW + 9, NOW).unwrap_err(),
        ErrorCode::AlreadyExists
    );
    let req = l.get_request(RequestKey { doctor: d, patient: p }).unwrap();
    assert_eq!(req.scope, "labs");
    assert_eq!(req.expires_at, NOW + 1);
    assert_eq!(req.requested_at, NOW);
}

#[test]
fn guard_decides_reads() {
    let p = key(1);
    let d = key(2);
    assert_eq!(check_access(p, UserRole::Patient, p, None, NOW), Ok(()));
    assert_eq!(check_access(d, UserRole::Doctor, p, None, NOW), Err(ErrorCode::AccessDenied));
    assert_eq!(
        check_access(d, UserRole::Doctor, p, Some((RequestStatus::Approved, NOW + 1)), NOW),
        Ok(())
    );
    assert_eq!(
        check_access(d, UserRole::Doctor, p, Some((RequestStatus::Approved, NOW)), NOW),
        Err(ErrorCode::AccessExpired)
    );
    assert_eq!(
        check_access(d, UserRole::Doctor, p, Some((RequestStatus::Pending, NOW + 1)), NOW),
        Err(ErrorCode::AccessDenied)
    );
    assert_eq!(
        check_access(d, UserRole::Patient, p, Some((RequestStatus::Approved, NOW + 1)), NOW),
        Err(ErrorCode::AccessDenied)
    );
}

#[test]
fn expired_read_is_refused_before_the_nonce_is_looked_at() {
    let (mut l, p, d, rec) = setup();
    l.request_access(d, p, "labs".to_string(), NOW + 10, NOW).unwrap();
    l.respond_access(p, RequestKey { doctor: d, patient: p }, true, NOW).unwrap();
    l.log_access(d, rec, 1, "read".to_string(), NOW + 5).unwrap();
    assert_eq!(
        l.log_access(d, rec, 1, "read".to_string(), NOW + 10).unwrap_err(),
        ErrorCode::AccessExpired
    );
    assert_eq!(l.log_count(), 1);
}

#[test]
fn request_for_another_patient_does_not_open_this_record() {
    let (mut l, p, d, rec) = setup();
    let q = key(9);
    register(&mut l, q, "other", UserRole::Patient);
    l.request_access(d, q, "labs".to_string(), NOW + 3600, NOW).unwrap();
    l.respond_access(q, RequestKey { doctor: d, patient: q }, true, NOW).unwrap();
    assert_eq!(
        l.log_access(d, rec, 1, "read".to_string(), NOW).unwrap_err(),
        ErrorCode::AccessDenied
    );
    assert_eq!(rec.patient, p);
}

#[test]
fn events_and_entries_name_principals() {
    let (mut l, p, d, rec) = setup();
    let ev = l.request_access(d, p, "labs".to_string(), NOW + 3600, NOW).unwrap();
    assert_eq!((ev.doctor, ev.patient), (d, p));
    let ev = l.respond_access(p, RequestKey { doctor: d, patient: p }, true, NOW).unwrap();
    assert_eq!((ev.doctor, ev.patient), (d, p));
    let ev = l.log_access(d, rec, 3, "read".to_string(), NOW).unwrap();
    assert_eq!(ev.user, d);
    assert_eq!(l.get_log(LogKey { record: rec, actor: d, nonce: 3 }).unwrap().user, d);
    assert_eq!(l.get_record(rec).unwrap().doctor, key(3));
    assert_eq!(l.get_record(rec).unwrap().patient, p);
}

#[test]
fn over_long_scope_and_action_are_refused() {
    let (mut l, p, d, rec) = setup();
    assert_eq!(
        l.request_access(d, p, "s".repeat(65), NOW + 3600, NOW).unwrap_err(),
        ErrorCode::InvalidState
    );
    assert!(l.get_request(RequestKey { doctor: d, patient: p }).is_none());
    l.request_access(d, p, "s".repeat(64), NOW + 3600, NOW).unwrap();
    l.respond_access(p, RequestKey { doctor: d, patient: p }, true, NOW).unwrap();
    assert_eq!(
        l.log_access(d, rec, 1, "a".repeat(33), NOW).unwrap_err(),
        ErrorCode::InvalidState
    );
    assert_eq!(l.log_count(), 0);
    l.log_access(d, rec, 1, "a".repeat(32), NOW).unwrap();
    assert_eq!(l.log_count(), 1);
}
