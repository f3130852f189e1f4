//! Properties that hold across calls and across every reachable state.
use vstd::prelude::*;
use crate::access::respond_access_post;
use crate::ledger::LedgerView;
use crate::log::log_access_post;
use crate::marketplace::{contribute_post, withdraw_post};
use crate::state::{
    AccessLogged, AccessRequestResponded, Contribution, ContributionKey, ErrorCode, LogKey,
    PoolKey, Pubkey, RecordKey, RequestKey, RequestStatus, UserRole, MAX_ACTION_LEN,
};

verus! {

/// No pool of a well-formed ledger has collected more than it needs. Every
/// operation keeps the ledger well-formed, so this holds in every state.
pub proof fn lemma_pool_within_capacity(v: LedgerView, k: PoolKey)
    requires
        v.wf(),
        v.pool(k) is Some,
    ensures
        v.pool(k).unwrap().collected <= v.pool(k).unwrap().total_needed,
{
    let i = choose|i: int| 0 <= i < v.pools.len() && v.pools[i].0 == k;
    assert(v.pools[i].1.collected <= v.pools[i].1.total_needed);
}

/// A contribution to a pool that has collected all it needs is refused with
/// `PoolFull` and changes nothing.
pub proof fn lemma_full_pool_refuses(
    v0: LedgerView,
    v1: LedgerView,
    contributor: Pubkey,
    pool: PoolKey,
    record_id: u64,
    r: Result<Contribution, ErrorCode>,
)
    requires
        v0.wf(),
        v0.pool(pool) is Some,
        v0.pool(pool).unwrap().collected == v0.pool(pool).unwrap().total_needed,
        contribute_post(v0, v1, contributor, pool, record_id, r),
    ensures
        r == Err::<Contribution, ErrorCode>(ErrorCode::PoolFull),
        v1 == v0,
{
}

/// The key of the `i`-th contribution of a run on `pool`.
pub open spec fn run_key(pool: PoolKey, contributors: Seq<Pubkey>, record_ids: Seq<u64>, i: int) -> ContributionKey {
    ContributionKey { pool, record_id: record_ids[i], contributor: contributors[i] }
}

/// `vs` are the states of a run of `contribute` calls on `pool`: call `i`
/// takes `vs[i]` to `vs[i + 1]` and returns `rs[i]`.
pub open spec fn contribute_run(
    vs: Seq<LedgerView>,
    pool: PoolKey,
    contributors: Seq<Pubkey>,
    record_ids: Seq<u64>,
    rs: Seq<Result<Contribution, ErrorCode>>,
) -> bool {
    &&& vs.len() == contributors.len() + 1
    &&& record_ids.len() == contributors.len()
    &&& rs.len() == contributors.len()
    &&& forall|i: int|
        0 <= i < contributors.len() ==> #[trigger] contribute_post(
            vs[i],
            vs[i + 1],
            contributors[i],
            pool,
            record_ids[i],
            rs[i],
        )
}

/// The keys of a run are fresh in its first state and pairwise distinct.
pub open spec fn run_keys_fresh(
    v: LedgerView,
    pool: PoolKey,
    contributors: Seq<Pubkey>,
    record_ids: Seq<u64>,
) -> bool {
    &&& forall|i: int|
        0 <= i < contributors.len() ==> v.contribution(
            #[trigger] run_key(pool, contributors, record_ids, i),
        ) is None
    &&& forall|i: int, j: int|
        0 <= i < contributors.len() && 0 <= j < contributors.len() && i != j ==> run_key(
            pool,
            contributors,
            record_ids,
            i,
        ) != run_key(pool, contributors, record_ids, j)
}

proof fn lemma_run_prefix(
    vs: Seq<LedgerView>,
    pool: PoolKey,
    contributors: Seq<Pubkey>,
    record_ids: Seq<u64>,
    rs: Seq<Result<Contribution, ErrorCode>>,
    k: int,
)
    requires
        vs[0].wf(),
        vs[0].pool(pool) is Some,
        contribute_run(vs, pool, contributors, record_ids, rs),
        run_keys_fresh(vs[0], pool, contributors, record_ids),
        0 <= k <= contributors.len(),
    ensures
        ({
            let p0 = vs[0].pool(pool).unwrap();
            let c = if p0.collected + k < p0.total_needed {
                p0.collected + k
            } else {
                p0.total_needed as int
            };
            &&& vs[k].pool(pool) is Some
            &&& vs[k].pool(pool).unwrap().total_needed == p0.total_needed
            &&& vs[k].pool(pool).unwrap().collected == c
            &&& forall|j: int|
                k <= j < contributors.len() ==> vs[k].contribution(
                    #[trigger] run_key(pool, contributors, record_ids, j),
                ) is None
            &&& forall|i: int|
                0 <= i < k ==> (#[trigger] rs[i] is Ok <==> p0.collected + i < p0.total_needed)
            &&& forall|i: int|
                0 <= i < k && #[trigger] rs[i] is Err ==> rs[i] == Err::<Contribution, ErrorCode>(
                    ErrorCode::PoolFull,
                )
        }),
    decreases k,
{
    let p0 = vs[0].pool(pool).unwrap();
    if k == 0 {
        lemma_pool_within_capacity(vs[0], pool);
    } else {
        let i = k - 1;
        lemma_run_prefix(vs, pool, contributors, record_ids, rs, i);
        assert(contribute_post(vs[i], vs[i + 1], contributors[i], pool, record_ids[i], rs[i]));
        let key = run_key(pool, contributors, record_ids, i);
        assert(vs[i].contribution(key) is None);
        assert forall|j: int| k <= j < contributors.len() implies vs[k].contribution(
            #[trigger] run_key(pool, contributors, record_ids, j),
        ) is None by {
            assert(run_key(pool, contributors, record_ids, j) != key);
            assert(vs[i].contribution(run_key(pool, contributors, record_ids, j)) is None);
        }
    }
}

/// A run of contributions to one pool, each under a fresh key of its own,
/// never overshoots: call `i` succeeds exactly when the pool's count before
/// the run plus `i` is below what it needs, every other call fails with
/// `PoolFull`, and the count ends at the smaller of the two.
pub proof fn lemma_contributions_fill_to_capacity(
    vs: Seq<LedgerView>,
    pool: PoolKey,
    contributors: Seq<Pubkey>,
    record_ids: Seq<u64>,
    rs: Seq<Result<Contribution, ErrorCode>>,
)
    requires
        vs[0].wf(),
        vs[0].pool(pool) is Some,
        contribute_run(vs, pool, contributors, record_ids, rs),
        run_keys_fresh(vs[0], pool, contributors, record_ids),
    ensures
        ({
            let p0 = vs[0].pool(pool).unwrap();
            let n = contributors.len() as int;
            &&& forall|i: int|
                0 <= i < n ==> (#[trigger] rs[i] is Ok <==> p0.collected + i < p0.total_needed)
            &&& forall|i: int|
                0 <= i < n && #[trigger] rs[i] is Err ==> rs[i] == Err::<Contribution, ErrorCode>(
                    ErrorCode::PoolFull,
                )
            &&& vs[n].pool(pool).unwrap().collected == if p0.collected + n < p0.total_needed {
                p0.collected + n
            } else {
                p0.total_needed as int
            }
            &&& vs[n].pool(pool).unwrap().collected <= p0.total_needed
        }),
{
    lemma_run_prefix(vs, pool, contributors, record_ids, rs, contributors.len() as int);
}

/// A contribution is paid at most once: after a successful withdrawal, a
/// second one on the same contribution is refused with `AlreadyPaid` and
/// moves no funds.
pub proof fn lemma_paid_at_most_once(
    v0: LedgerView,
    v1: LedgerView,
    v2: LedgerView,
    caller: Pubkey,
    key: ContributionKey,
    r1: Result<Contribution, ErrorCode>,
    r2: Result<Contribution, ErrorCode>,
)
    requires
        v0.wf(),
        withdraw_post(v0, v1, caller, key, r1),
        r1 is Ok,
        withdraw_post(v1, v2, caller, key, r2),
    ensures
        v1.contribution(key).unwrap().paid,
        r2 == Err::<Contribution, ErrorCode>(ErrorCode::AlreadyPaid),
        v2 == v1,
        v2.balance(caller) == v1.balance(caller),
        v2.escrow(key.pool) == v1.escrow(key.pool),
{
    assert(v1.pools == v0.pools);
}

/// Neither operation that writes contributions ever turns a paid
/// contribution back to unpaid.
pub proof fn lemma_paid_is_permanent(
    v0: LedgerView,
    v1: LedgerView,
    v2: LedgerView,
    caller: Pubkey,
    key: ContributionKey,
    r1: Result<Contribution, ErrorCode>,
    contributor: Pubkey,
    pool: PoolKey,
    record_id: u64,
    r2: Result<Contribution, ErrorCode>,
    k: ContributionKey,
)
    requires
        v0.wf(),
        v0.contribution(k) is Some,
        v0.contribution(k).unwrap().paid,
        withdraw_post(v0, v1, caller, key, r1),
        contribute_post(v0, v2, contributor, pool, record_id, r2),
    ensures
        v1.contribution(k) == v0.contribution(k),
        v2.contribution(k) == v0.contribution(k),
{
}

/// Only the patient named by a request can answer it; any other caller is
/// refused with `UnauthorizedAccess` and the request stays as it was.
pub proof fn lemma_only_patient_responds(
    v0: LedgerView,
    v1: LedgerView,
    caller: Pubkey,
    key: RequestKey,
    approved: bool,
    now: i64,
    r: Result<AccessRequestResponded, ErrorCode>,
)
    requires
        v0.wf(),
        v0.request(key) is Some,
        respond_access_post(v0, v1, caller, key, approved, now, r),
    ensures
        r is Ok ==> caller == key.patient,
        caller != key.patient ==> r == Err::<AccessRequestResponded, ErrorCode>(
            ErrorCode::UnauthorizedAccess,
        ) && v1.request(key) == v0.request(key),
{
}

/// A doctor's read of a patient's record is refused with `AccessDenied`
/// when the doctor has no approved request for that patient, and with
/// `AccessExpired` when the approved request has expired, whatever the
/// nonce. Otherwise it is granted unless the log key is taken or the action
/// is over its bound; a refused read writes nothing.
pub proof fn lemma_doctor_read_decision(
    v0: LedgerView,
    v1: LedgerView,
    actor: Pubkey,
    record: RecordKey,
    nonce: u8,
    action: String,
    now: i64,
    r: Result<AccessLogged, ErrorCode>,
)
    requires
        v0.wf(),
        v0.record(record) is Some,
        v0.user(actor) is Some,
        v0.user(actor).unwrap().role == UserRole::Doctor,
        log_access_post(v0, v1, actor, record, nonce, action, now, r),
    ensures
        ({
            let req = v0.request(RequestKey { doctor: actor, patient: record.patient });
            let approved = req is Some && req.unwrap().status == RequestStatus::Approved;
            &&& r is Ok <==> (approved && req.unwrap().expires_at > now && v0.log(
                LogKey { record, actor, nonce },
            ) is None && action@.len() <= MAX_ACTION_LEN)
            &&& r == Err::<AccessLogged, ErrorCode>(ErrorCode::AccessExpired) <==> (approved
                && req.unwrap().expires_at <= now)
            &&& r == Err::<AccessLogged, ErrorCode>(ErrorCode::AccessDenied) <==> !approved
        }),
        r is Ok ==> v1.logs.len() == v0.logs.len() + 1,
        r is Err ==> v1 == v0,
{
    let i = choose|i: int| 0 <= i < v0.records.len() && v0.records[i].0 == record;
    assert(v0.has_role(v0.records[i].0.patient, UserRole::Patient));
    assert(actor != record.patient);
}

} // verus!
