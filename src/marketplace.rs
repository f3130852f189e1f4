//! Data pools, contributions and their settlement from escrow.
use vstd::prelude::*;
use crate::ledger::{
    find_key, get_amount, lemma_lookup_at, lemma_lookup_push, lemma_lookup_update, set_amount,
    Ledger, LedgerView,
};
use crate::state::{
    within_len, Contribution, ContributionKey, DataPool, ErrorCode, PoolKey, Pubkey,
    MAX_DESCRIPTION_LEN, MAX_POOL_NAME_LEN,
};

verus! {

/// The pool that a successful `add_pool` opens: nothing collected yet.
pub open spec fn new_pool(
    creator: Pubkey,
    id: u64,
    name: String,
    description: String,
    price_per_record: u64,
    total_needed: u64,
) -> DataPool {
    DataPool { id, creator, name, description, price_per_record, total_needed, collected: 0 }
}

/// Why a contribution of `record_id` to `pool` by `contributor` is refused,
/// if it is. A full pool refuses every contribution.
pub open spec fn contribute_error(
    v: LedgerView,
    contributor: Pubkey,
    pool: PoolKey,
    record_id: u64,
) -> Option<ErrorCode> {
    if v.pool(pool) is None {
        Some(ErrorCode::NotFound)
    } else if v.pool(pool).unwrap().collected >= v.pool(pool).unwrap().total_needed {
        Some(ErrorCode::PoolFull)
    } else if v.contribution(ContributionKey { pool, record_id, contributor }) is Some {
        Some(ErrorCode::AlreadyExists)
    } else {
        None
    }
}

/// Why `caller` may not be paid for the contribution under `key`, if it may
/// not: only its contributor is paid, only once, and only while the pool's
/// escrow covers the price and the payee's balance can hold it.
pub open spec fn withdraw_error(v: LedgerView, caller: Pubkey, key: ContributionKey) -> Option<ErrorCode> {
    if v.contribution(key) is None || v.pool(key.pool) is None {
        Some(ErrorCode::NotFound)
    } else if caller != v.contribution(key).unwrap().contributor {
        Some(ErrorCode::UnauthorizedAccess)
    } else if v.contribution(key).unwrap().paid {
        Some(ErrorCode::AlreadyPaid)
    } else if v.escrow(key.pool) < v.pool(key.pool).unwrap().price_per_record {
        Some(ErrorCode::InsufficientEscrow)
    } else if v.balance(caller) + v.pool(key.pool).unwrap().price_per_record > u64::MAX {
        Some(ErrorCode::BalanceOverflow)
    } else {
        None
    }
}

/// Why `caller` may not add `amount` to the escrow of `pool`, if it may not.
pub open spec fn fund_escrow_error(v: LedgerView, caller: Pubkey, pool: PoolKey, amount: u64) -> Option<ErrorCode> {
    if v.pool(pool) is None {
        Some(ErrorCode::NotFound)
    } else if caller != pool.creator {
        Some(ErrorCode::UnauthorizedAccess)
    } else if v.escrow(pool) + amount > u64::MAX {
        Some(ErrorCode::BalanceOverflow)
    } else {
        None
    }
}

/// What a `contribute` call returned (`r`) and left behind (`v1`) given the
/// state before it (`v0`).
pub open spec fn contribute_post(
    v0: LedgerView,
    v1: LedgerView,
    contributor: Pubkey,
    pool: PoolKey,
    record_id: u64,
    r: Result<Contribution, ErrorCode>,
) -> bool {
    match contribute_error(v0, contributor, pool, record_id) {
        Some(e) => r == Err::<Contribution, ErrorCode>(e) && v1 == v0,
        None => {
            let before = v0.pool(pool).unwrap();
            let key = ContributionKey { pool, record_id, contributor };
            let c = Contribution {
                id: before.collected,
                pool_id: pool.id,
                record_id,
                contributor,
                paid: false,
            };
            &&& r == Ok::<Contribution, ErrorCode>(c)
            &&& v1.contribution(key) == Some(c)
            &&& forall|k: ContributionKey|
                k != key ==> #[trigger] v1.contribution(k) == v0.contribution(k)
            &&& v1.contributions == v0.contributions.push((key, c))
            &&& v1.pool(pool) == Some(
                DataPool { collected: (before.collected + 1) as u64, ..before },
            )
            &&& forall|k: PoolKey| k != pool ==> #[trigger] v1.pool(k) == v0.pool(k)
            &&& v1 == (LedgerView {
                pools: v1.pools,
                contributions: v1.contributions,
                ..v0
            })
        },
    }
}

/// What a `withdraw` call returned (`r`) and left behind (`v1`) given the
/// state before it (`v0`).
pub open spec fn withdraw_post(
    v0: LedgerView,
    v1: LedgerView,
    caller: Pubkey,
    key: ContributionKey,
    r: Result<Contribution, ErrorCode>,
) -> bool {
    match withdraw_error(v0, caller, key) {
        Some(e) => r == Err::<Contribution, ErrorCode>(e) && v1 == v0,
        None => {
            let c = Contribution { paid: true, ..v0.contribution(key).unwrap() };
            let price = v0.pool(key.pool).unwrap().price_per_record;
            &&& r == Ok::<Contribution, ErrorCode>(c)
            &&& v1.contribution(key) == Some(c)
            &&& forall|k: ContributionKey|
                k != key ==> #[trigger] v1.contribution(k) == v0.contribution(k)
            &&& v1.escrow(key.pool) == v0.escrow(key.pool) - price
            &&& forall|k: PoolKey|
                k != key.pool ==> #[trigger] v1.escrow(k) == v0.escrow(k)
            &&& v1.balance(caller) == v0.balance(caller) + price
            &&& forall|k: Pubkey|
                k != caller ==> #[trigger] v1.balance(k) == v0.balance(k)
            &&& v1 == (LedgerView {
                contributions: v1.contributions,
                escrows: v1.escrows,
                balances: v1.balances,
                ..v0
            })
        },
    }
}

impl Ledger {
    /// Opens a pool under (creator, id) asking for `total_needed` records at
    /// `price_per_record` each. A name or description over its bound is
    /// refused.
    pub fn add_pool(
        &mut self,
        creator: Pubkey,
        id: u64,
        name: String,
        description: String,
        price_per_record: u64,
        total_needed: u64,
    ) -> (r: Result<PoolKey, ErrorCode>)
        requires
            old(self)@.wf(),
        ensures
            final(self)@.wf(),
            old(self)@.pool(PoolKey { creator, id }) is Some ==> r == Err::<PoolKey, ErrorCode>(
                ErrorCode::AlreadyExists,
            ) && final(self)@ == old(self)@,
            old(self)@.pool(PoolKey { creator, id }) is None && (name@.len() > MAX_POOL_NAME_LEN
                || description@.len() > MAX_DESCRIPTION_LEN) ==> r == Err::<PoolKey, ErrorCode>(
                ErrorCode::InvalidState,
            ) && final(self)@ == old(self)@,
            old(self)@.pool(PoolKey { creator, id }) is None && name@.len() <= MAX_POOL_NAME_LEN
                && description@.len() <= MAX_DESCRIPTION_LEN ==> {
                let pool = new_pool(creator, id, name, description, price_per_record, total_needed);
                &&& r == Ok::<PoolKey, ErrorCode>(PoolKey { creator, id })
                &&& final(self)@ == (LedgerView {
                    pools: old(self)@.pools.push((PoolKey { creator, id }, pool)),
                    ..old(self)@
                })
                &&& final(self)@.pool(PoolKey { creator, id }) == Some(pool)
                &&& forall|k: PoolKey|
                    k != (PoolKey { creator, id }) ==> #[trigger] final(self)@.pool(k) == old(self)@.pool(k)
            },
    {
        let key = PoolKey { creator, id };
        if let Some(i) = find_key(&self.pools, &key) {
            proof {
                lemma_lookup_at(self.pools@, i as int);
            }
            return Err(ErrorCode::AlreadyExists);
        }
        if !within_len(&name, MAX_POOL_NAME_LEN) || !within_len(&description, MAX_DESCRIPTION_LEN) {
            return Err(ErrorCode::InvalidState);
        }
        let pool = DataPool { id, creator, name, description, price_per_record, total_needed, collected: 0 };
        proof {
            lemma_lookup_push(self.pools@, key, pool);
        }
        self.pools.push((key, pool));
        Ok(key)
    }

    /// The pool's creator adds `amount` to its escrow; returns the new
    /// escrow.
    pub fn fund_escrow(&mut self, caller: Pubkey, pool: PoolKey, amount: u64) -> (r: Result<u64, ErrorCode>)
        requires
            old(self)@.wf(),
        ensures
            final(self)@.wf(),
            match fund_escrow_error(old(self)@, caller, pool, amount) {
                Some(e) => r == Err::<u64, ErrorCode>(e) && final(self)@ == old(self)@,
                None => {
                    &&& r is Ok
                    &&& r.unwrap() as nat == old(self)@.escrow(pool) + amount
                    &&& final(self)@.escrow(pool) == old(self)@.escrow(pool) + amount
                    &&& forall|k: PoolKey|
                        k != pool ==> #[trigger] final(self)@.escrow(k) == old(self)@.escrow(k)
                    &&& final(self)@ == (LedgerView { escrows: final(self)@.escrows, ..old(self)@ })
                },
            },
    {
        match find_key(&self.pools, &pool) {
            Some(i) => {
                proof {
                    lemma_lookup_at(self.pools@, i as int);
                }
            },
            None => return Err(ErrorCode::NotFound),
        }
        if caller != pool.creator {
            return Err(ErrorCode::UnauthorizedAccess);
        }
        let held = get_amount(&self.escrows, &pool);
        if amount > u64::MAX - held {
            return Err(ErrorCode::BalanceOverflow);
        }
        set_amount(&mut self.escrows, pool, held + amount);
        Ok(held + amount)
    }

    /// Attaches record `record_id` to a pool that is not yet full. The new
    /// contribution takes the pool's count before the increment as its id
    /// and starts unpaid.
    pub fn contribute(&mut self, contributor: Pubkey, pool: PoolKey, record_id: u64) -> (r: Result<
        Contribution,
        ErrorCode,
    >)
        requires
            old(self)@.wf(),
        ensures
            final(self)@.wf(),
            contribute_post(old(self)@, final(self)@, contributor, pool, record_id, r),

    {
        let pi = match find_key(&self.pools, &pool) {
            Some(i) => i,
            None => return Err(ErrorCode::NotFound),
        };
        proof {
            lemma_lookup_at(self.pools@, pi as int);
        }
        if self.pools[pi].1.collected >= self.pools[pi].1.total_needed {
            return Err(ErrorCode::PoolFull);
        }
        let key = ContributionKey { pool, record_id, contributor };
        if let Some(i) = find_key(&self.contributions, &key) {
            proof {
                lemma_lookup_at(self.contributions@, i as int);
            }
            return Err(ErrorCode::AlreadyExists);
        }
        let collected = self.pools[pi].1.collected;
        let c = Contribution { id: collected, pool_id: pool.id, record_id, contributor, paid: false };
        let ghost before = self.pools@[pi as int].1;
        proof {
            lemma_lookup_push(self.contributions@, key, c);
            lemma_lookup_update(self.pools@, pi as int, DataPool { collected: (collected + 1) as u64, ..before });
        }
        self.contributions.push((key, c));
        self.pools[pi].1.collected = collected + 1;
        Ok(c)
    }

    /// Pays the contributor of an unpaid contribution the pool's price per
    /// record out of the pool's escrow and marks it paid; the payment and the
    /// mark happen together or not at all.
    pub fn withdraw(&mut self, caller: Pubkey, key: ContributionKey) -> (r: Result<Contribution, ErrorCode>)
        requires
            old(self)@.wf(),
        ensures
            final(self)@.wf(),
            withdraw_post(old(self)@, final(self)@, caller, key, r),

    {
        let ci = match find_key(&self.contributions, &key) {
            Some(i) => i,
            None => return Err(ErrorCode::NotFound),
        };
        let pi = match find_key(&self.pools, &key.pool) {
            Some(i) => i,
            None => return Err(ErrorCode::NotFound),
        };
        proof {
            lemma_lookup_at(self.contributions@, ci as int);
            lemma_lookup_at(self.pools@, pi as int);
        }
        let c = self.contributions[ci].1;
        if caller != c.contributor {
            return Err(ErrorCode::UnauthorizedAccess);
        }
        if c.paid {
            return Err(ErrorCode::AlreadyPaid);
        }
        let price = self.pools[pi].1.price_per_record;
        let held = get_amount(&self.escrows, &key.pool);
        if held < price {
            return Err(ErrorCode::InsufficientEscrow);
        }
        let balance = get_amount(&self.balances, &caller);
        if price > u64::MAX - balance {
            return Err(ErrorCode::BalanceOverflow);
        }
        let paid = Contribution { paid: true, ..c };
        proof {
            lemma_lookup_update(self.contributions@, ci as int, paid);
        }
        self.contributions.set(ci, (key, paid));
        set_amount(&mut self.escrows, key.pool, held - price);
        set_amount(&mut self.balances, caller, balance + price);
        Ok(paid)
    }
}

} // verus!
