//! Usage vectors and the arithmetic of the budget: what remains, what a
//! charge adds, what a decay step forgives.

use vstd::prelude::*;

verus! {

/// Usage array (total or limit).
pub type UA = [u64; 4];

/// Index into usage array for number of requests.
pub const U_COUNT: usize = 0;

/// Index into usage array for request read usage.
pub const U_READ: usize = 1;

/// Index into usage array for CPU usage (time to process a request).
pub const U_CPU: usize = 2;

/// Index into usage array for response write usage.
pub const U_WRITE: usize = 3;

/// Information kept on usage for each user.
#[derive(Clone, Copy, Debug)]
pub struct UseInfo {
    /// Running totals of amount of CPU/IO etc. used.
    pub used: UA,
    /// Limits on usage.
    pub limit: UA,
}

/// One decay step on one counter: a positive counter loses a tenth of
/// itself, rounded down, and one more; zero stays zero.
pub open spec fn decayed(u: int) -> int {
    if u > 0 {
        u - (1 + u / 10)
    } else {
        0
    }
}

/// `n` decay steps on one counter.
pub open spec fn decayed_n(u: int, n: nat) -> int
    decreases n,
{
    if n == 0 {
        u
    } else {
        decayed_n(decayed(u), (n - 1) as nat)
    }
}

/// One counter after a charge: the sum, held at the largest `u64`.
pub open spec fn charged(u: int, amount: int) -> int {
    if u + amount > u64::MAX {
        u64::MAX as int
    } else {
        u + amount
    }
}

impl UseInfo {
    /// Some dimension has met or passed its limit.
    pub open spec fn exhausted(self) -> bool {
        ||| self.used[0] >= self.limit[0]
        ||| self.used[1] >= self.limit[1]
        ||| self.used[2] >= self.limit[2]
        ||| self.used[3] >= self.limit[3]
    }

    /// What is left in each dimension: the limit less the usage, or nothing
    /// at all once any dimension is exhausted.
    pub open spec fn spec_budget(self) -> UA {
        if self.exhausted() {
            [0u64, 0u64, 0u64, 0u64]
        } else {
            [
                (self.limit[0] - self.used[0]) as u64,
                (self.limit[1] - self.used[1]) as u64,
                (self.limit[2] - self.used[2]) as u64,
                (self.limit[3] - self.used[3]) as u64,
            ]
        }
    }

    /// The record with `limit` in place of a limit that was never set: a
    /// request limit of zero marks a record that has none yet.
    pub open spec fn with_default(self, limit: UA) -> UseInfo {
        if self.limit[0] == 0 {
            UseInfo { used: self.used, limit }
        } else {
            self
        }
    }

    /// The record with `limit` as its limit.
    pub open spec fn with_limit(self, limit: UA) -> UseInfo {
        UseInfo { used: self.used, limit }
    }

    /// The record after `amount` was added to its usage.
    pub open spec fn spec_charge(self, amount: UA) -> UseInfo {
        UseInfo {
            used: [
                charged(self.used[0] as int, amount[0] as int) as u64,
                charged(self.used[1] as int, amount[1] as int) as u64,
                charged(self.used[2] as int, amount[2] as int) as u64,
                charged(self.used[3] as int, amount[3] as int) as u64,
            ],
            limit: self.limit,
        }
    }

    /// The record after one decay step on each dimension.
    pub open spec fn spec_decay(self) -> UseInfo {
        UseInfo {
            used: [
                decayed(self.used[0] as int) as u64,
                decayed(self.used[1] as int) as u64,
                decayed(self.used[2] as int) as u64,
                decayed(self.used[3] as int) as u64,
            ],
            limit: self.limit,
        }
    }

    /// Some usage is left on the record, so the ledger keeps it.
    pub open spec fn active(self) -> bool {
        self.used[0] > 0 || self.used[1] > 0 || self.used[2] > 0 || self.used[3] > 0
    }

    /// A record with no usage and no limit yet.
    pub open spec fn spec_default() -> UseInfo {
        UseInfo { used: [0u64, 0u64, 0u64, 0u64], limit: [0u64, 0u64, 0u64, 0u64] }
    }

    /// The usage budget: the difference between limit and usage, all zero
    /// once any dimension is used up.
    pub fn budget(&self) -> (result: UA)
        ensures
            result == self.spec_budget(),
    {
        let mut result: UA = [0; 4];
        let mut i: usize = 0;
        while i < 4
            invariant
                i <= 4,
                forall|j: int| 0 <= j < i ==> self.used[j] < self.limit[j],
                forall|j: int| 0 <= j < i ==> result[j] == self.limit[j] - self.used[j],
                forall|j: int| i <= j < 4 ==> result[j] == 0,
            decreases 4 - i,
        {
            if self.used[i] >= self.limit[i] {
                return [0; 4];
            }
            result[i] = self.limit[i] - self.used[i];
            i += 1;
        }
        result
    }

    /// No dimension has reached its limit.
    pub fn within_limit(&self) -> (result: bool)
        ensures
            result == !self.exhausted(),
    {
        let mut i: usize = 0;
        while i < 4
            invariant
                i <= 4,
                forall|j: int| 0 <= j < i ==> self.used[j] < self.limit[j],
            decreases 4 - i,
        {
            if self.used[i] >= self.limit[i] {
                return false;
            }
            i += 1;
        }
        true
    }

    /// Adds `amount` to the usage, dimension by dimension. A total that no
    /// longer fits stays at the largest value: usage never wraps round to a
    /// small number.
    pub fn charge(&mut self, amount: UA)
        ensures
            *final(self) == old(self).spec_charge(amount),
    {
        let mut i: usize = 0;
        while i < 4
            invariant
                i <= 4,
                self.limit == old(self).limit,
                forall|j: int|
                    0 <= j < i ==> self.used[j] == charged(
                        old(self).used[j] as int,
                        amount[j] as int,
                    ),
                forall|j: int| i <= j < 4 ==> self.used[j] == old(self).used[j],
            decreases 4 - i,
        {
            self.used[i] = self.used[i].saturating_add(amount[i]);
            i += 1;
        }
        assert(self.used =~= old(self).spec_charge(amount).used);
    }

    /// One decay step: every positive usage drops by a tenth of itself and
    /// one more. Tells whether any usage is left.
    pub fn decay(&mut self) -> (nz: bool)
        ensures
            *final(self) == old(self).spec_decay(),
            nz == final(self).active(),
    {
        let mut nz = false;
        let mut i: usize = 0;
        while i < 4
            invariant
                i <= 4,
                self.limit == old(self).limit,
                forall|j: int| 0 <= j < i ==> self.used[j] == decayed(old(self).used[j] as int),
                forall|j: int| i <= j < 4 ==> self.used[j] == old(self).used[j],
                nz == ((0 < i && self.used[0] > 0) || (1 < i && self.used[1] > 0) || (2 < i
                    && self.used[2] > 0) || (3 < i && self.used[3] > 0)),
            decreases 4 - i,
        {
            if self.used[i] > 0 {
                self.used[i] -= 1 + self.used[i] / 10;
            }
            nz = nz || self.used[i] > 0;
            i += 1;
        }
        assert(self.used =~= old(self).spec_decay().used);
        nz
    }
}

impl Default for UseInfo {
    fn default() -> (result: UseInfo)
        ensures
            result == UseInfo::spec_default(),
    {
        let result = UseInfo { used: [0; 4], limit: [0; 4] };
        assert(result.used =~= UseInfo::spec_default().used);
        assert(result.limit =~= UseInfo::spec_default().limit);
        result
    }
}

/// The dimensions count each for itself, and any one of them blocks: a
/// record with one dimension used up has no budget in any, and a record
/// with none used up has some budget in each.
pub proof fn lemma_any_dimension_blocks(info: UseInfo, i: int)
    requires
        0 <= i < 4,
    ensures
        info.exhausted() ==> info.spec_budget()[i] == 0,
        !info.exhausted() ==> info.spec_budget()[i] == info.limit[i] - info.used[i]
            && info.spec_budget()[i] > 0,
{
}

/// A charge never raises the budget: in every dimension what is left after
/// the charge is at most what was left before it.
pub proof fn lemma_charge_lowers_budget(info: UseInfo, amount: UA, i: int)
    requires
        0 <= i < 4,
    ensures
        info.spec_charge(amount).spec_budget()[i] <= info.spec_budget()[i],
        info.spec_charge(amount).limit == info.limit,
{
}

/// A decay step never lowers the budget, and leaves the limit as it was:
/// only decay moves the budget back toward the limit.
pub proof fn lemma_decay_raises_budget(info: UseInfo, i: int)
    requires
        0 <= i < 4,
    ensures
        info.spec_decay().spec_budget()[i] >= info.spec_budget()[i],
        info.spec_decay().spec_budget()[i] <= info.limit[i],
        info.spec_decay().limit == info.limit,
{
}

/// Bounded overshoot: a charge made while a dimension was still under its
/// limit leaves the usage of that dimension at most one charge above the
/// limit.
pub proof fn lemma_bounded_overshoot(info: UseInfo, amount: UA, i: int)
    requires
        0 <= i < 4,
        info.used[i] < info.limit[i],
    ensures
        info.spec_charge(amount).used[i] <= info.limit[i] + amount[i],
        info.spec_charge(amount).used[i] >= info.used[i],
{
}

/// A decay step takes at least one unit, and at least a tenth, from a
/// positive counter.
pub proof fn lemma_decay_step(u: int)
    requires
        u > 0,
    ensures
        0 <= decayed(u) <= u - 1,
        10 * decayed(u) <= 9 * u,
{
}

/// Decay reaches exactly zero: after as many steps as the counter held
/// units, and after any number of steps beyond that, nothing is left.
pub proof fn lemma_decay_converges(u: int, n: nat)
    requires
        0 <= u <= n,
    ensures
        decayed_n(u, n) == 0,
    decreases n,
{
    if n > 0 {
        if u > 0 {
            lemma_decay_step(u);
        }
        lemma_decay_converges(decayed(u), (n - 1) as nat);
    }
}

/// Decay steps add up: `a` steps and then `b` steps are `a + b` steps.
pub proof fn lemma_decay_steps_add(u: int, a: nat, b: nat)
    ensures
        decayed_n(decayed_n(u, a), b) == decayed_n(u, a + b),
    decreases a,
{
    if a > 0 {
        lemma_decay_steps_add(decayed(u), (a - 1) as nat, b);
    }
}

/// Seven decay steps take at least half of a counter.
pub proof fn lemma_decay_halves(u: int)
    requires
        u >= 0,
    ensures
        0 <= decayed_n(u, 7),
        2 * decayed_n(u, 7) <= u,
{
    let d1 = decayed(u);
    let d2 = decayed(d1);
    let d3 = decayed(d2);
    let d4 = decayed(d3);
    let d5 = decayed(d4);
    let d6 = decayed(d5);
    let d7 = decayed(d6);
    assert(decayed_n(d7, 0) == d7);
    assert(decayed_n(d6, 1) == d7);
    assert(decayed_n(d5, 2) == d7);
    assert(decayed_n(d4, 3) == d7);
    assert(decayed_n(d3, 4) == d7);
    assert(decayed_n(d2, 5) == d7);
    assert(decayed_n(d1, 6) == d7);
    assert(decayed_n(u, 7) == d7);
    assert(10 * d1 <= 9 * u && d1 >= 0);
    assert(10 * d2 <= 9 * d1 && d2 >= 0);
    assert(10 * d3 <= 9 * d2 && d3 >= 0);
    assert(10 * d4 <= 9 * d3 && d4 >= 0);
    assert(10 * d5 <= 9 * d4 && d5 >= 0);
    assert(10 * d6 <= 9 * d5 && d6 >= 0);
    assert(10 * d7 <= 9 * d6 && d7 >= 0);
    assert(10000000 * d7 <= 4782969 * u);
}

/// A counter halved `k` times, rounding down.
pub open spec fn halved(u: int, k: nat) -> int
    decreases k,
{
    if k == 0 {
        u
    } else {
        halved(u, (k - 1) as nat) / 2
    }
}

/// After seven times `k` decay steps at most the counter halved `k`
/// times is left.
pub proof fn lemma_decay_geometric(u: int, k: nat)
    requires
        u >= 0,
    ensures
        0 <= decayed_n(u, 7 * k) <= halved(u, k),
    decreases k,
{
    if k > 0 {
        let j = (k - 1) as nat;
        lemma_decay_geometric(u, j);
        let x = decayed_n(u, 7 * j);
        lemma_decay_halves(x);
        lemma_decay_steps_add(u, 7 * j, 7);
        assert(7 * j + 7 == 7 * k);
    }
}

/// A decay step keeps the order of two counters.
pub proof fn lemma_decay_keeps_order(u: int, v: int, n: nat)
    requires
        u <= v,
    ensures
        decayed_n(u, n) <= decayed_n(v, n),
    decreases n,
{
    if n > 0 {
        assert(decayed(u) <= decayed(v));
        lemma_decay_keeps_order(decayed(u), decayed(v), (n - 1) as nat);
    }
}

/// The number of decay steps after which no counter has anything left.
pub const DECAY_STEPS: u64 = 404;

/// Decay reaches exactly zero in a bounded number of steps, whatever the
/// counter held: no counter needs more steps than the largest one, which
/// needs `DECAY_STEPS`.
pub proof fn lemma_decay_bounded(u: u64, n: nat)
    requires
        n >= DECAY_STEPS,
    ensures
        decayed_n(u as int, n) == 0,
{
    crate::decay::lemma_decay_of_largest();
    lemma_decay_keeps_order(u as int, u64::MAX as int, DECAY_STEPS as nat);
    lemma_decay_geometric(u as int, 0);
    lemma_decay_keeps_order(0, u as int, DECAY_STEPS as nat);
    lemma_decay_converges(0, DECAY_STEPS as nat);
    lemma_decay_steps_add(u as int, DECAY_STEPS as nat, (n - DECAY_STEPS) as nat);
    lemma_decay_converges(0, (n - DECAY_STEPS) as nat);
}

/// A record after `n` sweeps of the ledger with no charge in between.
pub open spec fn swept(info: UseInfo, n: nat) -> UseInfo
    decreases n,
{
    if n == 0 {
        info
    } else {
        swept(info.spec_decay(), (n - 1) as nat)
    }
}

/// Sweeps decay each dimension of a record for itself, and leave its
/// limit alone.
pub proof fn lemma_swept(info: UseInfo, n: nat, i: int)
    requires
        0 <= i < 4,
    ensures
        swept(info, n).used[i] == decayed_n(info.used[i] as int, n),
        swept(info, n).limit == info.limit,
    decreases n,
{
    if n > 0 {
        lemma_swept(info.spec_decay(), (n - 1) as nat, i);
    }
}

/// A record that is not charged is forgotten: after `DECAY_STEPS` sweeps
/// at the latest, and after as many sweeps as its largest counter held
/// units, no usage is left on it, so the ledger drops it.
pub proof fn lemma_swept_away(info: UseInfo, n: nat)
    requires
        n >= DECAY_STEPS || (n >= info.used[0] && n >= info.used[1] && n >= info.used[2] && n
            >= info.used[3]),
    ensures
        !swept(info, n).active(),
{
    lemma_swept(info, n, 0);
    lemma_swept(info, n, 1);
    lemma_swept(info, n, 2);
    lemma_swept(info, n, 3);
    if n >= DECAY_STEPS {
        lemma_decay_bounded(info.used[0], n);
        lemma_decay_bounded(info.used[1], n);
        lemma_decay_bounded(info.used[2], n);
        lemma_decay_bounded(info.used[3], n);
    } else {
        lemma_decay_converges(info.used[0] as int, n);
        lemma_decay_converges(info.used[1] as int, n);
        lemma_decay_converges(info.used[2] as int, n);
        lemma_decay_converges(info.used[3] as int, n);
    }
}

/// A record whose usage has decayed to zero in every dimension is no
/// longer active, and so is dropped by the next sweep of the ledger.
pub proof fn lemma_decay_evicts(info: UseInfo)
    requires
        info.used[0] <= 1,
        info.used[1] <= 1,
        info.used[2] <= 1,
        info.used[3] <= 1,
    ensures
        !info.spec_decay().active(),
{
}

} // verus!
