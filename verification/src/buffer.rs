//! The read buffer of a connection, with its usage account, and the
//! deadlines that the remaining budget allows for reads and writes.

use crate::request::{eof, find_byte, lemma_find_byte, tmr};
use crate::share::{Error, SharedState};
use crate::usage::{charged, UseInfo, UA, U_COUNT, U_READ};
use vstd::prelude::*;

verus! {

/// Buffer size.
pub const BUFFER_SIZE: usize = 2048;

/// Nanoseconds in a millisecond.
pub const NANOS_PER_MILLI: u128 = 1_000_000;

/// The time that a connection may have spent reading, in milliseconds,
/// once it has read `total` bytes and is about to read up to one buffer
/// more: the read budget, divided by the kilobytes read so far and the
/// buffer to come. The more was read, the less time is left; the size of
/// the buffer keeps the divisor from being zero and gives a small
/// request its time.
pub open spec fn read_allowance(limit: int, total: int) -> int {
    limit / ((total + BUFFER_SIZE) / 1024)
}

/// The time that a write of `len` bytes may take, in milliseconds: what
/// is left of the write budget, divided by the kilobytes to write and one.
pub open spec fn write_allowance(budget: int, used: int, len: int) -> int {
    (if used >= budget {
        0
    } else {
        budget - used
    }) / (len / 1024 + 1)
}

/// The cost of writing `len` bytes in `millis` milliseconds: time by
/// whole kilobytes, held at the largest `u64`.
pub open spec fn transfer_cost(millis: int, len: int) -> int {
    if millis * (len / 1024) > u64::MAX {
        u64::MAX as int
    } else {
        millis * (len / 1024)
    }
}

/// The more a connection has read, the less time it is allowed: the
/// allowance never grows with the bytes read, and nothing is left of it
/// once the kilobytes read outnumber the budget.
pub proof fn lemma_allowance_shrinks(limit: int, total: int, more: int)
    requires
        0 <= limit,
        0 <= total <= more,
    ensures
        0 <= read_allowance(limit, more) <= read_allowance(limit, total) <= limit,
        more >= 1024 * (limit + 1) ==> read_allowance(limit, more) == 0,
{
    let near = (total + BUFFER_SIZE) / 1024;
    let far = (more + BUFFER_SIZE) / 1024;
    assert(2 <= near <= far);
    vstd::arithmetic::div_mod::lemma_div_is_ordered_by_denominator(limit, near, far);
    vstd::arithmetic::div_mod::lemma_div_is_ordered_by_denominator(limit, 1, near);
    assert(limit / 1 == limit);
    vstd::arithmetic::div_mod::lemma_div_pos_is_pos(limit, far);
    if more >= 1024 * (limit + 1) {
        assert(far > limit);
        vstd::arithmetic::div_mod::lemma_basic_div(limit, far);
    }
}

/// The cost of having read `total` bytes by the time `elapsed`
/// milliseconds have passed: time by kilobytes, both rounded up, so that
/// no read is free, and held at the largest `u64`.
pub open spec fn read_cost(elapsed: int, total: int) -> int {
    if (elapsed + 1) * ((total + 1023) / 1024) > u64::MAX {
        u64::MAX as int
    } else {
        (elapsed + 1) * ((total + 1023) / 1024)
    }
}

/// No read is free: whoever has read a byte is charged for it.
pub proof fn lemma_no_read_is_free(elapsed: int, total: int)
    requires
        0 <= elapsed,
        0 < total,
    ensures
        0 < read_cost(elapsed, total) <= u64::MAX,
{
    let kb = (total + 1023) / 1024;
    assert(kb >= 1);
    assert((elapsed + 1) * kb >= 1) by (nonlinear_arith)
        requires
            elapsed >= 0,
            kb >= 1,
    ;
}

/// How long a write of `len` bytes may take, in milliseconds, with
/// `used` of the write `budget` spent.
pub fn write_timeout(len: usize, budget: u64, used: u64) -> (result: u64)
    ensures
        result == write_allowance(budget as int, used as int, len as int),
{
    let left = if used >= budget {
        0
    } else {
        budget - used
    };
    left / ((len / 1024) as u64 + 1)
}

/// The write usage after a write of `len` bytes that took `millis`
/// milliseconds.
pub fn write_charged(len: usize, millis: u64, used: u64) -> (result: u64)
    ensures
        result == charged(used as int, transfer_cost(millis as int, len as int)),
{
    let kb = (len / 1024) as u64;
    let cost = match millis.checked_mul(kb) {
        Some(cost) => cost,
        None => u64::MAX,
    };
    used.saturating_add(cost)
}

/// Buffer for reading tcp input stream, with budget check.
#[derive(Debug)]
pub struct Buffer {
    buf: Vec<u8>,
    i: usize,
    total: u64,
    u: UseInfo,
    uid: String,
}

impl Buffer {
    /// The bytes that were read from the stream and not yet taken.
    pub closed spec fn pending(&self) -> Seq<u8> {
        self.buf@.subrange(self.i as int, self.buf@.len() as int)
    }

    /// The position in the buffer is inside it.
    #[verifier::type_invariant]
    spec fn inv(self) -> bool {
        self.i <= self.buf@.len()
    }

    /// The number of bytes read from the stream since the read usage was
    /// last settled.
    pub closed spec fn total(&self) -> u64 {
        self.total
    }

    /// Usage of this connection so far, and the budget it started with.
    pub closed spec fn u(&self) -> UseInfo {
        self.u
    }

    /// The identity that the connection is charged to.
    pub closed spec fn uid(&self) -> Seq<char> {
        self.uid@
    }

    /// Usage of this connection so far, and the budget it started with.
    pub fn usage(&self) -> (result: UseInfo)
        ensures
            result == self.u(),
    {
        self.u
    }

    /// The identity that the connection is charged to.
    pub fn identity(&self) -> (result: &String)
        ensures
            result@ == self.uid(),
    {
        &self.uid
    }

    /// Charges the connection to `uid` from here on, with the budget it
    /// has.
    pub fn charge_to(&mut self, uid: String)
        ensures
            final(self).uid() == uid@,
            final(self).u() == old(self).u(),
            final(self).pending() == old(self).pending(),
            final(self).total() == old(self).total(),
    {
        proof {
            use_type_invariant(&*self);
        }
        self.uid = uid;
    }

    /// Sets the budget of the connection.
    pub fn set_limit(&mut self, limit: UA)
        ensures
            final(self).u() == old(self).u().with_limit(limit),
            final(self).uid() == old(self).uid(),
            final(self).pending() == old(self).pending(),
            final(self).total() == old(self).total(),
    {
        proof {
            use_type_invariant(&*self);
        }
        self.u.limit = limit;
    }

    /// Sets the usage of the connection in one dimension.
    pub fn set_used(&mut self, dimension: usize, amount: u64)
        requires
            dimension < 4,
        ensures
            final(self).u().limit == old(self).u().limit,
            final(self).u().used@ == old(self).u().used@.update(dimension as int, amount),
            final(self).uid() == old(self).uid(),
            final(self).pending() == old(self).pending(),
            final(self).total() == old(self).total(),
    {
        proof {
            use_type_invariant(&*self);
        }
        self.u.used[dimension] = amount;
    }

    /// Create a new Buffer. The connection counts as one request, and its
    /// budget is what the ledger has left for `uid`.
    pub fn new(ss: &mut SharedState, uid: String) -> (result: Buffer)
        ensures
            result.pending().len() == 0,
            result.total() == 0,
            result.uid() == uid@,
            result.u().used == [1u64, 0u64, 0u64, 0u64],
            result.u().limit == old(ss).record(uid@).with_default(old(ss).dos_limit).spec_budget(),
            final(ss).ledger() == old(ss).ledger().insert(
                uid@,
                old(ss).record(uid@).with_default(old(ss).dos_limit),
            ),
            final(ss).same_settings(old(ss)),
    {
        let limit = ss.u_budget(uid.clone());
        let mut u = UseInfo::default();
        u.used[U_COUNT] = 1;
        u.limit = limit;
        assert(u.used =~= [1u64, 0u64, 0u64, 0u64]);
        Buffer { buf: Vec::new(), i: 0, total: 0, u, uid }
    }

    /// Charges the connection to another identity from here on: its budget
    /// becomes what the ledger has left for `uid`. Fails when nothing is
    /// left.
    pub fn set_identity(&mut self, ss: &mut SharedState, uid: String) -> (result: Result<(), Error>)
        ensures
            final(self).uid() == uid@,
            final(self).u().limit == old(ss).record(uid@).with_default(
                old(ss).dos_limit,
            ).spec_budget(),
            final(self).u().used == old(self).u().used,
            final(self).pending() == old(self).pending(),
            final(self).total() == old(self).total(),
            final(ss).ledger() == old(ss).ledger().insert(
                uid@,
                old(ss).record(uid@).with_default(old(ss).dos_limit),
            ),
            final(ss).same_settings(old(ss)),
            match result {
                Ok(_) => final(self).u().limit[0] != 0,
                Err(e) => final(self).u().limit[0] == 0 && e.code == 429,
            },
    {
        proof {
            use_type_invariant(&*self);
        }
        self.u.limit = ss.u_budget(uid.clone());
        self.uid = uid;
        if self.u.limit[U_COUNT] == 0 {
            return Err(tmr());
        }
        Ok(())
    }

    /// How long the next read from the stream may take, in nanoseconds,
    /// when `elapsed` nanoseconds have passed since the connection was
    /// opened. Fails when the time that the budget allows is over.
    pub fn fill_timeout(&self, elapsed: u128) -> (result: Result<u128, Error>)
        ensures
            match result {
                Ok(wait) => wait > 0 && wait + elapsed == NANOS_PER_MILLI * read_allowance(
                    self.u().limit[1] as int,
                    self.total() as int,
                ),
                Err(e) => e.code == 429 && elapsed >= NANOS_PER_MILLI * read_allowance(
                    self.u().limit[1] as int,
                    self.total() as int,
                ),
            },
    {
        let kb: u128 = (self.total as u128 + BUFFER_SIZE as u128) / 1024;
        let lim: u128 = self.u.limit[U_READ] as u128 / kb;
        assert(lim <= u64::MAX);
        let allowed: u128 = lim * NANOS_PER_MILLI;
        if elapsed >= allowed {
            return Err(tmr());
        }
        Ok(allowed - elapsed)
    }

    /// Takes in what a read from the stream gave. A read that gave nothing
    /// means that the stream has ended.
    pub fn fill(&mut self, data: &[u8]) -> (result: Result<(), Error>)
        ensures
            final(self).u() == old(self).u(),
            final(self).uid() == old(self).uid(),
            match result {
                Ok(_) => data@.len() > 0 && final(self).pending() == data@ && final(self).total()
                    == charged(old(self).total() as int, data@.len() as int),
                Err(e) => data@.len() == 0 && e.code == 0 && final(self).pending()
                    == old(self).pending() && final(self).total() == old(self).total(),
            },
    {
        proof {
            use_type_invariant(&*self);
        }
        if data.len() == 0 {
            return Err(eof());
        }
        let mut buf: Vec<u8> = Vec::new();
        buf.extend_from_slice(data);
        self.i = 0;
        self.buf = buf;
        self.total = self.total.saturating_add(data.len() as u64);
        assert(self.buf@.subrange(0, self.buf@.len() as int) =~= data@);
        Ok(())
    }

    /// Read until delim is found. Moves pending bytes to `to`, up to and
    /// with the first `delim`; tells whether it was found. When it was
    /// not, all that was pending has moved and more input is needed.
    pub fn read_until(&mut self, delim: u8, to: &mut Vec<u8>) -> (found: bool)
        ensures
            final(self).u() == old(self).u(),
            final(self).uid() == old(self).uid(),
            final(self).total() == old(self).total(),
            found == (find_byte(old(self).pending(), 0, delim) < old(self).pending().len()),
            found ==> final(to)@ == old(to)@ + old(self).pending().subrange(
                0,
                find_byte(old(self).pending(), 0, delim) + 1,
            ) && final(self).pending() == old(self).pending().subrange(
                find_byte(old(self).pending(), 0, delim) + 1,
                old(self).pending().len() as int,
            ),
            !found ==> final(to)@ == old(to)@ + old(self).pending() && final(self).pending().len()
                == 0,
    {
        let ghost pending = self.pending();
        let ghost start = self.i as int;
        let n = self.buf.len();
        proof {
            use_type_invariant(&*self);
            lemma_find_byte(pending, 0, delim);
        }
        while self.i < n
            invariant
                n == self.buf@.len(),
                0 <= start <= self.i <= n,
                self.buf == old(self).buf,
                self.u == old(self).u,
                self.uid == old(self).uid,
                self.total == old(self).total,
                pending == self.buf@.subrange(start, n as int),
                pending == old(self).pending(),
                to@ == old(to)@ + pending.subrange(0, self.i - start),
                find_byte(pending, 0, delim) == find_byte(pending, self.i - start, delim),
            decreases n - self.i,
        {
            let b = self.buf[self.i];
            assert(b == pending[self.i - start]);
            assert(find_byte(pending, 0, delim) == if b == delim {
                self.i - start
            } else {
                find_byte(pending, self.i - start + 1, delim)
            });
            self.i += 1;
            to.push(b);
            assert(to@ =~= old(to)@ + pending.subrange(0, self.i - start));
            if b == delim {
                assert(self.pending() =~= pending.subrange(self.i - start, pending.len() as int));
                return true;
            }
        }
        assert(pending.subrange(0, self.i - start) =~= pending);
        false
    }

    /// Read specified number of bytes. Moves pending bytes to `to` until
    /// it holds `n` bytes; tells whether it does. When it does not, all
    /// that was pending has moved and more input is needed.
    pub fn read(&mut self, n: usize, to: &mut Vec<u8>) -> (done: bool)
        ensures
            final(self).u() == old(self).u(),
            final(self).uid() == old(self).uid(),
            final(self).total() == old(self).total(),
            done == (old(to)@.len() + old(self).pending().len() >= n),
            done && old(to)@.len() <= n ==> final(to)@ == old(to)@ + old(self).pending().subrange(
                0,
                n - old(to)@.len(),
            ) && final(self).pending() == old(self).pending().subrange(
                n - old(to)@.len(),
                old(self).pending().len() as int,
            ),
            done && old(to)@.len() > n ==> final(to)@ == old(to)@ && final(self).pending() == old(
                self,
            ).pending(),
            !done ==> final(to)@ == old(to)@ + old(self).pending() && final(self).pending().len()
                == 0,
    {
        let ghost pending = self.pending();
        let ghost start = self.i as int;
        let len = self.buf.len();
        proof {
            use_type_invariant(&*self);
        }
        while self.i < len && to.len() < n
            invariant
                len == self.buf@.len(),
                0 <= start <= self.i <= len,
                self.buf == old(self).buf,
                self.u == old(self).u,
                self.uid == old(self).uid,
                self.total == old(self).total,
                pending == old(self).pending(),
                start == old(self).i,
                to@ == old(to)@ + pending.subrange(0, self.i - start),
                to@.len() <= n || self.i == start,
            decreases len - self.i,
        {
            let b = self.buf[self.i];
            assert(b == pending[self.i - start]);
            self.i += 1;
            to.push(b);
            assert(to@ =~= old(to)@ + pending.subrange(0, self.i - start));
        }
        proof {
            assert(self.pending() =~= pending.subrange(self.i - start, pending.len() as int));
            assert(pending.subrange(0, 0) =~= Seq::empty());
            assert(old(to)@ + Seq::<u8>::empty() =~= old(to)@);
            assert(pending.subrange(0, pending.len() as int) =~= pending);
        }
        to.len() >= n
    }

    /// Update used read counter based on total bytes read (KB) and elapsed
    /// time (milli-seconds). Both are rounded up, so that no read is free.
    /// The count of bytes starts again at zero, so a second call changes
    /// nothing.
    pub fn read_complete(&mut self, elapsed: u64)
        ensures
            final(self).uid() == old(self).uid(),
            final(self).pending() == old(self).pending(),
            final(self).total() == 0,
            final(self).u().limit == old(self).u().limit,
            old(self).total() == 0 ==> final(self).u() == old(self).u(),
            old(self).total() != 0 ==> final(self).u().used@ == old(self).u().used@.update(
                1,
                read_cost(elapsed as int, old(self).total() as int) as u64,
            ),
            old(self).total() != 0 ==> final(self).u().used[1] > 0,
    {
        proof {
            use_type_invariant(&*self);
        }
        if self.total != 0 {
            let kb = if self.total % 1024 == 0 {
                self.total / 1024
            } else {
                self.total / 1024 + 1
            };
            assert(kb == (self.total as int + 1023) / 1024);
            let cost = match elapsed.checked_add(1) {
                Some(millis) => match millis.checked_mul(kb) {
                    Some(cost) => cost,
                    None => u64::MAX,
                },
                None => u64::MAX,
            };
            assert(cost == read_cost(elapsed as int, self.total as int)) by (nonlinear_arith)
                requires
                    kb == (self.total as int + 1023) / 1024,
                    kb >= 1,
                    cost == (if elapsed + 1 > u64::MAX {
                        u64::MAX as int
                    } else if (elapsed + 1) * kb > u64::MAX {
                        u64::MAX as int
                    } else {
                        (elapsed + 1) * kb
                    }),
            ;
            proof {
                lemma_no_read_is_free(elapsed as int, self.total as int);
            }
            self.u.used[U_READ] = cost;
            self.total = 0;
        }
    }

    /// Settles the account of the connection when it ends, however it
    /// ends: the read usage is brought up to date and all usage is
    /// charged to the identity of the connection. The buffer is used up,
    /// so a connection is charged once.
    pub fn finish(self, ss: &mut SharedState, elapsed: u64)
        ensures
            final(ss).same_settings(old(ss)),
            final(ss).ledger() == (if old(ss).ledger().contains_key(self.uid()) {
                old(ss).ledger().insert(
                    self.uid(),
                    old(ss).ledger()[self.uid()].spec_charge(self.settled(elapsed)),
                )
            } else {
                old(ss).ledger()
            }),
    {
        let mut this = self;
        this.read_complete(elapsed);
        assert(this.u.used =~= self.settled(elapsed));
        ss.u_inc(this.uid.as_str(), this.u.used);
    }

    /// The usage of the connection with its read usage brought up to
    /// date, `elapsed` milliseconds after the connection was opened.
    pub open spec fn settled(&self, elapsed: u64) -> UA {
        if self.total() == 0 {
            self.u().used
        } else {
            [
                self.u().used[0],
                read_cost(elapsed as int, self.total() as int) as u64,
                self.u().used[2],
                self.u().used[3],
            ]
        }
    }
}

} // verus!
