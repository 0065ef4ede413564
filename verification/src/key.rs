//! The credential rotation pool.

use vstd::arithmetic::div_mod::{
    lemma_add_mod_noop_right, lemma_div_multiples_vanish_fancy, lemma_div_plus_one,
    lemma_fundamental_div_mod, lemma_mod_add_multiples_vanish, lemma_mod_bound, lemma_small_mod,
};
use vstd::prelude::*;

verus! {

/// Why a configuration cannot be served.
#[derive(Debug, Clone, Copy, PartialEq, Eq, Structural)]
pub enum ConfigError {
    /// The list of upstream credentials is empty.
    NoCredentials,
}

/// The texts of a list of strings, in order.
pub open spec fn texts(items: Seq<String>) -> Seq<Seq<char>> {
    items.map_values(|s: String| s@)
}

/// What a pool is, mathematically: the credentials in construction order and
/// the position of the one that is handed out next.
pub struct PoolView {
    pub keys: Seq<Seq<char>>,
    pub cursor: nat,
}

impl PoolView {
    /// There is at least one credential and the cursor points at one.
    pub open spec fn wf(self) -> bool {
        0 < self.keys.len() && self.cursor < self.keys.len()
    }

    /// The credential that the next call hands out.
    pub open spec fn current(self) -> Seq<char> {
        self.keys[self.cursor as int]
    }

    /// The pool after one call: same credentials, cursor one further, wrapping
    /// at the end of the list.
    pub open spec fn advance(self) -> PoolView {
        PoolView {
            keys: self.keys,
            cursor: ((self.cursor as int + 1) % (self.keys.len() as int)) as nat,
        }
    }

    /// The pool after `calls` calls.
    pub open spec fn after(self, calls: nat) -> PoolView
        decreases calls,
    {
        if calls == 0 {
            self
        } else {
            self.advance().after((calls - 1) as nat)
        }
    }

    /// The credentials that `calls` calls hand out, first call first.
    pub open spec fn issued(self, calls: nat) -> Seq<Seq<char>>
        decreases calls,
    {
        if calls == 0 {
            Seq::empty()
        } else {
            seq![self.current()] + self.advance().issued((calls - 1) as nat)
        }
    }

    /// How many of the first `calls` calls hand out the credential at
    /// position `slot`.
    pub open spec fn served(self, calls: nat, slot: int) -> nat
        decreases calls,
    {
        if calls == 0 {
            0
        } else if self.cursor == slot {
            1 + self.advance().served((calls - 1) as nat, slot)
        } else {
            self.advance().served((calls - 1) as nat, slot)
        }
    }
}

/// An ordered, non-empty list of credentials with a rotation cursor.
pub struct KeyPool {
    keys: Vec<String>,
    current_idx: usize,
}

impl View for KeyPool {
    type V = PoolView;

    closed spec fn view(&self) -> PoolView {
        PoolView { keys: texts(self.keys@), cursor: self.current_idx as nat }
    }
}

impl KeyPool {
    #[verifier::type_invariant]
    spec fn inv(self) -> bool {
        0 < self.keys@.len() && self.current_idx < self.keys@.len()
    }

    /// Builds a pool over `kkeys`, with the cursor on the first credential.
    /// An empty list is refused.
    pub fn new(kkeys: Vec<String>) -> (made: Result<KeyPool, ConfigError>)
        ensures
            made is Err <==> kkeys@.len() == 0,
            made matches Err(e) ==> e == ConfigError::NoCredentials,
            made matches Ok(pool) ==> pool@ == (PoolView { keys: texts(kkeys@), cursor: 0 })
                && pool@.wf(),
    {
        if kkeys.len() == 0 {
            return Err(ConfigError::NoCredentials);
        }
        Ok(KeyPool { keys: kkeys, current_idx: 0 })
    }

    /// Hands out the credential under the cursor and moves the cursor to the
    /// next one, wrapping to the first after the last.
    pub fn get_key(&mut self) -> (key: String)
        ensures
            old(self)@.wf(),
            key@ == old(self)@.current(),
            final(self)@ == old(self)@.advance(),
            final(self)@.wf(),
    {
        proof {
            use_type_invariant(&*self);
        }
        let n: usize = self.keys.len();
        let key: String = self.keys[self.current_idx].clone();
        self.current_idx = (self.current_idx + 1) % n;
        key
    }
}

/// Calls move the cursor round the list: after `calls` calls on a pool of
/// `n` credentials the cursor has moved `calls` places, modulo `n`, and the
/// credentials are what they were.
pub proof fn lemma_cursor_after(pool: PoolView, calls: nat)
    requires
        pool.wf(),
    ensures
        pool.after(calls).wf(),
        pool.after(calls).keys == pool.keys,
        pool.after(calls).cursor == (pool.cursor as int + calls) % (pool.keys.len() as int),
    decreases calls,
{
    let n = pool.keys.len() as int;
    if calls == 0 {
        lemma_small_mod(pool.cursor, pool.keys.len());
    } else {
        let next = pool.advance();
        lemma_cursor_after(next, (calls - 1) as nat);
        lemma_add_mod_noop_right(calls - 1, pool.cursor as int + 1, n);
    }
}

/// Strict round-robin: `calls` calls hand out `calls` credentials, and the
/// call number `i` (from zero) hands out the credential `i` places after the
/// cursor, wrapping round the list. None is skipped and none comes early.
pub proof fn lemma_issued_in_order(pool: PoolView, calls: nat, i: int)
    requires
        pool.wf(),
        0 <= i < calls,
    ensures
        pool.issued(calls).len() == calls,
        pool.issued(calls)[i] == pool.keys[(pool.cursor as int + i) % (pool.keys.len() as int)],
    decreases calls,
{
    let n = pool.keys.len() as int;
    let next = pool.advance();
    lemma_issued_len(next, (calls - 1) as nat);
    if i == 0 {
        lemma_small_mod(pool.cursor, pool.keys.len());
    } else {
        lemma_issued_in_order(next, (calls - 1) as nat, i - 1);
        lemma_add_mod_noop_right(i - 1, pool.cursor as int + 1, n);
    }
}

/// `calls` calls hand out exactly `calls` credentials.
pub proof fn lemma_issued_len(pool: PoolView, calls: nat)
    ensures
        pool.issued(calls).len() == calls,
    decreases calls,
{
    if calls > 0 {
        lemma_issued_len(pool.advance(), (calls - 1) as nat);
    }
}

/// A fresh pool of `n` credentials hands them out in construction order,
/// each exactly once, in its first `n` calls; `2n` calls reproduce that
/// sequence twice; and the cursor is back at the start both times.
pub proof fn lemma_full_cycles(pool: PoolView)
    requires
        pool.wf(),
        pool.cursor == 0,
    ensures
        pool.issued(pool.keys.len()) == pool.keys,
        pool.issued(2 * pool.keys.len()) == pool.keys + pool.keys,
        pool.after(pool.keys.len()) == pool,
        pool.after(2 * pool.keys.len()) == pool,
{
    let n = pool.keys.len();
    lemma_issued_len(pool, n);
    lemma_issued_len(pool, 2 * n);
    assert forall|i: int| 0 <= i < n implies #[trigger] pool.issued(n)[i] == pool.keys[i] by {
        lemma_issued_in_order(pool, n, i);
        lemma_small_mod(i as nat, n);
    }
    assert(pool.issued(n) =~= pool.keys);
    assert forall|i: int| 0 <= i < 2 * n implies #[trigger] pool.issued(2 * n)[i] == (pool.keys
        + pool.keys)[i] by {
        lemma_issued_in_order(pool, 2 * n, i);
        if i < n {
            lemma_small_mod(i as nat, n);
        } else {
            lemma_mod_add_multiples_vanish(i - n, n as int);
            lemma_small_mod((i - n) as nat, n);
        }
    }
    assert(pool.issued(2 * n) =~= pool.keys + pool.keys);
    lemma_cursor_after(pool, n);
    lemma_cursor_after(pool, 2 * n);
    lemma_mod_add_multiples_vanish(0, n as int);
    lemma_mod_add_multiples_vanish(n as int, n as int);
    lemma_small_mod(0, n);
}

/// However many callers share a pool, each call borrows it exclusively, so
/// their calls form one sequence. After `calls` calls in total on a fresh
/// pool of `n` credentials, `calls` credentials have been handed out and the
/// cursor stands at `calls` modulo `n`.
pub proof fn lemma_total_calls(pool: PoolView, calls: nat)
    requires
        pool.wf(),
        pool.cursor == 0,
    ensures
        pool.issued(calls).len() == calls,
        pool.after(calls).cursor == calls % pool.keys.len(),
        pool.after(calls).keys == pool.keys,
{
    lemma_issued_len(pool, calls);
    lemma_cursor_after(pool, calls);
}

/// How many calls it takes until the cursor, now at `cursor`, reaches `slot`.
spec fn distance(cursor: int, slot: int, n: int) -> int {
    if slot >= cursor {
        slot - cursor
    } else {
        slot - cursor + n
    }
}

proof fn lemma_served_from(pool: PoolView, calls: nat, slot: int)
    requires
        pool.wf(),
        0 <= slot < pool.keys.len(),
    ensures
        pool.served(calls, slot) == (calls + pool.keys.len() - 1 - distance(
            pool.cursor as int,
            slot,
            pool.keys.len() as int,
        )) / (pool.keys.len() as int),
    decreases calls,
{
    let n = pool.keys.len() as int;
    let c = pool.cursor as int;
    let d = distance(c, slot, n);
    if calls == 0 {
        lemma_div_multiples_vanish_fancy(0, n - 1 - d, n);
    } else {
        let next = pool.advance();
        if c + 1 < n {
            lemma_small_mod((c + 1) as nat, n as nat);
        } else {
            lemma_mod_add_multiples_vanish(0, n);
            lemma_small_mod(0, n as nat);
        }
        lemma_served_from(next, (calls - 1) as nat, slot);
        if c == slot {
            assert(distance(next.cursor as int, slot, n) == n - 1);
            lemma_div_plus_one(calls - 1, n);
        } else {
            assert(distance(next.cursor as int, slot, n) == d - 1);
        }
    }
}

/// No credential is starved or favoured: of `calls` calls on a fresh pool of
/// `n` credentials, each credential gets `calls / n`, and the first
/// `calls % n` credentials get one more.
pub proof fn lemma_fair_shares(pool: PoolView, calls: nat, slot: int)
    requires
        pool.wf(),
        pool.cursor == 0,
        0 <= slot < pool.keys.len(),
    ensures
        pool.served(calls, slot) == calls / pool.keys.len() + if slot < calls % pool.keys.len() {
            1nat
        } else {
            0nat
        },
{
    let n = pool.keys.len() as int;
    let q = calls as int / n;
    let r = calls as int % n;
    lemma_served_from(pool, calls, slot);
    lemma_fundamental_div_mod(calls as int, n);
    lemma_mod_bound(calls as int, n);
    if slot < r {
        lemma_div_multiples_vanish_fancy(q + 1, r - 1 - slot, n);
        assert(n * (q + 1) + (r - 1 - slot) == calls + n - 1 - slot) by (nonlinear_arith)
            requires
                calls == n * q + r,
        ;
    } else {
        lemma_div_multiples_vanish_fancy(q, r + n - 1 - slot, n);
    }
}

} // verus!
