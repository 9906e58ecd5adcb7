use vstd::prelude::*;
use std::sync::atomic::{AtomicUsize, Ordering};
use crate::accelerator::Accelerator;
use crate::request::Request;
use crate::router::LoadBalancingStrategy;

verus! {

/// The index probed `offset` steps after the slot that `cursor` designates.
pub open spec fn probe_index(len: int, cursor: usize, offset: int) -> int {
    (cursor as int % len + offset) % len
}

/// Whether `choice` is the round-robin pick on `pool` for cursor value
/// `cursor`: starting at `cursor mod len` and wrapping around, the first
/// available accelerator, or `None` exactly when nothing is available.
pub open spec fn is_round_robin_pick(
    pool: Seq<Accelerator>,
    cursor: usize,
    choice: Option<usize>,
) -> bool {
    match choice {
        None => forall|i: int| 0 <= i < pool.len() ==> !#[trigger] pool[i].available(),
        Some(j) => exists|k: int|
            0 <= k < pool.len() && j == probe_index(pool.len() as int, cursor, k)
                && pool[j as int].available() && forall|m: int|
                0 <= m < k ==> !#[trigger] pool[probe_index(pool.len() as int, cursor, m)].available(),
    }
}

/// The round-robin pick for a given cursor value.
pub fn round_robin_pick(accelerators: &[Accelerator], cursor: usize) -> (r: Option<usize>)
    ensures
        is_round_robin_pick(accelerators@, cursor, r),
        r matches Some(i) ==> i < accelerators@.len() && accelerators@[i as int].available(),
{
    let len = accelerators.len();
    if len == 0 {
        return None;
    }
    let start = cursor % len;
    let mut k: usize = 0;
    while k < len
        invariant
            len == accelerators@.len(),
            start == cursor as int % len as int,
            k <= len,
            forall|m: int|
                0 <= m < k ==> !#[trigger] accelerators@[probe_index(
                    len as int,
                    cursor,
                    m,
                )].available(),
        decreases len - k,
    {
        let next = if k < len - start {
            start + k
        } else {
            k - (len - start)
        };
        assert(next == probe_index(len as int, cursor, k as int)) by {
            if k < len - start {
                vstd::arithmetic::div_mod::lemma_small_mod((start + k) as nat, len as nat);
            } else {
                vstd::arithmetic::div_mod::lemma_mod_sub_multiples_vanish(
                    (start + k) as int,
                    len as int,
                );
                vstd::arithmetic::div_mod::lemma_small_mod(
                    (start + k - len) as nat,
                    len as nat,
                );
            }
        }
        if accelerators[next].is_available() {
            return Some(next);
        }
        k += 1;
    }
    assert forall|i: int| 0 <= i < len implies !#[trigger] accelerators@[i].available() by {
        let m = (i - start + len) % len as int;
        lemma_probe_reaches(len as int, cursor, i);
        assert(!accelerators@[probe_index(len as int, cursor, m)].available());
    }
    None
}

/// Index `i` of the pool is probed at offset `(i - cursor mod len + len) mod len`.
proof fn lemma_probe_reaches(len: int, cursor: usize, i: int)
    requires
        0 <= i < len,
    ensures
        0 <= (i - cursor as int % len + len) % len < len,
        probe_index(len, cursor, (i - cursor as int % len + len) % len) == i,
{
    let start = cursor as int % len;
    vstd::arithmetic::div_mod::lemma_mod_bound(cursor as int, len);
    vstd::arithmetic::div_mod::lemma_mod_bound(i - start + len, len);
    vstd::arithmetic::div_mod::lemma_add_mod_noop(start, i - start + len, len);
    vstd::arithmetic::div_mod::lemma_small_mod(start as nat, len as nat);
    vstd::arithmetic::div_mod::lemma_mod_add_multiples_vanish(i, len);
    vstd::arithmetic::div_mod::lemma_small_mod(i as nat, len as nat);
}

/// Position of cursor value `cursor + k` in a pool of `len`, for `k < len`:
/// `cursor mod len + k`, wrapped once.
proof fn lemma_slot(cursor: int, len: int, k: int)
    requires
        0 <= cursor,
        0 <= k < len,
    ensures
        0 <= cursor % len < len,
        (cursor + k) % len == if cursor % len + k < len {
            cursor % len + k
        } else {
            cursor % len + k - len
        },
{
    vstd::arithmetic::div_mod::lemma_mod_bound(cursor, len);
    vstd::arithmetic::div_mod::lemma_add_mod_noop(cursor, k, len);
    vstd::arithmetic::div_mod::lemma_small_mod(k as nat, len as nat);
    if cursor % len + k < len {
        vstd::arithmetic::div_mod::lemma_small_mod((cursor % len + k) as nat, len as nat);
    } else {
        vstd::arithmetic::div_mod::lemma_mod_sub_multiples_vanish(cursor % len + k, len);
        vstd::arithmetic::div_mod::lemma_small_mod((cursor % len + k - len) as nat, len as nat);
    }
}

/// The turn, counted from cursor value `cursor`, at which index `i` of a pool
/// of `len` comes first in the probe order.
pub open spec fn turn_of(len: int, cursor: usize, i: int) -> int {
    if i >= cursor as int % len {
        i - cursor as int % len
    } else {
        i - cursor as int % len + len
    }
}

/// With every accelerator of a pool of `n` available, the `n` cursor values
/// `cursor, cursor + 1, ..., cursor + n - 1` pick the indices
/// `cursor mod n, (cursor + 1) mod n, ...` in turn, so that each index of the
/// pool is visited exactly once, in increasing cyclic order.
pub proof fn lemma_round_robin_visits_each_once(pool: Seq<Accelerator>, cursor: usize)
    requires
        pool.len() > 0,
        cursor + pool.len() - 1 <= usize::MAX,
        forall|i: int| 0 <= i < pool.len() ==> #[trigger] pool[i].available(),
    ensures
        forall|k: int, r: Option<usize>|
            0 <= k < pool.len() ==> (#[trigger] is_round_robin_pick(
                pool,
                (cursor + k) as usize,
                r,
            ) <==> r == Some(((cursor + k) % pool.len() as int) as usize)),
        forall|j: int|
            0 <= j < pool.len() ==> 0 <= #[trigger] turn_of(pool.len() as int, cursor, j)
                < pool.len() && (cursor + turn_of(pool.len() as int, cursor, j)) % pool.len() as int
                == j,
        forall|k1: int, k2: int|
            0 <= k1 < pool.len() && 0 <= k2 < pool.len() && #[trigger] ((cursor + k1)
                % pool.len() as int) == #[trigger] ((cursor + k2) % pool.len() as int) ==> k1
                == k2,
{
    let n = pool.len() as int;
    assert forall|k: int, r: Option<usize>| 0 <= k < n implies (#[trigger] is_round_robin_pick(
        pool,
        (cursor + k) as usize,
        r,
    ) <==> r == Some(((cursor + k) % n) as usize)) by {
        let c = (cursor + k) as usize;
        lemma_slot(c as int, n, 0);
        vstd::arithmetic::div_mod::lemma_small_mod((c as int % n) as nat, n as nat);
        assert(probe_index(n, c, 0) == (cursor + k) % n);
        if is_round_robin_pick(pool, c, r) {
            match r {
                None => {
                    assert(pool[0].available());
                },
                Some(j) => {
                    let kk = choose|kk: int|
                        0 <= kk < n && j == probe_index(n, c, kk) && pool[j as int].available()
                            && forall|m: int|
                            0 <= m < kk ==> !#[trigger] pool[probe_index(n, c, m)].available();
                    if kk > 0 {
                        lemma_slot(c as int, n, 0);
                        assert(pool[probe_index(n, c, 0)].available());
                    }
                },
            }
        }
        if r == Some(((cursor + k) % n) as usize) {
            assert(is_round_robin_pick(pool, c, r));
        }
    }
    assert forall|j: int| 0 <= j < n implies 0 <= #[trigger] turn_of(n, cursor, j) < n && (cursor
        + turn_of(n, cursor, j)) % n == j by {
        lemma_slot(cursor as int, n, 0);
        lemma_slot(cursor as int, n, turn_of(n, cursor, j));
    }
    assert forall|k1: int, k2: int|
        0 <= k1 < n && 0 <= k2 < n && #[trigger] ((cursor + k1) % n) == #[trigger] ((cursor + k2)
            % n) implies k1 == k2 by {
        lemma_slot(cursor as int, n, k1);
        lemma_slot(cursor as int, n, k2);
    }
}

/// Hands requests to the accelerators in turn, skipping unavailable ones.
/// The cursor is shared and advances once per call on a non-empty pool.
pub struct RoundRobin {
    current_index: AtomicUsize,
}

impl RoundRobin {
    pub fn new() -> Self {
        RoundRobin { current_index: AtomicUsize::new(0) }
    }
}

impl LoadBalancingStrategy for RoundRobin {
    open spec fn may_select(&self, pool: Seq<Accelerator>, choice: Option<usize>) -> bool {
        if pool.len() == 0 {
            choice is None
        } else {
            exists|cursor: usize| is_round_robin_pick(pool, cursor, choice)
        }
    }

    fn select_accelerator(&self, accelerators: &[Accelerator], _request: &Request) -> (r: Option<
        usize,
    >) {
        if accelerators.len() == 0 {
            return None;
        }
        let cursor = self.current_index.fetch_add(1, Ordering::Relaxed);
        round_robin_pick(accelerators, cursor)
    }
}

} // verus!
