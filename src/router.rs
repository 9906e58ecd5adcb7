use vstd::prelude::*;
use crate::accelerator::Accelerator;
use crate::request::Request;

verus! {

/// A placement policy: given the pool and a request, pick the index of an
/// available accelerator, or decline. Selection never changes the pool.
pub trait LoadBalancingStrategy {
    /// Whether `choice` is an answer this strategy may give on `pool`.
    spec fn may_select(&self, pool: Seq<Accelerator>, choice: Option<usize>) -> bool;

    fn select_accelerator(&self, accelerators: &[Accelerator], request: &Request) -> (r: Option<
        usize,
    >)
        ensures
            self.may_select(accelerators@, r),
            r matches Some(i) ==> i < accelerators@.len() && accelerators@[i as int].available(),
            accelerators@.len() == 0 ==> r is None,
    ;
}

/// What committing `choice` for a request of `cost` does: the pool after the
/// reservation and the identity returned. A choice that would push its
/// accelerator over capacity is declined and leaves the pool as it was.
pub open spec fn placement(pool: Seq<Accelerator>, choice: Option<usize>, cost: u32) -> (Seq<
    Accelerator,
>, Option<usize>) {
    match choice {
        Some(i) => if i < pool.len() && pool[i as int].current_load + cost
            <= pool[i as int].capacity {
            (
                pool.update(
                    i as int,
                    pool[i as int].with_load((pool[i as int].current_load + cost) as u32),
                ),
                Some(pool[i as int].id),
            )
        } else {
            (pool, None)
        },
        None => (pool, None),
    }
}

/// A choice that would exceed its accelerator's capacity is declined, and no
/// accelerator's load changes.
pub proof fn lemma_over_capacity_declined(pool: Seq<Accelerator>, i: usize, cost: u32)
    requires
        i < pool.len(),
        pool[i as int].current_load + cost > pool[i as int].capacity,
    ensures
        placement(pool, Some(i), cost) == (pool, Option::<usize>::None),
{
}

/// Owns the pool of accelerators and one placement strategy.
pub struct Router<S: LoadBalancingStrategy> {
    pub accelerators: Vec<Accelerator>,
    pub strategy: S,
}

impl<S: LoadBalancingStrategy> Router<S> {
    pub fn new(strategy: S) -> (r: Self)
        ensures
            r.accelerators@.len() == 0,
            r.strategy == strategy,
    {
        Router { accelerators: Vec::new(), strategy }
    }

    /// Appends an accelerator to the pool; identities are not checked.
    pub fn add_accelerator(&mut self, accelerator: Accelerator)
        ensures
            final(self).accelerators@ == old(self).accelerators@.push(accelerator),
            final(self).strategy == old(self).strategy,
    {
        self.accelerators.push(accelerator);
    }

    /// Asks the strategy for an index and reserves the request's cost there.
    /// Returns the chosen accelerator's identity, or `None` when the strategy
    /// declines or the reservation would exceed capacity (no retry elsewhere).
    pub fn route_request(&mut self, request: &Request) -> (r: Option<usize>)
        ensures
            final(self).strategy == old(self).strategy,
            exists|c: Option<usize>|
                old(self).strategy.may_select(old(self).accelerators@, c) && placement(
                    old(self).accelerators@,
                    c,
                    request.cost,
                ) == (final(self).accelerators@, r),
            r is None ==> final(self).accelerators@ == old(self).accelerators@,
            old(self).accelerators@.len() == 0 ==> r is None,
            r matches Some(id) ==> exists|i: int|
                0 <= i < old(self).accelerators@.len() && old(self).accelerators@[i].id == id
                    && old(self).accelerators@[i].current_load + request.cost
                    <= old(self).accelerators@[i].capacity && final(self).accelerators@
                    == old(self).accelerators@.update(
                    i,
                    old(self).accelerators@[i].with_load(
                        (old(self).accelerators@[i].current_load + request.cost) as u32,
                    ),
                ),
    {
        let ghost pool = self.accelerators@;
        let choice = self.strategy.select_accelerator(self.accelerators.as_slice(), request);
        let r = match choice {
            None => None,
            Some(idx) => {
                let mut acc = self.accelerators[idx];
                match acc.add_load(request.cost) {
                    Ok(()) => {
                        self.accelerators.set(idx, acc);
                        Some(acc.id)
                    },
                    Err(_) => None,
                }
            },
        };
        assert(placement(pool, choice, request.cost) == (self.accelerators@, r));
        r
    }
}

} // verus!
