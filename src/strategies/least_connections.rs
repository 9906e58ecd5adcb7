use vstd::prelude::*;
use crate::accelerator::Accelerator;
use crate::request::Request;
use crate::router::LoadBalancingStrategy;

verus! {

/// Whether `choice` is the least-loaded pick on `pool`: the available
/// accelerator with the lowest load, the lowest index among equal loads, or
/// `None` exactly when nothing is available.
pub open spec fn is_least_loaded(pool: Seq<Accelerator>, choice: Option<usize>) -> bool {
    match choice {
        None => forall|i: int| 0 <= i < pool.len() ==> !#[trigger] pool[i].available(),
        Some(j) => {
            &&& j < pool.len()
            &&& pool[j as int].available()
            &&& forall|i: int|
                0 <= i < pool.len() && #[trigger] pool[i].available() ==> pool[j as int].current_load
                    <= pool[i].current_load
            &&& forall|i: int|
                0 <= i < j && #[trigger] pool[i].available() ==> pool[j as int].current_load
                    < pool[i].current_load
        },
    }
}

/// Picks the available accelerator with the lowest current load.
pub struct LeastConnections;

impl LeastConnections {
    pub fn new() -> Self {
        LeastConnections
    }
}

impl LoadBalancingStrategy for LeastConnections {
    open spec fn may_select(&self, pool: Seq<Accelerator>, choice: Option<usize>) -> bool {
        is_least_loaded(pool, choice)
    }

    fn select_accelerator(&self, accelerators: &[Accelerator], _request: &Request) -> (r: Option<
        usize,
    >) {
        let mut best: Option<usize> = None;
        let mut i: usize = 0;
        while i < accelerators.len()
            invariant
                i <= accelerators@.len(),
                is_least_loaded(accelerators@.subrange(0, i as int), best),
            decreases accelerators@.len() - i,
        {
            let ghost prefix = accelerators@.subrange(0, i as int);
            let acc = &accelerators[i];
            if acc.is_available() {
                match best {
                    None => {
                        best = Some(i);
                    },
                    Some(b) => {
                        if acc.current_load < accelerators[b].current_load {
                            best = Some(i);
                        }
                    },
                }
            }
            i += 1;
            assert(accelerators@.subrange(0, i as int) =~= prefix.push(accelerators@[i - 1]));
        }
        assert(accelerators@.subrange(0, i as int) =~= accelerators@);
        best
    }
}

} // verus!
