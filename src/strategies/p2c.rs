use vstd::prelude::*;
use crate::accelerator::Accelerator;
use crate::request::Request;
use crate::router::LoadBalancingStrategy;

verus! {

/// The decision between two drawn indices: an unavailable draw gives way to
/// an available one; between two available ones the lower load wins, and the
/// first draw wins a tie.
pub open spec fn choice_of_two(pool: Seq<Accelerator>, first: usize, second: usize) -> Option<
    usize,
> {
    if !pool[first as int].available() {
        if pool[second as int].available() {
            Some(second)
        } else {
            None
        }
    } else if !pool[second as int].available() {
        Some(first)
    } else if pool[first as int].current_load <= pool[second as int].current_load {
        Some(first)
    } else {
        Some(second)
    }
}

/// Relies on rand::random_range over `0..len`, drawn from the thread-local
/// generator: the value lies in the range, which must not be empty.
#[verifier::external_body]
fn random_index(len: usize) -> (r: usize)
    requires
        len > 0,
    ensures
        r < len,
{
    rand::random_range(0..len)
}

/// Chooses between the accelerators at two drawn indices.
pub fn pick_of_two(accelerators: &[Accelerator], first: usize, second: usize) -> (r: Option<
    usize,
>)
    requires
        first < accelerators@.len(),
        second < accelerators@.len(),
    ensures
        r == choice_of_two(accelerators@, first, second),
        accelerators@[first as int].available() || accelerators@[second as int].available()
            ==> (r matches Some(i) && accelerators@[i as int].available()),
        r is None ==> !accelerators@[first as int].available()
            && !accelerators@[second as int].available(),
{
    let a = &accelerators[first];
    let b = &accelerators[second];
    if !a.is_available() {
        return if b.is_available() {
            Some(second)
        } else {
            None
        };
    }
    if !b.is_available() {
        return Some(first);
    }
    if a.current_load <= b.current_load {
        Some(first)
    } else {
        Some(second)
    }
}

/// Draws two indices uniformly at random, with replacement, and keeps the
/// better of the two.
pub struct PowerOfTwoChoices;

impl PowerOfTwoChoices {
    pub fn new() -> Self {
        PowerOfTwoChoices
    }
}

impl LoadBalancingStrategy for PowerOfTwoChoices {
    open spec fn may_select(&self, pool: Seq<Accelerator>, choice: Option<usize>) -> bool {
        if pool.len() == 0 {
            choice is None
        } else {
            exists|first: usize, second: usize|
                first < pool.len() && second < pool.len() && choice == choice_of_two(
                    pool,
                    first,
                    second,
                )
        }
    }

    fn select_accelerator(&self, accelerators: &[Accelerator], _request: &Request) -> (r: Option<
        usize,
    >) {
        if accelerators.len() == 0 {
            return None;
        }
        let len = accelerators.len();
        let first = random_index(len);
        let second = random_index(len);
        pick_of_two(accelerators, first, second)
    }
}

} // verus!
