use vstd::prelude::*;
use crate::accelerator::Accelerator;
use crate::request::Request;
use crate::router::LoadBalancingStrategy;

pub mod least_connections;
pub mod p2c;
pub mod round_robin;

use least_connections::LeastConnections;
use p2c::PowerOfTwoChoices;
use round_robin::RoundRobin;

verus! {

/// One of the three placement strategies, chosen by name at construction.
pub enum Strategy {
    RoundRobin(RoundRobin),
    LeastConnections(LeastConnections),
    PowerOfTwoChoices(PowerOfTwoChoices),
}

/// Whether two strings hold the same characters.
fn same_text(a: &str, b: &str) -> (r: bool)
    ensures
        r == (a@ == b@),
{
    let n = a.unicode_len();
    if n != b.unicode_len() {
        return false;
    }
    let mut i: usize = 0;
    while i < n
        invariant
            n == a@.len(),
            n == b@.len(),
            i <= n,
            forall|j: int| 0 <= j < i ==> a@[j] == b@[j],
        decreases n - i,
    {
        if a.get_char(i) != b.get_char(i) {
            return false;
        }
        i += 1;
    }
    assert(a@ =~= b@);
    true
}

impl Strategy {
    /// The strategy named `round_robin`, `least_connections` or `p2c`; any
    /// other name is refused with `Unknown strategy`.
    pub fn from_name(name: &str) -> (r: Result<Strategy, String>)
        ensures
            name@ == "round_robin"@ ==> r matches Ok(Strategy::RoundRobin(_)),
            name@ == "least_connections"@ ==> r matches Ok(Strategy::LeastConnections(_)),
            name@ == "p2c"@ ==> r matches Ok(Strategy::PowerOfTwoChoices(_)),
            r is Err <==> (name@ != "round_robin"@ && name@ != "least_connections"@ && name@
                != "p2c"@),
            r is Err ==> r->Err_0@ == "Unknown strategy"@,
    {
        proof {
            reveal_strlit("round_robin");
            reveal_strlit("least_connections");
            reveal_strlit("p2c");
            assert("round_robin"@.len() != "least_connections"@.len());
            assert("round_robin"@.len() != "p2c"@.len());
        }
        if same_text(name, "round_robin") {
            Ok(Strategy::RoundRobin(RoundRobin::new()))
        } else if same_text(name, "least_connections") {
            Ok(Strategy::LeastConnections(LeastConnections::new()))
        } else if same_text(name, "p2c") {
            Ok(Strategy::PowerOfTwoChoices(PowerOfTwoChoices::new()))
        } else {
            Err("Unknown strategy".to_string())
        }
    }
}

impl LoadBalancingStrategy for Strategy {
    open spec fn may_select(&self, pool: Seq<Accelerator>, choice: Option<usize>) -> bool {
        match self {
            Strategy::RoundRobin(s) => s.may_select(pool, choice),
            Strategy::LeastConnections(s) => s.may_select(pool, choice),
            Strategy::PowerOfTwoChoices(s) => s.may_select(pool, choice),
        }
    }

    fn select_accelerator(&self, accelerators: &[Accelerator], request: &Request) -> (r: Option<
        usize,
    >) {
        match self {
            Strategy::RoundRobin(s) => s.select_accelerator(accelerators, request),
            Strategy::LeastConnections(s) => s.select_accelerator(accelerators, request),
            Strategy::PowerOfTwoChoices(s) => s.select_accelerator(accelerators, request),
        }
    }
}

} // verus!
