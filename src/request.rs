use vstd::prelude::*;

verus! {

/// One placement request: an identity, the load units it consumes if placed,
/// and an informational priority.
#[derive(Debug, Clone, Copy)]
pub struct Request {
    pub id: usize,
    pub cost: u32,
    pub priority: u8,
}

impl Request {
    pub fn new(id: usize, cost: u32, priority: u8) -> (r: Self)
        ensures
            r.id == id,
            r.cost == cost,
            r.priority == priority,
    {
        Request { id, cost, priority }
    }
}

} // verus!
