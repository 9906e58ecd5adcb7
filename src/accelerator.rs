use vstd::prelude::*;

verus! {

/// A compute resource: a load counter bounded by a fixed capacity, and a
/// health flag maintained by an outside health check.
#[derive(Debug, Clone, Copy)]
pub struct Accelerator {
    pub id: usize,
    pub capacity: u32,
    pub current_load: u32,
    pub health_status: bool,
}

impl Accelerator {
    /// The accelerator can take more work: it is healthy and below capacity.
    pub open spec fn available(self) -> bool {
        self.health_status && self.current_load < self.capacity
    }

    /// The same accelerator with its load set to `load`.
    pub open spec fn with_load(self, load: u32) -> Accelerator {
        Accelerator { current_load: load, ..self }
    }

    /// The load left after removing `amount`, clamped at zero.
    pub open spec fn load_after_removal(self, amount: u32) -> u32 {
        if amount > self.current_load {
            0
        } else {
            (self.current_load - amount) as u32
        }
    }

    pub fn new(id: usize, capacity: u32) -> (r: Self)
        ensures
            r.id == id,
            r.capacity == capacity,
            r.current_load == 0,
            r.health_status,
    {
        Accelerator { id, capacity, current_load: 0, health_status: true }
    }

    pub fn update_load(&mut self, load: u32)
        ensures
            *final(self) == old(self).with_load(load),
    {
        self.current_load = load;
    }

    pub fn is_available(&self) -> (r: bool)
        ensures
            r == self.available(),
    {
        self.health_status && self.current_load < self.capacity
    }

    /// Reserves `load` units. Succeeds exactly when the new load stays within
    /// capacity; otherwise nothing changes.
    pub fn add_load(&mut self, load: u32) -> (r: Result<(), String>)
        ensures
            r is Ok <==> old(self).current_load + load <= old(self).capacity,
            r is Ok ==> *final(self) == old(self).with_load((old(self).current_load + load) as u32),
            r is Ok ==> final(self).current_load <= final(self).capacity,
            r is Err ==> *final(self) == *old(self),
            r is Err ==> r->Err_0@ == "Capacity exceeded"@,
    {
        if self.current_load as u64 + load as u64 > self.capacity as u64 {
            return Err("Capacity exceeded".to_string());
        }
        self.current_load = self.current_load + load;
        Ok(())
    }

    /// Releases `load` units; the load never drops below zero.
    pub fn remove_load(&mut self, load: u32)
        ensures
            *final(self) == old(self).with_load(old(self).load_after_removal(load)),
            load >= old(self).current_load ==> final(self).current_load == 0,
    {
        if load > self.current_load {
            self.current_load = 0;
        } else {
            self.current_load -= load;
        }
    }
}

} // verus!
