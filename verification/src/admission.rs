//! Admission control: a fixed budget of permits that bounds how many builds
//! run at once. Acquiring never blocks; a full budget answers at once.

use vstd::prelude::*;

verus! {

/// The budget used when none is configured.
pub const DEFAULT_BUDGET: usize = 16;

/// The mathematical state of an admission controller.
pub struct Capacity {
    /// Total number of permits.
    pub budget: nat,
    /// Permits handed out and not yet returned.
    pub outstanding: nat,
}

/// One call on an admission controller.
pub enum AdmissionOp {
    TryAcquire,
    Release,
}

impl Capacity {
    /// No more permits are out than the budget holds.
    pub open spec fn wf(self) -> bool {
        self.outstanding <= self.budget
    }

    /// Permits that can still be handed out.
    pub open spec fn available(self) -> int {
        self.budget - self.outstanding
    }

    /// The state after an attempt to acquire: one more permit is out if one
    /// was available, otherwise nothing changes.
    pub open spec fn acquire(self) -> Capacity {
        if self.outstanding < self.budget {
            Capacity { budget: self.budget, outstanding: self.outstanding + 1 }
        } else {
            self
        }
    }

    /// The state after a release: one permit fewer is out, if any was.
    pub open spec fn release(self) -> Capacity {
        if self.outstanding > 0 {
            Capacity { budget: self.budget, outstanding: (self.outstanding - 1) as nat }
        } else {
            self
        }
    }

    /// The state after one call.
    pub open spec fn step(self, op: AdmissionOp) -> Capacity {
        match op {
            AdmissionOp::TryAcquire => self.acquire(),
            AdmissionOp::Release => self.release(),
        }
    }

    /// The state after a sequence of calls, first to last.
    pub open spec fn after(self, ops: Seq<AdmissionOp>) -> Capacity
        decreases ops.len(),
    {
        if ops.len() == 0 {
            self
        } else {
            self.after(ops.drop_last()).step(ops.last())
        }
    }

    /// Whether a listener in this state still takes new connections: it sheds
    /// load once a quarter of the budget or less remains.
    pub open spec fn accepts_connections(self) -> bool {
        self.available() > self.budget / 4
    }
}

/// After any sequence of acquire attempts and releases, the permits that are
/// available and those that are outstanding add up to the budget, the budget
/// is what it was, and the available count is not negative.
pub proof fn lemma_budget_is_conserved(start: Capacity, ops: Seq<AdmissionOp>)
    requires
        start.wf(),
    ensures
        start.after(ops).wf(),
        start.after(ops).budget == start.budget,
        start.after(ops).available() + start.after(ops).outstanding == start.budget,
        start.after(ops).available() >= 0,
    decreases ops.len(),
{
    if ops.len() > 0 {
        lemma_budget_is_conserved(start, ops.drop_last());
    }
}

/// Proof that a build was admitted. It is handed back on release.
#[derive(Debug)]
pub struct Permit {
    _token: (),
}

/// A counting resource that bounds the number of builds in progress.
#[derive(Debug)]
pub struct AdmissionController {
    budget: usize,
    outstanding: usize,
}

impl View for AdmissionController {
    type V = Capacity;

    closed spec fn view(&self) -> Capacity {
        Capacity { budget: self.budget as nat, outstanding: self.outstanding as nat }
    }
}

impl AdmissionController {
    #[verifier::type_invariant]
    spec fn within_budget(&self) -> bool {
        self.outstanding <= self.budget
    }

    /// A controller with `budget` permits, none of them out.
    pub fn new(budget: usize) -> (controller: AdmissionController)
        ensures
            controller@ == (Capacity { budget: budget as nat, outstanding: 0 }),
    {
        AdmissionController { budget, outstanding: 0 }
    }

    /// Takes a permit if one is available; answers at once either way.
    pub fn try_acquire(&mut self) -> (permit: Option<Permit>)
        ensures
            old(self)@.wf(),
            permit is Some <==> old(self)@.available() > 0,
            final(self)@ == old(self)@.acquire(),
    {
        proof {
            use_type_invariant(&*self);
        }
        if self.outstanding < self.budget {
            self.outstanding = self.outstanding + 1;
            Some(Permit { _token: () })
        } else {
            None
        }
    }

    /// Returns a permit. Releasing when nothing is outstanding changes
    /// nothing, so the budget can never grow.
    pub fn release(&mut self, permit: Permit)
        ensures
            old(self)@.wf(),
            final(self)@ == old(self)@.release(),
    {
        proof {
            use_type_invariant(&*self);
        }
        if self.outstanding > 0 {
            self.outstanding = self.outstanding - 1;
        }
    }

    /// Permits that can still be handed out.
    pub fn available(&self) -> (n: usize)
        ensures
            self@.wf(),
            n == self@.available(),
    {
        proof {
            use_type_invariant(self);
        }
        self.budget - self.outstanding
    }

    /// Permits handed out and not yet returned.
    pub fn outstanding(&self) -> (n: usize)
        ensures
            self@.wf(),
            n == self@.outstanding,
    {
        proof {
            use_type_invariant(self);
        }
        self.outstanding
    }

    /// Total number of permits.
    pub fn budget(&self) -> (n: usize)
        ensures
            self@.wf(),
            n == self@.budget,
    {
        proof {
            use_type_invariant(self);
        }
        self.budget
    }

    /// Whether the listener should take a new connection: it refuses once the
    /// remaining capacity has dropped to a quarter of the budget.
    pub fn accepts_connections(&self) -> (accept: bool)
        ensures
            self@.wf(),
            accept == self@.accepts_connections(),
    {
        proof {
            use_type_invariant(self);
        }
        self.budget - self.outstanding > self.budget / 4
    }
}

impl Default for AdmissionController {
    /// A controller with the default budget.
    fn default() -> (controller: AdmissionController)
        ensures
            controller@ == (Capacity { budget: DEFAULT_BUDGET as nat, outstanding: 0 }),
    {
        AdmissionController::new(DEFAULT_BUDGET)
    }
}

} // verus!
