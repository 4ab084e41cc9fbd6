//! Weighted admission control for concurrent task executions.
//!
//! A single controller with a fixed capacity `P` bounds how many tasks run
//! at once: each task deducts its effective weight while it runs and returns
//! it when it finishes. The effective weight is the declared weight (one when
//! none is declared) capped at `P`, so a single oversized declaration can
//! never ask for more than the whole pool and therefore never deadlocks.
//! A declared weight of exactly zero opts the task out of admission control
//! entirely; that decision is taken by the execution protocol and never
//! reaches the controller.

use vstd::prelude::*;

verus! {

/// Capacity units an admission request effectively asks for: the declared
/// weight, one when none is declared, capped by the total capacity.
pub open spec fn effective_weight_spec(declared: Option<u32>, capacity: usize) -> nat {
    let w: nat = match declared {
        Some(w) => w as nat,
        None => 1nat,
    };
    if w <= capacity as nat {
        w
    } else {
        capacity as nat
    }
}

/// Effective weight of a task with the given declared weight under a
/// controller of the given capacity.
pub fn effective_weight(declared: Option<u32>, capacity: usize) -> (r: usize)
    ensures
        r as nat == effective_weight_spec(declared, capacity),
        r <= capacity,
{
    let w: u64 = match declared {
        Some(w) => w as u64,
        None => 1u64,
    };
    if w <= capacity as u64 {
        w as usize
    } else {
        capacity
    }
}

/// Accounting state of the admission controller: a fixed capacity and the
/// aggregate weight of the leases currently held.
pub struct Admission {
    /// Total capacity `P`; fixed at construction.
    pub capacity: usize,
    /// Aggregate weight of all leases currently held.
    pub in_use: usize,
}

/// One operation against the controller.
pub enum AdmissionOp {
    /// A task asks for `weight` units and is admitted only if they fit.
    Acquire { weight: usize },
    /// A task returns the `weight` units it holds.
    Release { weight: usize },
}

impl Admission {
    /// The controller never hands out more than its capacity.
    pub open spec fn wf(self) -> bool {
        self.in_use <= self.capacity
    }

    /// A fresh controller with everything available.
    pub fn new(capacity: usize) -> (r: Admission)
        ensures
            r.capacity == capacity,
            r.in_use == 0,
            r.wf(),
    {
        Admission { capacity, in_use: 0 }
    }

    /// Admit a request of the given weight if it fits, deducting it;
    /// otherwise leave the state unchanged and report that the caller
    /// must wait.
    pub fn try_acquire(&mut self, weight: usize) -> (admitted: bool)
        requires
            old(self).wf(),
        ensures
            final(self).wf(),
            final(self).capacity == old(self).capacity,
            admitted == (old(self).in_use + weight <= old(self).capacity),
            admitted ==> final(self).in_use == old(self).in_use + weight,
            !admitted ==> final(self).in_use == old(self).in_use,
    {
        if weight <= self.capacity - self.in_use {
            self.in_use = self.in_use + weight;
            true
        } else {
            false
        }
    }

    /// Return a held lease's weight to the pool.
    pub fn release(&mut self, weight: usize)
        requires
            old(self).wf(),
            weight <= old(self).in_use,
        ensures
            final(self).wf(),
            final(self).capacity == old(self).capacity,
            final(self).in_use == old(self).in_use - weight,
    {
        self.in_use = self.in_use - weight;
    }

    /// The state after one operation: an acquire that fits deducts its
    /// weight, an acquire that does not fit leaves the state unchanged
    /// (the task waits), and a release returns what is held.
    pub open spec fn apply_op(self, op: AdmissionOp) -> Admission {
        match op {
            AdmissionOp::Acquire { weight } => {
                if self.in_use + weight <= self.capacity {
                    Admission { capacity: self.capacity, in_use: (self.in_use + weight) as usize }
                } else {
                    self
                }
            },
            AdmissionOp::Release { weight } => {
                if weight <= self.in_use {
                    Admission { capacity: self.capacity, in_use: (self.in_use - weight) as usize }
                } else {
                    self
                }
            },
        }
    }

    /// The state after a whole sequence of operations, applied in order.
    pub open spec fn apply_ops(self, ops: Seq<AdmissionOp>) -> Admission
        decreases ops.len(),
    {
        if ops.len() == 0 {
            self
        } else {
            self.apply_op(ops[0]).apply_ops(ops.drop_first())
        }
    }
}

/// Admission correctness: however many acquisitions and releases are
/// interleaved, the aggregate weight of the leases simultaneously held
/// never exceeds the capacity, and the capacity itself never changes.
pub proof fn lemma_admission_bounded(s: Admission, ops: Seq<AdmissionOp>)
    requires
        s.wf(),
    ensures
        s.apply_ops(ops).wf(),
        s.apply_ops(ops).capacity == s.capacity,
    decreases ops.len(),
{
    if ops.len() > 0 {
        lemma_admission_bounded(s.apply_op(ops[0]), ops.drop_first());
    }
}

/// A task asking for its effective weight can never deadlock the
/// controller: once the controller is idle, the request fits.
pub proof fn lemma_effective_weight_admissible(declared: Option<u32>, s: Admission)
    requires
        s.wf(),
        s.in_use == 0,
    ensures
        s.apply_op(
            AdmissionOp::Acquire { weight: effective_weight_spec(declared, s.capacity) as usize },
        ).in_use == effective_weight_spec(declared, s.capacity),
{
}

} // verus!
