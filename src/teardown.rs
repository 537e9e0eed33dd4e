use vstd::prelude::*;

verus! {

/// One step of shutting the pipeline down.
#[derive(Clone, Copy, Debug, PartialEq, Eq, Structural)]
pub enum TeardownStep {
    /// Block until the device has no outstanding work.
    WaitIdle,
    /// Destroy every slot of the frame ring.
    DestroyFrameRing,
    /// Destroy the image chain's views, then the chain.
    DestroyChain,
    /// Destroy the presentation surface.
    DestroySurface,
    /// Destroy the device context.
    DestroyDevice,
}

/// A step offered out of order.
#[derive(Clone, Copy, Debug, PartialEq, Eq, Structural)]
pub enum TeardownError {
    /// The step is not the one that is due; `expected` is the one that is,
    /// or `None` when shutdown is already complete.
    OutOfOrder { expected: Option<TeardownStep> },
}

/// Number of steps in a complete shutdown.
pub const TEARDOWN_STEPS: usize = 5;

/// The only order in which the pipeline may be shut down: idle first, so
/// that no fence is still held, and the image chain before the surface it
/// was built from.
pub open spec fn teardown_order() -> Seq<TeardownStep> {
    seq![
        TeardownStep::WaitIdle,
        TeardownStep::DestroyFrameRing,
        TeardownStep::DestroyChain,
        TeardownStep::DestroySurface,
        TeardownStep::DestroyDevice,
    ]
}

/// `steps` follows the shutdown order from its start, possibly stopping early.
pub open spec fn follows_order(steps: Seq<TeardownStep>) -> bool {
    &&& steps.len() <= TEARDOWN_STEPS
    &&& forall|i: int| 0 <= i < steps.len() ==> steps[i] == teardown_order()[i]
}

/// The step at position `i` of the shutdown order.
pub fn teardown_step(i: usize) -> (r: TeardownStep)
    requires
        i < TEARDOWN_STEPS,
    ensures
        r == teardown_order()[i as int],
{
    if i == 0 {
        TeardownStep::WaitIdle
    } else if i == 1 {
        TeardownStep::DestroyFrameRing
    } else if i == 2 {
        TeardownStep::DestroyChain
    } else if i == 3 {
        TeardownStep::DestroySurface
    } else {
        TeardownStep::DestroyDevice
    }
}

/// Admits the shutdown steps one at a time, in order only.
pub struct TeardownSequencer {
    done: usize,
}

impl TeardownSequencer {
    #[verifier::type_invariant]
    closed spec fn inv(self) -> bool {
        self.done <= TEARDOWN_STEPS
    }

    /// Number of steps admitted so far.
    pub closed spec fn completed(self) -> nat {
        self.done as nat
    }

    /// A sequencer before any step.
    pub fn new() -> (r: TeardownSequencer)
        ensures
            r.completed() == 0,
    {
        TeardownSequencer { done: 0 }
    }

    /// Number of steps admitted so far.
    pub fn completed_steps(&self) -> (r: usize)
        ensures
            r == self.completed(),
            r <= TEARDOWN_STEPS,
    {
        proof {
            use_type_invariant(self);
        }
        self.done
    }

    /// Whether every step has been admitted.
    pub fn is_finished(&self) -> (r: bool)
        ensures
            r == (self.completed() == TEARDOWN_STEPS),
    {
        proof {
            use_type_invariant(self);
        }
        self.done == TEARDOWN_STEPS
    }

    /// The step that is due, if any remains.
    pub fn next_step(&self) -> (r: Option<TeardownStep>)
        ensures
            self.completed() < TEARDOWN_STEPS ==> r == Some(teardown_order()[self.completed() as int]),
            self.completed() >= TEARDOWN_STEPS ==> r is None,
    {
        proof {
            use_type_invariant(self);
        }
        if self.done < TEARDOWN_STEPS {
            Some(teardown_step(self.done))
        } else {
            None
        }
    }

    /// Admits `step` if it is the one that is due, and refuses it otherwise.
    pub fn complete(&mut self, step: TeardownStep) -> (r: Result<(), TeardownError>)
        ensures
            r is Ok <==> old(self).completed() < TEARDOWN_STEPS && step
                == teardown_order()[old(self).completed() as int],
            r is Ok ==> final(self).completed() == old(self).completed() + 1,
            r is Err ==> final(self).completed() == old(self).completed(),
            r is Err ==> r->Err_0 == (TeardownError::OutOfOrder {
                expected: if old(self).completed() < TEARDOWN_STEPS {
                    Some(teardown_order()[old(self).completed() as int])
                } else {
                    None
                },
            }),
    {
        proof {
            use_type_invariant(&*self);
        }
        let expected = self.next_step();
        match expected {
            Some(due) => {
                if due == step {
                    self.done = self.done + 1;
                    Ok(())
                } else {
                    Err(TeardownError::OutOfOrder { expected })
                }
            },
            None => Err(TeardownError::OutOfOrder { expected }),
        }
    }
}

/// Whether `steps` is a shutdown in the required order, complete or cut short.
pub fn check_teardown(steps: &Vec<TeardownStep>) -> (r: bool)
    ensures
        r == follows_order(steps@),
{
    let mut seq = TeardownSequencer::new();
    let mut i: usize = 0;
    while i < steps.len()
        invariant
            i <= steps@.len(),
            seq.completed() == i,
            follows_order(steps@.subrange(0, i as int)),
        decreases steps@.len() - i,
    {
        match seq.complete(steps[i]) {
            Ok(()) => {},
            Err(_) => {
                assert(!follows_order(steps@)) by {
                    if steps@.len() <= TEARDOWN_STEPS {
                        assert(steps@[i as int] != teardown_order()[i as int]);
                    }
                }
                return false;
            },
        }
        assert(follows_order(steps@.subrange(0, i + 1))) by {
            assert forall|k: int| 0 <= k < i + 1 implies steps@.subrange(0, i + 1)[k] == teardown_order()[k] by {
                if k < i {
                    assert(steps@.subrange(0, i as int)[k] == steps@[k]);
                }
            }
        }
        i = i + 1;
    }
    assert(steps@.subrange(0, i as int) =~= steps@);
    true
}

/// A shutdown that destroys the image chain is accepted only if the idle
/// wait came first, and one that destroys the surface only if the chain was
/// destroyed before it. So an order that frees the chain while work may be
/// in flight, or the surface while the chain still exists, is refused.
pub proof fn lemma_teardown_order_protects_resources(steps: Seq<TeardownStep>)
    requires
        follows_order(steps),
    ensures
        forall|i: int|
            0 <= i < steps.len() && steps[i] == TeardownStep::DestroyChain ==> exists|j: int|
                0 <= j < i && steps[j] == TeardownStep::WaitIdle,
        forall|i: int|
            0 <= i < steps.len() && steps[i] == TeardownStep::DestroySurface ==> exists|j: int|
                0 <= j < i && steps[j] == TeardownStep::DestroyChain,
        forall|i: int|
            0 <= i < steps.len() && steps[i] == TeardownStep::DestroyFrameRing ==> exists|j: int|
                0 <= j < i && steps[j] == TeardownStep::WaitIdle,
{
    let o = teardown_order();
    assert(o[0] == TeardownStep::WaitIdle);
    assert(o[1] == TeardownStep::DestroyFrameRing);
    assert(o[2] == TeardownStep::DestroyChain);
    assert(o[3] == TeardownStep::DestroySurface);
    assert(o[4] == TeardownStep::DestroyDevice);
    assert forall|i: int| 0 <= i < steps.len() implies #[trigger] steps[i] == o[i] && (i == 0 || i == 1
        || i == 2 || i == 3 || i == 4) by {}
    if steps.len() > 0 {
        assert(steps[0] == TeardownStep::WaitIdle);
    }
    if steps.len() > 2 {
        assert(steps[2] == TeardownStep::DestroyChain);
    }
}

} // verus!
