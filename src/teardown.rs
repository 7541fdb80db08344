//! The release of a connection: which steps run, in which order, and that each runs once.
use vstd::prelude::*;

verus! {

/// One step of releasing a connection.
#[derive(Debug, Clone, Copy, PartialEq, Eq, Structural)]
pub enum TeardownStep {
    /// Disconnect the context from the server.
    Disconnect,
    /// Ask the event loop to quit with this return value.
    QuitLoop(i32),
}

/// The steps that release a connection, in the order they run.
pub open spec fn teardown_plan() -> Seq<TeardownStep> {
    seq![TeardownStep::Disconnect, TeardownStep::QuitLoop(0)]
}

/// The teardown of one connection. It hands out the steps of `teardown_plan`, one per call of
/// `next_step`, and nothing once all were handed out, so each step runs at most once and in
/// order, however often the owner asks.
pub struct Teardown {
    handed_out: usize,
    steps: Ghost<Seq<TeardownStep>>,
}

impl View for Teardown {
    type V = Seq<TeardownStep>;

    /// The steps handed out so far, in order.
    closed spec fn view(&self) -> Seq<TeardownStep> {
        self.steps@
    }
}

impl Teardown {
    /// What has been handed out is the start of the plan.
    #[verifier::type_invariant]
    spec fn inv(&self) -> bool {
        &&& self.handed_out <= 2
        &&& self.steps@ == teardown_plan().take(self.handed_out as int)
    }

    /// The teardown of a live connection: no step has been handed out.
    pub fn new() -> (r: Teardown)
        ensures
            r@ == Seq::<TeardownStep>::empty(),
    {
        assert(teardown_plan().take(0) =~= Seq::<TeardownStep>::empty());
        Teardown { handed_out: 0, steps: Ghost(Seq::empty()) }
    }

    /// Whether every step has been handed out.
    pub fn is_done(&self) -> (r: bool)
        ensures
            r == (self@ == teardown_plan()),
    {
        proof {
            use_type_invariant(self);
            assert(teardown_plan().take(2) =~= teardown_plan());
        }
        self.handed_out == 2
    }

    /// The next step to run, or `None` once every step was handed out.
    pub fn next_step(&mut self) -> (r: Option<TeardownStep>)
        ensures
            r is None <==> old(self)@ == teardown_plan(),
            r matches Some(step) ==> final(self)@ == old(self)@.push(step),
            r is None ==> final(self)@ == old(self)@,
            final(self)@ == teardown_plan().take(final(self)@.len() as int),
            final(self)@.len() <= teardown_plan().len(),
    {
        proof {
            use_type_invariant(&*self);
            assert(teardown_plan().take(2) =~= teardown_plan());
        }
        if self.handed_out == 0 {
            let step = TeardownStep::Disconnect;
            let ghost steps = self.steps@.push(step);
            assert(steps =~= teardown_plan().take(1));
            *self = Teardown { handed_out: 1, steps: Ghost(steps) };
            Some(step)
        } else if self.handed_out == 1 {
            let step = TeardownStep::QuitLoop(0);
            let ghost steps = self.steps@.push(step);
            assert(steps =~= teardown_plan().take(2));
            *self = Teardown { handed_out: 2, steps: Ghost(steps) };
            Some(step)
        } else {
            None
        }
    }
}

/// Any start of the plan, which is all a teardown ever hands out, holds each step at most
/// once, and holds the quit of the event loop only after the disconnect of the context.
pub proof fn teardown_steps_once_in_order(handed_out: Seq<TeardownStep>)
    requires
        handed_out.len() <= teardown_plan().len(),
        handed_out == teardown_plan().take(handed_out.len() as int),
    ensures
        forall|i: int, j: int|
            0 <= i < j < handed_out.len() ==> handed_out[i] != handed_out[j],
        forall|j: int|
            0 <= j < handed_out.len() && handed_out[j] is QuitLoop ==> exists|i: int|
                0 <= i < j && handed_out[i] == TeardownStep::Disconnect,
{
    assert forall|j: int| 0 <= j < handed_out.len() && handed_out[j] is QuitLoop implies exists|
        i: int,
    | 0 <= i < j && handed_out[i] == TeardownStep::Disconnect by {
        assert(handed_out[0] == TeardownStep::Disconnect);
    }
}

} // verus!
