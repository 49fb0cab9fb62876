//! The rendering state and its lifecycle.
//!
//! The state is created at most once and never torn down. Its handles are
//! opaque to this crate: the type parameter `H` stands for whatever the host
//! got from the GPU (context, surface and renderer together). They are
//! stored and handed out jointly, so no reader can see a partial state.

use crate::transform::Size;
use vstd::prelude::*;

verus! {

/// Where the rendering state is in its life.
#[derive(Clone, Copy, Debug, PartialEq, Eq, Structural)]
pub enum Phase {
    /// Nothing exists and nobody is creating it.
    Uninitialized,
    /// One caller is creating the state; it exists for nobody yet.
    Initializing,
    /// The state exists and no frame is being drawn.
    Ready,
    /// The state exists and one frame is being drawn.
    Rendering,
}

impl Phase {
    /// Whether the state exists in this phase. `Rendering` is a part of
    /// being ready, not a phase of its own at the top level.
    pub open spec fn initialized(self) -> bool {
        self is Ready || self is Rendering
    }
}

/// What a caller that asked for the state has to do.
#[derive(Clone, Copy, Debug, PartialEq, Eq, Structural)]
pub enum InitAction {
    /// Create the device and a surface of this size, then report back with
    /// `commit` or `abandon`. Only one caller is ever told so at a time.
    Create(Size),
    /// Somebody else is creating the state: wait and ask again.
    Wait,
    /// The state exists: go on.
    Proceed,
}

/// The handles together with the size of the surface they were made for.
pub struct Attached<H> {
    pub handles: H,
    pub surface: Size,
}

/// What can happen to the rendering state.
pub enum Event<H> {
    /// A caller asks for the state to exist.
    Request,
    /// The creating caller hands in what it made.
    Commit(Attached<H>),
    /// The creating caller could not make it.
    Abandon,
    /// A frame is about to be drawn.
    BeginFrame,
    /// The frame that was being drawn is over.
    EndFrame,
}

/// The mathematical content of a [`RenderState`].
pub struct Lifecycle<H> {
    pub phase: Phase,
    pub attached: Option<Attached<H>>,
    pub requested: Size,
}

impl<H> Lifecycle<H> {
    /// The state before anything has happened.
    pub open spec fn fresh(requested: Size) -> Self {
        Lifecycle { phase: Phase::Uninitialized, attached: None, requested }
    }

    /// The handles are there exactly when the state is initialized.
    pub open spec fn wf(self) -> bool {
        self.attached is Some <==> self.phase.initialized()
    }

    /// What a request is answered in this state.
    pub open spec fn answer(self) -> InitAction {
        match self.phase {
            Phase::Uninitialized => InitAction::Create(self.requested),
            Phase::Initializing => InitAction::Wait,
            Phase::Ready | Phase::Rendering => InitAction::Proceed,
        }
    }

    /// Whether a `Commit` would be taken in this state.
    pub open spec fn accepts_commit(self) -> bool {
        self.phase is Initializing
    }

    /// The state after one event. An event that does not apply in the
    /// current phase leaves the state as it is.
    pub open spec fn step(self, event: Event<H>) -> Self {
        match (self.phase, event) {
            (Phase::Uninitialized, Event::Request) => Lifecycle {
                phase: Phase::Initializing,
                ..self
            },
            (Phase::Initializing, Event::Commit(attached)) => Lifecycle {
                phase: Phase::Ready,
                attached: Some(attached),
                ..self
            },
            (Phase::Initializing, Event::Abandon) => Lifecycle {
                phase: Phase::Uninitialized,
                ..self
            },
            (Phase::Ready, Event::BeginFrame) => Lifecycle { phase: Phase::Rendering, ..self },
            (Phase::Rendering, Event::EndFrame) => Lifecycle { phase: Phase::Ready, ..self },
            _ => self,
        }
    }

    /// The state after a sequence of events, first to last.
    pub open spec fn run(self, events: Seq<Event<H>>) -> Self
        decreases events.len(),
    {
        if events.len() == 0 {
            self
        } else {
            self.step(events.first()).run(events.drop_first())
        }
    }

    /// How many requests in `events` are answered `Create`.
    pub open spec fn creations(self, events: Seq<Event<H>>) -> nat
        decreases events.len(),
    {
        if events.len() == 0 {
            0
        } else {
            let here: nat = if events.first() is Request && self.answer() is Create {
                1
            } else {
                0
            };
            here + self.step(events.first()).creations(events.drop_first())
        }
    }

    /// How many commits in `events` are taken, each of which brings a
    /// rendering state into being.
    pub open spec fn commits(self, events: Seq<Event<H>>) -> nat
        decreases events.len(),
    {
        if events.len() == 0 {
            0
        } else {
            let here: nat = if events.first() is Commit && self.accepts_commit() {
                1
            } else {
                0
            };
            here + self.step(events.first()).commits(events.drop_first())
        }
    }

    /// How many times in `events` a creation is given up.
    pub open spec fn abandonments(self, events: Seq<Event<H>>) -> nat
        decreases events.len(),
    {
        if events.len() == 0 {
            0
        } else {
            let here: nat = if events.first() is Abandon && self.phase is Initializing {
                1
            } else {
                0
            };
            here + self.step(events.first()).abandonments(events.drop_first())
        }
    }
}

/// The rendering state: the phase of its life and, once created, the
/// handles and the surface size.
pub struct RenderState<H> {
    phase: Phase,
    attached: Option<Attached<H>>,
    requested: Size,
}

impl<H> View for RenderState<H> {
    type V = Lifecycle<H>;

    closed spec fn view(&self) -> Lifecycle<H> {
        Lifecycle { phase: self.phase, attached: self.attached, requested: self.requested }
    }
}

impl<H> RenderState<H> {
    #[verifier::type_invariant]
    spec fn inv(&self) -> bool {
        self@.wf()
    }

    /// A state in which nothing exists yet. `requested` is the size the
    /// surface will be asked to have.
    pub fn new(requested: Size) -> (state: Self)
        ensures
            state@ == Lifecycle::<H>::fresh(requested),
    {
        RenderState { phase: Phase::Uninitialized, attached: None, requested }
    }

    /// The current phase.
    pub fn phase(&self) -> (phase: Phase)
        ensures
            phase == self@.phase,
            self@.wf(),
    {
        proof {
            use_type_invariant(self);
        }
        self.phase
    }

    /// Asks for the state to exist. The first caller is told to create it;
    /// while it does, every other caller is told to wait; once the state
    /// exists every caller is told to go on. Nothing is created here.
    pub fn ensure_initialized(&mut self) -> (action: InitAction)
        ensures
            action == old(self)@.answer(),
            final(self)@ == old(self)@.step(Event::Request),
        no_unwind
    {
        proof {
            use_type_invariant(&*self);
        }
        match self.phase {
            Phase::Uninitialized => {
                self.phase = Phase::Initializing;
                InitAction::Create(self.requested)
            },
            Phase::Initializing => InitAction::Wait,
            Phase::Ready | Phase::Rendering => InitAction::Proceed,
        }
    }

    /// Hands in the handles and the size of the surface that was made. They
    /// are taken only while the state is being created; at any other time
    /// they come back untouched and what exists stays.
    pub fn commit(&mut self, handles: H, surface: Size) -> (rejected: Option<H>)
        ensures
            final(self)@ == old(self)@.step(Event::Commit(Attached { handles, surface })),
            rejected == if old(self)@.accepts_commit() {
                None
            } else {
                Some(handles)
            },
        no_unwind
    {
        proof {
            use_type_invariant(&*self);
        }
        match self.phase {
            Phase::Initializing => {
                *self = RenderState {
                    phase: Phase::Ready,
                    attached: Some(Attached { handles, surface }),
                    requested: self.requested,
                };
                None
            },
            _ => Some(handles),
        }
    }

    /// Reports that the state could not be created. Returns whether a
    /// creation was under way; if so, the next request starts a new one.
    pub fn abandon(&mut self) -> (was_creating: bool)
        ensures
            final(self)@ == old(self)@.step(Event::Abandon),
            was_creating == (old(self)@.phase is Initializing),
        no_unwind
    {
        proof {
            use_type_invariant(&*self);
        }
        match self.phase {
            Phase::Initializing => {
                self.phase = Phase::Uninitialized;
                true
            },
            _ => false,
        }
    }

    /// Opens a frame. Returns whether it was opened: only a ready state
    /// that draws no other frame can open one.
    pub fn begin_frame(&mut self) -> (opened: bool)
        ensures
            final(self)@ == old(self)@.step(Event::BeginFrame),
            opened == (old(self)@.phase is Ready),
        no_unwind
    {
        proof {
            use_type_invariant(&*self);
        }
        match self.phase {
            Phase::Ready => {
                self.phase = Phase::Rendering;
                true
            },
            _ => false,
        }
    }

    /// Closes the open frame. Returns whether there was one.
    pub fn end_frame(&mut self) -> (closed: bool)
        ensures
            final(self)@ == old(self)@.step(Event::EndFrame),
            closed == (old(self)@.phase is Rendering),
        no_unwind
    {
        proof {
            use_type_invariant(&*self);
        }
        match self.phase {
            Phase::Rendering => {
                self.phase = Phase::Ready;
                true
            },
            _ => false,
        }
    }

    /// The handles, for the one who has a frame open. Outside a frame
    /// nobody gets them.
    pub fn frame_handles(&self) -> (handles: Option<&H>)
        ensures
            handles == if self@.phase is Rendering {
                Some(&self@.attached->0.handles)
            } else {
                None
            },
            self@.phase is Rendering ==> self@.attached is Some,
    {
        proof {
            use_type_invariant(self);
        }
        match self.phase {
            Phase::Rendering => match &self.attached {
                Some(attached) => Some(&attached.handles),
                None => None,
            },
            _ => None,
        }
    }

    /// The size of the surface, once the state exists.
    pub fn surface(&self) -> (size: Option<Size>)
        ensures
            size == match self@.attached {
                Some(attached) => Some(attached.surface),
                None => None,
            },
    {
        match &self.attached {
            Some(attached) => Some(attached.surface),
            None => None,
        }
    }
}

/// Whether some event of `events` is a request.
pub open spec fn has_request<H>(events: Seq<Event<H>>) -> bool {
    exists|i: int| 0 <= i < events.len() && (#[trigger] events[i]) is Request
}

/// Well-formedness survives every sequence of events.
pub proof fn lemma_run_keeps_wf<H>(state: Lifecycle<H>, events: Seq<Event<H>>)
    requires
        state.wf(),
    ensures
        state.run(events).wf(),
    decreases events.len(),
{
    if events.len() > 0 {
        lemma_run_keeps_wf(state.step(events.first()), events.drop_first());
    }
}

/// No teardown: once the state exists, no sequence of events removes or
/// replaces its handles, tells anyone to create it again, or takes another
/// commit. Every later observer sees the handles that were committed.
pub proof fn lemma_initialized_for_good<H>(state: Lifecycle<H>, events: Seq<Event<H>>)
    requires
        state.phase.initialized(),
    ensures
        state.run(events).phase.initialized(),
        state.run(events).attached == state.attached,
        state.creations(events) == 0,
        state.commits(events) == 0,
    decreases events.len(),
{
    if events.len() > 0 {
        lemma_initialized_for_good(state.step(events.first()), events.drop_first());
    }
}

/// However requests, commits, failures and frames interleave, at most one
/// caller at a time is creating the state: the callers told to create it
/// exceed those that gave up by one at most (by none once a creation is
/// under way, and nobody is told so once the state exists), and at most one
/// commit is ever taken.
pub proof fn lemma_one_creator<H>(state: Lifecycle<H>, events: Seq<Event<H>>)
    ensures
        state.commits(events) <= 1,
        state.phase is Uninitialized ==> state.creations(events) <= state.abandonments(events)
            + 1,
        state.phase is Initializing ==> state.creations(events) <= state.abandonments(events),
        state.phase.initialized() ==> state.creations(events) == 0 && state.commits(events)
            == 0,
    decreases events.len(),
{
    if events.len() > 0 {
        lemma_one_creator(state.step(events.first()), events.drop_first());
        if state.phase.initialized() {
            lemma_initialized_for_good(state, events);
        }
    }
}

/// A request is never lost: starting with nothing, the first request of any
/// sequence of events is told to create the state.
pub proof fn lemma_first_request_creates<H>(requested: Size, events: Seq<Event<H>>)
    requires
        has_request(events),
    ensures
        Lifecycle::<H>::fresh(requested).creations(events) >= 1,
    decreases events.len(),
{
    let fresh = Lifecycle::<H>::fresh(requested);
    let i = choose|i: int| 0 <= i < events.len() && (#[trigger] events[i]) is Request;
    if !(events.first() is Request) {
        assert(fresh.step(events.first()) == fresh);
        assert(events.drop_first()[i - 1] == events[i]);
        lemma_first_request_creates::<H>(requested, events.drop_first());
    }
}

/// Idempotent initialization. Starting with nothing, let any number of
/// callers ask for the state, in any interleaving with the commit and with
/// frames, and let no creation fail. Then exactly one caller is told to
/// create the state and at most one state comes into being.
pub proof fn lemma_idempotent_initialization<H>(requested: Size, events: Seq<Event<H>>)
    requires
        has_request(events),
        Lifecycle::<H>::fresh(requested).abandonments(events) == 0,
    ensures
        Lifecycle::<H>::fresh(requested).creations(events) == 1,
        Lifecycle::<H>::fresh(requested).commits(events) <= 1,
{
    lemma_one_creator(Lifecycle::<H>::fresh(requested), events);
    lemma_first_request_creates::<H>(requested, events);
}

} // verus!
