//! The load-and-render cycle as a machine of decisions.
//!
//! The host owns the loop: it reports each thing that happened (a trigger,
//! the end of a fetch, the end of a frame) and carries out what it is told.
//! Everything that is shared between overlapping requests lives in one
//! [`Pipeline`], and every change to it goes through one of its methods.

use crate::error::Failure;
use crate::loader::{body_of, is_success, Document, Fetched};
use crate::presenter::{failure_of, plan_frame, FramePlan, FrameResult};
use crate::render_state::{Attached, Event, InitAction, Lifecycle, Phase, RenderState};
use crate::requests::{is_latest, issued_after, next_ticket, was_issued, Requests, Ticket};
use crate::transform::Size;
use vstd::prelude::*;

verus! {

/// What is decided about a request once its document is loaded or has
/// failed to load.
pub enum Verdict {
    /// Its frame is drawn.
    Draw,
    /// Its failure is reported and nothing is drawn.
    Report(Failure),
    /// It was overtaken by a newer request: nothing is drawn or reported.
    Discard,
    /// There is nothing to draw with: the rendering state does not exist
    /// yet, or another frame is open.
    NotReady,
}

/// What the host has to do about a request.
pub enum Action {
    /// Draw this document as the plan says, with the handles of the open
    /// frame, then report how it ended.
    Draw(FramePlan, Document),
    /// Report this failure; leave the screen as it is.
    Report(Failure),
    /// Drop the result silently.
    Discard,
    /// Nothing can be drawn now. The document comes back untouched: make
    /// sure the rendering state exists and no frame is open, then hand it
    /// in again.
    NotReady(Document),
}

impl Action {
    /// The decision an action carries out.
    pub open spec fn verdict(self) -> Verdict {
        match self {
            Action::Draw(_, _) => Verdict::Draw,
            Action::Report(failure) => Verdict::Report(failure),
            Action::Discard => Verdict::Discard,
            Action::NotReady(_) => Verdict::NotReady,
        }
    }
}

/// What can happen to a pipeline.
pub enum Input<H> {
    /// The address changed: a new request starts.
    Trigger,
    /// A request asks for the rendering state to exist.
    Request,
    /// The rendering state was created.
    Commit(Attached<H>),
    /// The rendering state could not be created.
    Abandon,
    /// The document of a request was loaded, or failed to load.
    Settle(Ticket, Result<Document, Failure>),
    /// The open frame ended.
    FrameDone(FrameResult),
}

/// The mathematical content of a [`Pipeline`].
pub struct Model<H> {
    /// The rendering state.
    pub lifecycle: Lifecycle<H>,
    /// How many requests there have been.
    pub issued: nat,
    /// The request whose frame is on screen.
    pub shown: Option<Ticket>,
    /// The request whose frame is being drawn.
    pub drawing: Option<Ticket>,
}

impl<H> Model<H> {
    /// The pipeline before anything has happened.
    pub open spec fn fresh(requested: Size) -> Self {
        Model { lifecycle: Lifecycle::fresh(requested), issued: 0, shown: None, drawing: None }
    }

    /// A frame is being drawn exactly while the state is rendering, the
    /// request numbers fit the machine, only requests that exist are shown
    /// or drawn, and the request being drawn is no older than the one on
    /// screen.
    pub open spec fn wf(self) -> bool {
        &&& self.lifecycle.wf()
        &&& self.issued <= u64::MAX
        &&& self.drawing is Some <==> self.lifecycle.phase is Rendering
        &&& self.shown matches Some(ticket) ==> was_issued(self.issued, ticket)
        &&& self.drawing matches Some(ticket) ==> was_issued(self.issued, ticket)
        &&& self.drawing matches Some(ticket) ==> self.at_most(ticket)
    }

    /// Whether what is on screen, if anything, belongs to `ticket` or to
    /// an older request.
    pub open spec fn at_most(self, ticket: Ticket) -> bool {
        self.shown matches Some(shown) ==> shown.seq <= ticket.seq
    }

    /// What is decided about the request `ticket` whose load ended in
    /// `loaded`. A failed load is reported, whatever else holds. A loaded
    /// document is discarded unless the request is the latest; it waits
    /// unless the state is ready; else it is drawn.
    pub open spec fn verdict(self, ticket: Ticket, loaded: Result<Document, Failure>) -> Verdict {
        match loaded {
            Err(failure) => Verdict::Report(failure),
            Ok(_) => if !is_latest(self.issued, ticket) {
                Verdict::Discard
            } else if !(self.lifecycle.phase is Ready) {
                Verdict::NotReady
            } else {
                Verdict::Draw
            },
        }
    }

    /// The pipeline after one input. An input that does not apply leaves
    /// the pipeline as it is.
    pub open spec fn step(self, input: Input<H>) -> Self {
        match input {
            Input::Trigger => Model { issued: issued_after(self.issued), ..self },
            Input::Request => Model { lifecycle: self.lifecycle.step(Event::Request), ..self },
            Input::Commit(attached) => Model {
                lifecycle: self.lifecycle.step(Event::Commit(attached)),
                ..self
            },
            Input::Abandon => Model { lifecycle: self.lifecycle.step(Event::Abandon), ..self },
            Input::Settle(ticket, loaded) => if self.verdict(ticket, loaded) is Draw {
                Model {
                    lifecycle: self.lifecycle.step(Event::BeginFrame),
                    drawing: Some(ticket),
                    ..self
                }
            } else {
                self
            },
            Input::FrameDone(result) => if self.lifecycle.phase is Rendering {
                Model {
                    lifecycle: self.lifecycle.step(Event::EndFrame),
                    drawing: None,
                    shown: if result is Presented {
                        self.drawing
                    } else {
                        self.shown
                    },
                    ..self
                }
            } else {
                self
            },
        }
    }

    /// The pipeline after a sequence of inputs, first to last.
    pub open spec fn run(self, inputs: Seq<Input<H>>) -> Self
        decreases inputs.len(),
    {
        if inputs.len() == 0 {
            self
        } else {
            self.step(inputs.first()).run(inputs.drop_first())
        }
    }

    /// Whether `ticket` is neither on screen nor being drawn.
    pub open spec fn unseen(self, ticket: Ticket) -> bool {
        self.shown != Some(ticket) && self.drawing != Some(ticket)
    }
}

/// Whether settling `ticket` with `loaded` takes the pipeline from
/// `before` to `after` with the action `action`; the document to draw, or
/// to hand in again, is the loaded one, and the plan places it on the
/// surface by its measure.
pub open spec fn settles_as<H>(
    before: Model<H>,
    ticket: Ticket,
    loaded: Result<Document, Failure>,
    action: Action,
    after: Model<H>,
) -> bool {
    &&& after == before.step(Input::Settle(ticket, loaded))
    &&& action.verdict() == before.verdict(ticket, loaded)
    &&& action matches Action::Draw(plan, document) ==> {
        &&& loaded == Ok::<Document, Failure>(document)
        &&& before.lifecycle.attached is Some
        &&& plan.shows(document.spec_measure(), before.lifecycle.attached->0.surface)
    }
    &&& action matches Action::NotReady(document) ==> loaded == Ok::<Document, Failure>(document)
}

/// The one context that overlapping requests share: the rendering state,
/// the request numbers, and which request is on screen.
pub struct Pipeline<H> {
    state: RenderState<H>,
    requests: Requests,
    shown: Option<Ticket>,
    drawing: Option<Ticket>,
}

impl<H> View for Pipeline<H> {
    type V = Model<H>;

    closed spec fn view(&self) -> Model<H> {
        Model {
            lifecycle: self.state@,
            issued: self.requests@,
            shown: self.shown,
            drawing: if self.state@.phase is Rendering {
                self.drawing
            } else {
                None
            },
        }
    }
}

impl<H> Pipeline<H> {
    #[verifier::type_invariant]
    spec fn inv(&self) -> bool {
        &&& self.state@.phase is Rendering ==> self.drawing is Some
        &&& self.shown matches Some(ticket) ==> was_issued(self.requests@, ticket)
        &&& self.drawing matches Some(ticket) ==> was_issued(self.requests@, ticket)
        &&& self.shown matches Some(shown) ==> (self.drawing matches Some(ticket) ==> shown.seq
            <= ticket.seq)
    }

    /// A pipeline in which nothing has happened. `requested` is the size
    /// the surface will be asked to have.
    pub fn new(requested: Size) -> (pipeline: Self)
        ensures
            pipeline@ == Model::<H>::fresh(requested),
            pipeline@.wf(),
    {
        Pipeline {
            state: RenderState::new(requested),
            requests: Requests::new(),
            shown: None,
            drawing: None,
        }
    }

    /// The current phase of the rendering state.
    pub fn phase(&self) -> (phase: Phase)
        ensures
            phase == self@.lifecycle.phase,
            self@.wf(),
    {
        proof {
            use_type_invariant(self);
            self.requests.lemma_bounded();
        }
        self.state.phase()
    }

    /// The size of the surface, once the rendering state exists.
    pub fn surface(&self) -> (size: Option<Size>)
        ensures
            size == match self@.lifecycle.attached {
                Some(attached) => Some(attached.surface),
                None => None,
            },
    {
        self.state.surface()
    }

    /// The request whose frame is on screen, if any frame is.
    pub fn shown(&self) -> (ticket: Option<Ticket>)
        ensures
            ticket == self@.shown,
    {
        self.shown
    }

    /// Starts a request and gives its ticket. There is none only after
    /// `u64::MAX` requests.
    pub fn trigger(&mut self) -> (ticket: Option<Ticket>)
        ensures
            final(self)@ == old(self)@.step(Input::Trigger),
            ticket == next_ticket(old(self)@.issued),
    {
        proof {
            use_type_invariant(&*self);
        }
        self.requests.issue()
    }

    /// Asks for the rendering state to exist. See
    /// [`RenderState::ensure_initialized`].
    pub fn ensure_initialized(&mut self) -> (action: InitAction)
        ensures
            final(self)@ == old(self)@.step(Input::Request),
            action == old(self)@.lifecycle.answer(),
    {
        proof {
            use_type_invariant(&*self);
        }
        self.state.ensure_initialized()
    }

    /// Hands in the handles and the size of the surface that was made. See
    /// [`RenderState::commit`].
    pub fn commit(&mut self, handles: H, surface: Size) -> (rejected: Option<H>)
        ensures
            final(self)@ == old(self)@.step(Input::Commit(Attached { handles, surface })),
            rejected == if old(self)@.lifecycle.accepts_commit() {
                None
            } else {
                Some(handles)
            },
    {
        proof {
            use_type_invariant(&*self);
        }
        self.state.commit(handles, surface)
    }

    /// Reports that the rendering state could not be created. If a
    /// creation was under way, this is a `DeviceInitError`, and the next
    /// request starts a new creation.
    pub fn abandon(&mut self) -> (failure: Option<Failure>)
        ensures
            final(self)@ == old(self)@.step(Input::Abandon),
            failure == if old(self)@.lifecycle.phase is Initializing {
                Some(Failure::DeviceInitError)
            } else {
                None
            },
    {
        proof {
            use_type_invariant(&*self);
        }
        if self.state.abandon() {
            Some(Failure::DeviceInitError)
        } else {
            None
        }
    }

    /// Decides about a request whose load has ended. A failure is handed
    /// back to be reported and changes nothing. A document is drawn only
    /// for the latest request and only on a ready state: a frame is then
    /// opened for it, and the document comes back with the plan to draw it
    /// by. Where nothing can be drawn now, the document comes back alone.
    pub fn settle_loaded(&mut self, ticket: Ticket, loaded: Result<Document, Failure>) -> (action:
        Action)
        ensures
            settles_as(old(self)@, ticket, loaded, action, final(self)@),
    {
        proof {
            use_type_invariant(&*self);
        }
        match loaded {
            Err(failure) => Action::Report(failure),
            Ok(document) => {
                if !self.requests.is_latest(ticket) {
                    Action::Discard
                } else {
                    match (self.state.phase(), self.state.surface()) {
                        (Phase::Ready, Some(surface)) => {
                            let plan = plan_frame(&document, surface);
                            self.drawing = Some(ticket);
                            self.state.begin_frame();
                            Action::Draw(plan, document)
                        },
                        _ => Action::NotReady(document),
                    }
                }
            },
        }
    }

    /// The handles, for the one who has a frame open. Outside a frame
    /// nobody gets them.
    pub fn frame_handles(&self) -> (handles: Option<&H>)
        ensures
            handles == if self@.lifecycle.phase is Rendering {
                Some(&self@.lifecycle.attached->0.handles)
            } else {
                None
            },
    {
        self.state.frame_handles()
    }

    /// Closes the open frame and says what its end amounts to. A presented
    /// frame puts its request on screen; a failed one leaves the screen as
    /// it was. Without an open frame nothing happens.
    pub fn frame_done(&mut self, result: FrameResult) -> (failure: Option<Failure>)
        ensures
            final(self)@ == old(self)@.step(Input::FrameDone(result)),
            failure == if old(self)@.lifecycle.phase is Rendering {
                failure_of(result)
            } else {
                None
            },
    {
        proof {
            use_type_invariant(&*self);
        }
        if self.state.end_frame() {
            match result {
                FrameResult::Presented => {
                    self.shown = self.drawing;
                },
                _ => {},
            }
            self.drawing = None;
            failure_of(result)
        } else {
            None
        }
    }
}

/// Well-formedness survives every input.
pub proof fn lemma_step_keeps_wf<H>(model: Model<H>, input: Input<H>)
    requires
        model.wf(),
    ensures
        model.step(input).wf(),
{
}

/// Well-formedness survives every sequence of inputs.
pub proof fn lemma_run_keeps_wf<H>(model: Model<H>, inputs: Seq<Input<H>>)
    requires
        model.wf(),
    ensures
        model.run(inputs).wf(),
    decreases inputs.len(),
{
    if inputs.len() > 0 {
        lemma_step_keeps_wf(model, inputs.first());
        lemma_run_keeps_wf(model.step(inputs.first()), inputs.drop_first());
    }
}

/// Request numbers only grow, whatever happens.
pub proof fn lemma_requests_only_grow<H>(model: Model<H>, inputs: Seq<Input<H>>)
    ensures
        model.run(inputs).issued >= model.issued,
    decreases inputs.len(),
{
    if inputs.len() > 0 {
        lemma_requests_only_grow(model.step(inputs.first()), inputs.drop_first());
    }
}

/// A frame is opened for the latest request only.
pub proof fn lemma_only_latest_is_drawn<H>(
    model: Model<H>,
    ticket: Ticket,
    loaded: Result<Document, Failure>,
)
    ensures
        model.verdict(ticket, loaded) is Draw ==> is_latest(model.issued, ticket)
            && model.lifecycle.phase is Ready && loaded is Ok,
        !(model.verdict(ticket, loaded) is Draw) ==> model.step(Input::Settle(ticket, loaded))
            == model,
{
}

/// A failed load draws nothing. Whatever the state of the pipeline and
/// whichever request it was, a load that ended in a failure is answered
/// with that failure, no frame is opened, and what is on screen stays.
pub proof fn lemma_failed_load_changes_nothing<H>(
    model: Model<H>,
    ticket: Ticket,
    failure: Failure,
)
    ensures
        model.verdict(ticket, Err(failure)) == Verdict::Report(failure),
        model.step(Input::Settle(ticket, Err(failure))) == model,
{
}

/// A failed fetch draws nothing. A fetch that brought no response, or one
/// without a success status, is a `NetworkError`; settled with it, any
/// request in any state is answered with that failure and nothing changes.
pub proof fn lemma_failed_fetch_is_reported<H>(model: Model<H>, ticket: Ticket, fetched: Fetched)
    requires
        !(fetched matches Fetched::Response { status, .. } && is_success(status)),
    ensures
        body_of(fetched) == Err::<String, Failure>(Failure::NetworkError),
        model.verdict(ticket, Err(body_of(fetched)->Err_0)) == Verdict::Report(
            Failure::NetworkError,
        ),
        model.step(Input::Settle(ticket, Err(body_of(fetched)->Err_0))) == model,
{
}

/// Stale results are discarded. Take a request that has been overtaken by
/// a newer one and whose frame is neither on screen nor being drawn. Then,
/// whatever happens afterwards and in whatever order, its frame never gets
/// on screen and is never drawn, and handing in its result, however late,
/// never opens a frame.
pub proof fn lemma_stale_result_discarded<H>(
    model: Model<H>,
    stale: Ticket,
    inputs: Seq<Input<H>>,
    loaded: Result<Document, Failure>,
)
    requires
        model.wf(),
        stale.seq < model.issued,
        model.unseen(stale),
    ensures
        model.run(inputs).unseen(stale),
        stale.seq < model.run(inputs).issued,
        !(model.run(inputs).verdict(stale, loaded) is Draw),
    decreases inputs.len(),
{
    if inputs.len() > 0 {
        let next = model.step(inputs.first());
        lemma_step_keeps_wf(model, inputs.first());
        assert(next.unseen(stale) && stale.seq < next.issued);
        lemma_stale_result_discarded(next, stale, inputs.drop_first(), loaded);
    }
}

/// The newer of two requests wins. Let a request be triggered after
/// `older` was, while `older` has not been settled into a frame. Then only
/// the newer request's content, or that of a still newer one, can ever be
/// presented from then on: `older` is discarded whenever it resolves.
pub proof fn lemma_newer_request_wins<H>(
    model: Model<H>,
    older: Ticket,
    inputs: Seq<Input<H>>,
    loaded: Result<Document, Failure>,
)
    requires
        model.wf(),
        model.issued < u64::MAX,
        was_issued(model.issued, older),
        model.unseen(older),
    ensures
        ({
            let later = model.step(Input::Trigger).run(inputs);
            &&& later.unseen(older)
            &&& !(later.verdict(older, loaded) is Draw)
            &&& loaded is Ok ==> later.verdict(older, loaded) == Verdict::Discard
        }),
{
    lemma_step_keeps_wf(model, Input::Trigger);
    lemma_stale_result_discarded(model.step(Input::Trigger), older, inputs, loaded);
}

/// The latest request gets on screen: if its document loads while the
/// state is ready and its frame is presented, it is what the screen shows.
pub proof fn lemma_latest_request_is_shown<H>(
    model: Model<H>,
    ticket: Ticket,
    loaded: Result<Document, Failure>,
)
    requires
        model.lifecycle.phase is Ready,
        is_latest(model.issued, ticket),
        loaded is Ok,
    ensures
        model.step(Input::Settle(ticket, loaded)).step(
            Input::FrameDone(FrameResult::Presented),
        ).shown == Some(ticket),
{
}

/// The screen never goes back: whatever happens, what is on screen is
/// replaced only by the frame of a request that is at least as new.
pub proof fn lemma_screen_never_goes_back<H>(
    model: Model<H>,
    shown: Ticket,
    inputs: Seq<Input<H>>,
)
    requires
        model.wf(),
        model.shown == Some(shown),
    ensures
        model.run(inputs).shown matches Some(later) && shown.seq <= later.seq,
    decreases inputs.len(),
{
    if inputs.len() > 0 {
        let next = model.step(inputs.first());
        lemma_step_keeps_wf(model, inputs.first());
        let between = next.shown->0;
        assert(next.shown is Some && shown.seq <= between.seq);
        lemma_screen_never_goes_back(next, between, inputs.drop_first());
    }
}

} // verus!
