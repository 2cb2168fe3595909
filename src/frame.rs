//! The frame loop as a state machine: it owns the swapchain with its views
//! and framebuffers, decides when to tear them down and rebuild them, orders
//! acquisition, submission and presentation, and tells its driver which GPU
//! or window work to do next. The driver hands back what came of that work.
//!
//! Synchronisation follows the semaphore chain: acquisition signals the
//! frame semaphore, the submission waits on it and signals the present
//! semaphore, and presentation waits on that. The submission also signals a
//! fence, which is waited on before the command pool is reset for the next
//! frame, so that no buffer is re-recorded while a submission still uses it.

use vstd::prelude::*;
use vstd::pervasive::unreached;

verus! {

/// Width and height of a swapchain's images, in pixels.
#[derive(Clone, Copy, Debug, PartialEq, Eq, Structural)]
pub struct Extent {
    pub width: u32,
    pub height: u32,
}

/// What the window reported since the last poll.
#[derive(Clone, Copy, Debug, PartialEq, Eq, Structural)]
pub enum WindowSignal {
    CloseRequested,
    Resized { width: u32, height: u32 },
    /// A key went down or up; `escape` where it is the Escape key.
    KeyInput { escape: bool, pressed: bool },
    /// Anything the loop does not react to.
    Other,
}

/// The signal asks the loop to terminate.
pub open spec fn asks_to_quit(s: WindowSignal) -> bool {
    match s {
        WindowSignal::CloseRequested => true,
        WindowSignal::KeyInput { escape, pressed } => escape && pressed,
        _ => false,
    }
}

/// The signal invalidates the swapchain.
pub open spec fn invalidates(s: WindowSignal) -> bool {
    s is Resized
}

/// What an image acquisition returned.
#[derive(Clone, Copy, Debug, PartialEq, Eq, Structural)]
pub enum AcquireResult {
    /// An image index; `suboptimal` where the swapchain no longer matches the surface exactly.
    Image { index: u32, suboptimal: bool },
    /// No image: the swapchain is out of date, or the wait expired.
    OutOfDate,
}

/// What presenting an image returned.
#[derive(Clone, Copy, Debug, PartialEq, Eq, Structural)]
pub enum PresentResult {
    Presented,
    /// Presented, but the swapchain no longer matches the surface exactly.
    Suboptimal,
    /// Not presented: the swapchain is out of date.
    OutOfDate,
}

/// The swapchain and what was derived from each of its images.
#[derive(Debug)]
pub struct SwapchainResources<S, V, F> {
    swapchain: S,
    extent: Extent,
    images: usize,
    views: Vec<V>,
    framebuffers: Vec<F>,
}

/// Counts and shape of a swapchain's resources.
pub struct ChainView {
    pub extent: Extent,
    pub images: nat,
    pub views: nat,
    pub framebuffers: nat,
}

impl ChainView {
    /// One view and one framebuffer per image, or, where the backend hands
    /// back a single opaque framebuffer, that one and no view.
    pub open spec fn wf(self) -> bool {
        ||| (self.views == self.images && self.framebuffers == self.images)
        ||| (self.views == 0 && self.framebuffers == 1 && self.images == 1)
    }
}

impl<S, V, F> View for SwapchainResources<S, V, F> {
    type V = ChainView;

    closed spec fn view(&self) -> ChainView {
        ChainView {
            extent: self.extent,
            images: self.images as nat,
            views: self.views@.len(),
            framebuffers: self.framebuffers@.len(),
        }
    }

}

impl<S, V, F> SwapchainResources<S, V, F> {
    pub closed spec fn swapchain_spec(&self) -> S {
        self.swapchain
    }

    pub closed spec fn views_spec(&self) -> Seq<V> {
        self.views@
    }

    pub closed spec fn framebuffers_spec(&self) -> Seq<F> {
        self.framebuffers@
    }

    /// Resources of a swapchain whose images each got one view and one framebuffer.
    pub fn from_images(swapchain: S, extent: Extent, views: Vec<V>, framebuffers: Vec<F>) -> (r: Self)
        requires
            views@.len() == framebuffers@.len(),
        ensures
            r@ == (ChainView {
                extent,
                images: views@.len(),
                views: views@.len(),
                framebuffers: framebuffers@.len(),
            }),
            r@.wf(),
            r.swapchain_spec() == swapchain,
            r.views_spec() == views@,
            r.framebuffers_spec() == framebuffers@,
    {
        let images = views.len();
        SwapchainResources { swapchain, extent, images, views, framebuffers }
    }

    /// Resources of a swapchain whose backend hands back one opaque framebuffer.
    pub fn from_framebuffer(swapchain: S, extent: Extent, framebuffer: F) -> (r: Self)
        ensures
            r@ == (ChainView { extent, images: 1, views: 0, framebuffers: 1 }),
            r@.wf(),
            r.swapchain_spec() == swapchain,
            r.framebuffers_spec() == seq![framebuffer],
    {
        let mut framebuffers = Vec::new();
        framebuffers.push(framebuffer);
        SwapchainResources { swapchain, extent, images: 1, views: Vec::new(), framebuffers }
    }

    pub fn swapchain_mut(&mut self) -> (r: &mut S)
        ensures
            *r == old(self).swapchain_spec(),
            final(self)@ == old(self)@,
            final(self).swapchain_spec() == *final(r),
    {
        &mut self.swapchain
    }
}

/// Where the frame loop stands: the action it last asked for, whose outcome it awaits.
#[derive(Clone, Copy, Debug, PartialEq, Eq, Structural)]
pub enum Stage {
    /// Awaiting the window's signals.
    Polling,
    /// Teardown has begun; awaiting the device-idle wait.
    AwaitingIdle,
    /// The device is idle; awaiting the command-pool reset.
    ResettingForTeardown,
    /// Awaiting the destruction of a framebuffer, view or swapchain.
    Destroying,
    /// Awaiting a new swapchain.
    Building,
    /// Awaiting the fence of the previous submission.
    AwaitingSubmission,
    /// Awaiting the command-pool reset that starts a frame.
    ResettingPool,
    /// Awaiting an image index.
    Acquiring,
    /// Awaiting the submission of the frame for this image.
    Recording { image: u32 },
    /// Awaiting the present of this image.
    Presenting { image: u32 },
    /// Left the loop.
    Exited,
}

/// Work that the loop asks its driver to carry out, with the handle it concerns.
#[derive(Debug, PartialEq, Eq)]
pub enum Action<S, V, F> {
    /// Poll the window and report what it signalled.
    PollEvents,
    /// Block until the device has no work in flight.
    WaitIdle,
    /// Block on the fence of the previous submission.
    WaitForSubmission,
    /// Reset the command pool.
    ResetPool,
    DestroyFramebuffer(F),
    DestroyView(V),
    DestroySwapchain(S),
    /// Query the surface and create a swapchain with its views and framebuffers.
    Build,
    /// Acquire the next image, signalling the frame semaphore.
    Acquire,
    /// Record this frame's commands against the image's framebuffer and submit them.
    Record { image: u32 },
    /// Present the image once the submitted work has completed.
    Present { image: u32 },
    /// Leave the loop: every swapchain resource has been released.
    Exit,
}

/// The kind of an action, without its handle.
#[derive(Clone, Copy, Debug, PartialEq, Eq, Structural)]
pub enum ActionKind {
    PollEvents,
    WaitIdle,
    WaitForSubmission,
    ResetPool,
    DestroyFramebuffer,
    DestroyView,
    DestroySwapchain,
    Build,
    Acquire,
    Record { image: u32 },
    Present { image: u32 },
    Exit,
}

impl<S, V, F> Action<S, V, F> {
    pub open spec fn kind(&self) -> ActionKind {
        match self {
            Action::PollEvents => ActionKind::PollEvents,
            Action::WaitIdle => ActionKind::WaitIdle,
            Action::WaitForSubmission => ActionKind::WaitForSubmission,
            Action::ResetPool => ActionKind::ResetPool,
            Action::DestroyFramebuffer(_) => ActionKind::DestroyFramebuffer,
            Action::DestroyView(_) => ActionKind::DestroyView,
            Action::DestroySwapchain(_) => ActionKind::DestroySwapchain,
            Action::Build => ActionKind::Build,
            Action::Acquire => ActionKind::Acquire,
            Action::Record { image } => ActionKind::Record { image: *image },
            Action::Present { image } => ActionKind::Present { image: *image },
            Action::Exit => ActionKind::Exit,
        }
    }
}

/// What came of the action that the loop asked for last.
#[derive(Debug)]
pub enum Outcome<S, V, F> {
    /// The window was polled; these are its signals, in order.
    Polled(Vec<WindowSignal>),
    /// The device-idle wait returned.
    Idle,
    /// A wait, reset, destruction or submission was carried out.
    Done,
    /// A swapchain was built.
    Built(SwapchainResources<S, V, F>),
    Acquired(AcquireResult),
    Presented(PresentResult),
}

/// An outcome, with counts in place of handles.
pub enum OutcomeView {
    Polled(Seq<WindowSignal>),
    Idle,
    Done,
    Built(ChainView),
    Acquired(AcquireResult),
    Presented(PresentResult),
}

impl<S, V, F> View for Outcome<S, V, F> {
    type V = OutcomeView;

    open spec fn view(&self) -> OutcomeView {
        match self {
            Outcome::Polled(signals) => OutcomeView::Polled(signals@),
            Outcome::Idle => OutcomeView::Idle,
            Outcome::Done => OutcomeView::Done,
            Outcome::Built(r) => OutcomeView::Built(r@),
            Outcome::Acquired(a) => OutcomeView::Acquired(*a),
            Outcome::Presented(p) => OutcomeView::Presented(*p),
        }
    }
}

/// What remains of a swapchain that is being torn down.
pub struct TeardownView {
    /// The device-idle wait has returned.
    pub idle: bool,
    /// The command pool was reset after that wait.
    pub reset: bool,
    pub framebuffers: nat,
    pub views: nat,
    pub swapchain: bool,
}

/// The state of the frame loop, with counts in place of handles.
pub struct LoopView {
    pub stage: Stage,
    /// The current swapchain, if one exists.
    pub chain: Option<ChainView>,
    /// A swapchain being torn down.
    pub teardown: Option<TeardownView>,
    /// The swapchain has been invalidated and is to be rebuilt.
    pub rebuild: bool,
    /// Termination was requested.
    pub quitting: bool,
    /// A submission may still reference the command pool's buffer.
    pub submission_pending: bool,
    /// Frames handed to the presentation engine.
    pub presented: u64,
}

impl LoopView {
    pub open spec fn wf(self) -> bool {
        &&& (self.chain matches Some(c) ==> c.wf())
        &&& match self.stage {
            Stage::Polling => self.teardown is None,
            Stage::AwaitingIdle => {
                &&& self.chain is None
                &&& self.teardown matches Some(t) && !t.idle && !t.reset && t.swapchain
            },
            Stage::ResettingForTeardown => {
                &&& self.chain is None
                &&& self.teardown matches Some(t) && t.idle && !t.reset && t.swapchain
            },
            Stage::Destroying => {
                &&& self.chain is None
                &&& self.teardown matches Some(t) && t.idle && t.reset
            },
            Stage::Building => self.chain is None && self.teardown is None,
            Stage::AwaitingSubmission => self.chain is Some && self.teardown is None,
            Stage::ResettingPool => self.chain is Some && self.teardown is None,
            Stage::Acquiring => self.chain is Some && self.teardown is None,
            Stage::Recording { image } => {
                &&& self.chain matches Some(c) && image < c.framebuffers
                &&& self.teardown is None
            },
            Stage::Presenting { image } => {
                &&& self.chain matches Some(c) && image < c.framebuffers
                &&& self.teardown is None
            },
            Stage::Exited => self.chain is None && self.teardown is None,
        }
    }
}

/// The loop before its first poll: no swapchain yet.
pub open spec fn initial_loop() -> LoopView {
    LoopView {
        stage: Stage::Polling,
        chain: None,
        teardown: None,
        rebuild: false,
        quitting: false,
        submission_pending: false,
        presented: 0,
    }
}

/// Some signal of the poll asks to terminate.
pub open spec fn any_quit(signals: Seq<WindowSignal>) -> bool {
    exists|i: int| 0 <= i < signals.len() && asks_to_quit(#[trigger] signals[i])
}

/// Some signal of the poll invalidates the swapchain.
pub open spec fn any_resize(signals: Seq<WindowSignal>) -> bool {
    exists|i: int| 0 <= i < signals.len() && invalidates(#[trigger] signals[i])
}

/// Whether the loop, as it stands, can take this outcome.
pub open spec fn accepts(v: LoopView, o: OutcomeView) -> bool {
    match v.stage {
        Stage::Polling => o is Polled,
        Stage::AwaitingIdle => o is Idle,
        Stage::Building => o matches OutcomeView::Built(c) && c.wf(),
        Stage::Acquiring => o is Acquired,
        Stage::Presenting { .. } => o is Presented,
        Stage::Exited => false,
        _ => o is Done,
    }
}

/// Start of a frame on a valid swapchain: wait for the previous submission
/// if one may still be in flight, then reset the pool.
pub open spec fn frame_start(v: LoopView) -> (LoopView, ActionKind) {
    if v.submission_pending {
        (LoopView { stage: Stage::AwaitingSubmission, ..v }, ActionKind::WaitForSubmission)
    } else {
        (LoopView { stage: Stage::ResettingPool, ..v }, ActionKind::ResetPool)
    }
}

/// With nothing left to tear down: exit, build a swapchain, or start a frame.
pub open spec fn settle(v: LoopView) -> (LoopView, ActionKind) {
    if v.quitting {
        (LoopView { stage: Stage::Exited, ..v }, ActionKind::Exit)
    } else if v.chain is None {
        (LoopView { stage: Stage::Building, rebuild: false, ..v }, ActionKind::Build)
    } else {
        frame_start(v)
    }
}

/// After a poll: an invalidated or abandoned swapchain is torn down first,
/// beginning with a device-idle wait.
pub open spec fn after_poll(v: LoopView) -> (LoopView, ActionKind) {
    if (v.rebuild || v.quitting) && v.chain is Some {
        let c = v.chain.unwrap();
        (
            LoopView {
                stage: Stage::AwaitingIdle,
                chain: None,
                teardown: Some(
                    TeardownView {
                        idle: false,
                        reset: false,
                        framebuffers: c.framebuffers,
                        views: c.views,
                        swapchain: true,
                    },
                ),
                ..v
            },
            ActionKind::WaitIdle,
        )
    } else {
        settle(v)
    }
}

/// The next destruction of a teardown: framebuffers, then views, then the
/// swapchain itself.
pub open spec fn next_destroy(v: LoopView) -> (LoopView, ActionKind) {
    let t = v.teardown.unwrap();
    if t.framebuffers > 0 {
        (
            LoopView {
                stage: Stage::Destroying,
                teardown: Some(TeardownView { framebuffers: (t.framebuffers - 1) as nat, ..t }),
                ..v
            },
            ActionKind::DestroyFramebuffer,
        )
    } else if t.views > 0 {
        (
            LoopView {
                stage: Stage::Destroying,
                teardown: Some(TeardownView { views: (t.views - 1) as nat, ..t }),
                ..v
            },
            ActionKind::DestroyView,
        )
    } else if t.swapchain {
        (
            LoopView {
                stage: Stage::Destroying,
                teardown: Some(TeardownView { swapchain: false, ..t }),
                ..v
            },
            ActionKind::DestroySwapchain,
        )
    } else {
        settle(LoopView { teardown: None, ..v })
    }
}

/// One transition of the frame loop: the state after an outcome, and the
/// action it asks for next.
pub open spec fn next(v: LoopView, o: OutcomeView) -> (LoopView, ActionKind) {
    match (v.stage, o) {
        (Stage::Polling, OutcomeView::Polled(signals)) => after_poll(
            LoopView {
                quitting: v.quitting || any_quit(signals),
                rebuild: v.rebuild || any_resize(signals),
                ..v
            },
        ),
        (Stage::AwaitingIdle, OutcomeView::Idle) => (
            LoopView {
                stage: Stage::ResettingForTeardown,
                submission_pending: false,
                teardown: Some(TeardownView { idle: true, ..v.teardown.unwrap() }),
                ..v
            },
            ActionKind::ResetPool,
        ),
        (Stage::ResettingForTeardown, OutcomeView::Done) => next_destroy(
            LoopView { teardown: Some(TeardownView { reset: true, ..v.teardown.unwrap() }), ..v },
        ),
        (Stage::Destroying, OutcomeView::Done) => next_destroy(v),
        (Stage::Building, OutcomeView::Built(c)) => frame_start(LoopView { chain: Some(c), ..v }),
        (Stage::AwaitingSubmission, OutcomeView::Done) => (
            LoopView { stage: Stage::ResettingPool, submission_pending: false, ..v },
            ActionKind::ResetPool,
        ),
        (Stage::ResettingPool, OutcomeView::Done) => (
            LoopView { stage: Stage::Acquiring, ..v },
            ActionKind::Acquire,
        ),
        (Stage::Acquiring, OutcomeView::Acquired(AcquireResult::Image { index, suboptimal })) => {
            if index < v.chain.unwrap().framebuffers {
                (
                    LoopView {
                        stage: Stage::Recording { image: index },
                        rebuild: v.rebuild || suboptimal,
                        ..v
                    },
                    ActionKind::Record { image: index },
                )
            } else {
                (LoopView { stage: Stage::Polling, rebuild: true, ..v }, ActionKind::PollEvents)
            }
        },
        (Stage::Acquiring, OutcomeView::Acquired(AcquireResult::OutOfDate)) => (
            LoopView { stage: Stage::Polling, rebuild: true, ..v },
            ActionKind::PollEvents,
        ),
        (Stage::Recording { image }, OutcomeView::Done) => (
            LoopView { stage: Stage::Presenting { image }, submission_pending: true, ..v },
            ActionKind::Present { image },
        ),
        (Stage::Presenting { .. }, OutcomeView::Presented(r)) => (
            LoopView {
                stage: Stage::Polling,
                rebuild: v.rebuild || r != PresentResult::Presented,
                presented: if r != PresentResult::OutOfDate && v.presented < u64::MAX {
                    (v.presented + 1) as u64
                } else {
                    v.presented
                },
                ..v
            },
            ActionKind::PollEvents,
        ),
        _ => (v, ActionKind::Exit),
    }
}

/// The state after taking `outcomes` one by one.
pub open spec fn run(v: LoopView, outcomes: Seq<OutcomeView>) -> LoopView
    decreases outcomes.len(),
{
    if outcomes.len() == 0 {
        v
    } else {
        run(next(v, outcomes[0]).0, outcomes.drop_first())
    }
}

/// Each outcome of the sequence is one the loop can take when it arrives.
pub open spec fn run_accepted(v: LoopView, outcomes: Seq<OutcomeView>) -> bool
    decreases outcomes.len(),
{
    outcomes.len() == 0 || (accepts(v, outcomes[0]) && run_accepted(
        next(v, outcomes[0]).0,
        outcomes.drop_first(),
    ))
}

/// Every transition keeps the loop well formed.
pub proof fn lemma_next_wf(v: LoopView, o: OutcomeView)
    requires
        v.wf(),
        accepts(v, o),
    ensures
        next(v, o).0.wf(),
{
}

/// Whatever resizes, frames and teardowns come, the current swapchain has one
/// view and one framebuffer per image, or its single opaque framebuffer and
/// no view.
pub proof fn lemma_counts_match_images(v: LoopView, outcomes: Seq<OutcomeView>)
    requires
        v.wf(),
        run_accepted(v, outcomes),
    ensures
        run(v, outcomes).wf(),
        run(v, outcomes).chain matches Some(c) ==> {
            ||| (c.views == c.images && c.framebuffers == c.images)
            ||| (c.views == 0 && c.framebuffers == 1 && c.images == 1)
        },
    decreases outcomes.len(),
{
    if outcomes.len() > 0 {
        lemma_next_wf(v, outcomes[0]);
        lemma_counts_match_images(next(v, outcomes[0]).0, outcomes.drop_first());
    }
}

/// Teardown waits for the device to be idle and for the pool to be reset,
/// then destroys framebuffers, then views, then the swapchain; a swapchain is
/// built only where none exists and nothing of an old one remains.
pub proof fn lemma_teardown_order(v: LoopView, o: OutcomeView)
    requires
        v.wf(),
        accepts(v, o),
    ensures
        ({
            let (w, a) = next(v, o);
            &&& a is WaitIdle ==> v.chain is Some && w.chain is None && (w.teardown matches Some(
                t,
            ) && !t.idle)
            &&& a is DestroyFramebuffer ==> (w.teardown matches Some(t) && t.idle && t.reset)
            &&& a is DestroyView ==> (w.teardown matches Some(t) && t.idle && t.reset
                && t.framebuffers == 0)
            &&& a is DestroySwapchain ==> (w.teardown matches Some(t) && t.idle && t.reset
                && t.framebuffers == 0 && t.views == 0)
            &&& a is Build ==> v.chain is None && w.teardown is None
            &&& a is Build && v.teardown is Some ==> (v.teardown matches Some(t) && t.idle
                && t.reset && t.framebuffers == 0 && t.views == 0 && !t.swapchain)
            &&& (v.teardown is Some && w.teardown is None) ==> (v.teardown matches Some(t)
                && t.idle && t.reset && t.framebuffers == 0 && t.views == 0 && !t.swapchain)
        }),
{
}

/// On a steady path (no resize, no termination, exact acquisitions and
/// presents) the swapchain is kept, no teardown starts, and the image that
/// is recorded and presented is the one that was acquired.
pub proof fn lemma_steady_frame(v: LoopView, o: OutcomeView)
    requires
        v.wf(),
        accepts(v, o),
        v.chain is Some,
        !v.rebuild,
        !v.quitting,
        o matches OutcomeView::Polled(signals) ==> !any_quit(signals) && !any_resize(signals),
        o matches OutcomeView::Acquired(r) ==> (r matches AcquireResult::Image {
            index,
            suboptimal,
        } && !suboptimal && index < v.chain.unwrap().framebuffers),
        o matches OutcomeView::Presented(r) ==> r == PresentResult::Presented,
    ensures
        ({
            let (w, a) = next(v, o);
            &&& w.chain == v.chain
            &&& !w.rebuild
            &&& !w.quitting
            &&& w.teardown is None
            &&& !(a is WaitIdle) && !(a is Build) && !(a is Exit)
            &&& o matches OutcomeView::Acquired(AcquireResult::Image { index, .. }) ==> a
                == ActionKind::Record { image: index }
            &&& v.stage matches Stage::Recording { image } ==> a == ActionKind::Present {
                image,
            }
        }),
{
}

/// An outcome of the steady path for a swapchain of shape `c`: a poll with
/// no resize and no termination, an exact acquisition of one of its images,
/// an exact present, or a wait, reset or submission carried out.
pub open spec fn steady_outcome(c: ChainView, o: OutcomeView) -> bool {
    match o {
        OutcomeView::Polled(signals) => !any_quit(signals) && !any_resize(signals),
        OutcomeView::Acquired(r) => r matches AcquireResult::Image { index, suboptimal }
            && !suboptimal && index < c.framebuffers,
        OutcomeView::Presented(r) => r == PresentResult::Presented,
        OutcomeView::Done => true,
        _ => false,
    }
}

/// However many steady frames follow one another, the swapchain that was
/// current stays current, untouched, and no rebuild is pending.
pub proof fn lemma_steady_run(v: LoopView, outcomes: Seq<OutcomeView>)
    requires
        v.wf(),
        run_accepted(v, outcomes),
        v.chain is Some,
        !v.rebuild,
        !v.quitting,
        forall|i: int| 0 <= i < outcomes.len() ==> steady_outcome(v.chain.unwrap(), #[trigger] outcomes[i]),
    ensures
        run(v, outcomes).chain == v.chain,
        !run(v, outcomes).rebuild,
        run(v, outcomes).teardown is None,
    decreases outcomes.len(),
{
    if outcomes.len() > 0 {
        let o = outcomes[0];
        assert(steady_outcome(v.chain.unwrap(), o));
        lemma_steady_frame(v, o);
        lemma_next_wf(v, o);
        let rest = outcomes.drop_first();
        assert forall|i: int| 0 <= i < rest.len() implies steady_outcome(
            v.chain.unwrap(),
            #[trigger] rest[i],
        ) by {
            assert(rest[i] == outcomes[i + 1]);
        }
        lemma_steady_run(next(v, o).0, rest);
    }
}

/// The handles of a swapchain being torn down.
struct Teardown<S, V, F> {
    swapchain: Option<S>,
    views: Vec<V>,
    framebuffers: Vec<F>,
    idle: bool,
    reset: bool,
}

/// The frame loop: swapchain lifecycle, command-pool reuse and the
/// acquire / submit / present chain, driven one outcome at a time.
pub struct FrameLoop<S, V, F> {
    stage: Stage,
    chain: Option<SwapchainResources<S, V, F>>,
    teardown: Option<Teardown<S, V, F>>,
    rebuild: bool,
    quitting: bool,
    submission_pending: bool,
    presented: u64,
}

impl<S, V, F> View for FrameLoop<S, V, F> {
    type V = LoopView;

    closed spec fn view(&self) -> LoopView {
        LoopView {
            stage: self.stage,
            chain: match self.chain {
                Some(c) => Some(c@),
                None => None,
            },
            teardown: match self.teardown {
                Some(t) => Some(
                    TeardownView {
                        idle: t.idle,
                        reset: t.reset,
                        framebuffers: t.framebuffers@.len(),
                        views: t.views@.len(),
                        swapchain: t.swapchain is Some,
                    },
                ),
                None => None,
            },
            rebuild: self.rebuild,
            quitting: self.quitting,
            submission_pending: self.submission_pending,
            presented: self.presented,
        }
    }
}

impl<S, V, F> FrameLoop<S, V, F> {
    pub open spec fn wf(&self) -> bool {
        self@.wf()
    }

    /// The current swapchain's resources.
    pub closed spec fn current(&self) -> Option<SwapchainResources<S, V, F>> {
        self.chain
    }

    /// Framebuffers of the swapchain being torn down, not yet handed out.
    pub closed spec fn doomed_framebuffers(&self) -> Seq<F> {
        self.teardown.unwrap().framebuffers@
    }

    /// Views of the swapchain being torn down, not yet handed out.
    pub closed spec fn doomed_views(&self) -> Seq<V> {
        self.teardown.unwrap().views@
    }

    /// The swapchain being torn down, until it is handed out.
    pub closed spec fn doomed_swapchain(&self) -> Option<S> {
        self.teardown.unwrap().swapchain
    }

    pub fn new() -> (r: Self)
        ensures
            r.wf(),
            r@ == initial_loop(),
    {
        FrameLoop {
            stage: Stage::Polling,
            chain: None,
            teardown: None,
            rebuild: false,
            quitting: false,
            submission_pending: false,
            presented: 0,
        }
    }

    pub fn stage(&self) -> (r: Stage)
        ensures
            r == self@.stage,
    {
        self.stage
    }

    /// Frames handed to the presentation engine so far.
    pub fn frames_presented(&self) -> (r: u64)
        ensures
            r == self@.presented,
    {
        self.presented
    }

    /// A rebuild of the swapchain is pending.
    pub fn rebuild_requested(&self) -> (r: bool)
        ensures
            r == self@.rebuild,
    {
        self.rebuild
    }

    /// The extent of the current swapchain.
    pub fn extent(&self) -> (r: Option<Extent>)
        ensures
            r == match self@.chain {
                Some(c) => Some(c.extent),
                None => None,
            },
    {
        match &self.chain {
            Some(c) => Some(c.extent),
            None => None,
        }
    }

    /// The framebuffer of image `index` of the current swapchain.
    pub fn framebuffer(&self, index: u32) -> (r: &F)
        requires
            self@.chain matches Some(c) && index < c.framebuffers,
        ensures
            *r == self.current().unwrap().framebuffers_spec()[index as int],
    {
        match &self.chain {
            Some(c) => &c.framebuffers[index as usize],
            None => unreached(),
        }
    }

    /// The current swapchain, for presentation.
    pub fn swapchain(&self) -> (r: &S)
        requires
            self@.chain is Some,
        ensures
            *r == self.current().unwrap().swapchain_spec(),
    {
        match &self.chain {
            Some(c) => &c.swapchain,
            None => unreached(),
        }
    }

    /// The current swapchain, for acquisition.
    pub fn swapchain_mut(&mut self) -> (r: &mut S)
        requires
            old(self)@.chain is Some,
        ensures
            *r == old(self).current().unwrap().swapchain_spec(),
            final(self)@ == old(self)@,
            final(self).current().unwrap().swapchain_spec() == *final(r),
    {
        match &mut self.chain {
            Some(c) => c.swapchain_mut(),
            None => unreached(),
        }
    }

    fn frame_start(&mut self) -> (action: Action<S, V, F>)
        requires
            old(self).chain is Some,
        ensures
            final(self)@ == frame_start(old(self)@).0,
            action.kind() == frame_start(old(self)@).1,
            final(self).chain == old(self).chain,
            final(self).teardown == old(self).teardown,
    {
        if self.submission_pending {
            self.stage = Stage::AwaitingSubmission;
            Action::WaitForSubmission
        } else {
            self.stage = Stage::ResettingPool;
            Action::ResetPool
        }
    }

    fn settle(&mut self) -> (action: Action<S, V, F>)
        requires
            old(self).teardown is None,
        ensures
            final(self)@ == settle(old(self)@).0,
            action.kind() == settle(old(self)@).1,
            final(self).chain == old(self).chain,
            final(self).teardown is None,
    {
        if self.quitting {
            self.stage = Stage::Exited;
            Action::Exit
        } else if self.chain.is_none() {
            self.stage = Stage::Building;
            self.rebuild = false;
            Action::Build
        } else {
            self.frame_start()
        }
    }

    fn after_poll(&mut self) -> (action: Action<S, V, F>)
        requires
            old(self).teardown is None,
        ensures
            final(self)@ == after_poll(old(self)@).0,
            action.kind() == after_poll(old(self)@).1,
            action is WaitIdle ==> final(self).teardown == Some(
                Teardown {
                    swapchain: Some(old(self).chain.unwrap().swapchain),
                    views: old(self).chain.unwrap().views,
                    framebuffers: old(self).chain.unwrap().framebuffers,
                    idle: false,
                    reset: false,
                },
            ),
            !(action is WaitIdle) ==> final(self).chain == old(self).chain,
    {
        if self.rebuild || self.quitting {
            match self.chain.take() {
                Some(c) => {
                    let SwapchainResources { swapchain, extent: _, images: _, views, framebuffers } =
                        c;
                    self.teardown = Some(
                        Teardown { swapchain: Some(swapchain), views, framebuffers, idle: false, reset: false },
                    );
                    self.stage = Stage::AwaitingIdle;
                    return Action::WaitIdle;
                },
                None => {},
            }
        }
        self.settle()
    }

    fn next_destroy(&mut self) -> (action: Action<S, V, F>)
        requires
            old(self).teardown is Some,
        ensures
            final(self)@ == next_destroy(old(self)@).0,
            action.kind() == next_destroy(old(self)@).1,
            final(self).chain == old(self).chain,
            action matches Action::DestroyFramebuffer(f) ==> {
                &&& f == old(self).doomed_framebuffers().last()
                &&& final(self).doomed_framebuffers() == old(self).doomed_framebuffers().drop_last()
                &&& final(self).doomed_views() == old(self).doomed_views()
                &&& final(self).doomed_swapchain() == old(self).doomed_swapchain()
            },
            action matches Action::DestroyView(w) ==> {
                &&& w == old(self).doomed_views().last()
                &&& final(self).doomed_views() == old(self).doomed_views().drop_last()
                &&& final(self).doomed_framebuffers() == old(self).doomed_framebuffers()
                &&& final(self).doomed_swapchain() == old(self).doomed_swapchain()
            },
            action matches Action::DestroySwapchain(s) ==> {
                &&& old(self).doomed_swapchain() == Some(s)
                &&& final(self).doomed_swapchain() is None
            },
    {
        let mut t = match self.teardown.take() {
            Some(t) => t,
            None => unreached(),
        };
        match t.framebuffers.pop() {
            Some(f) => {
                self.teardown = Some(t);
                self.stage = Stage::Destroying;
                return Action::DestroyFramebuffer(f);
            },
            None => {},
        }
        match t.views.pop() {
            Some(w) => {
                self.teardown = Some(t);
                self.stage = Stage::Destroying;
                return Action::DestroyView(w);
            },
            None => {},
        }
        match t.swapchain.take() {
            Some(s) => {
                self.teardown = Some(t);
                self.stage = Stage::Destroying;
                Action::DestroySwapchain(s)
            },
            None => self.settle(),
        }
    }

    /// Takes the outcome of the last action and returns the next action.
    pub fn step(&mut self, outcome: Outcome<S, V, F>) -> (action: Action<S, V, F>)
        requires
            old(self).wf(),
            accepts(old(self)@, outcome@),
        ensures
            final(self).wf(),
            final(self)@ == next(old(self)@, outcome@).0,
            action.kind() == next(old(self)@, outcome@).1,
            action matches Action::DestroyFramebuffer(f) ==> {
                &&& f == old(self).doomed_framebuffers().last()
                &&& final(self).doomed_framebuffers() == old(self).doomed_framebuffers().drop_last()
                &&& final(self).doomed_views() == old(self).doomed_views()
                &&& final(self).doomed_swapchain() == old(self).doomed_swapchain()
            },
            action matches Action::DestroyView(w) ==> {
                &&& w == old(self).doomed_views().last()
                &&& final(self).doomed_views() == old(self).doomed_views().drop_last()
                &&& final(self).doomed_framebuffers() == old(self).doomed_framebuffers()
                &&& final(self).doomed_swapchain() == old(self).doomed_swapchain()
            },
            action matches Action::DestroySwapchain(s) ==> {
                &&& old(self).doomed_swapchain() == Some(s)
                &&& final(self).doomed_swapchain() is None
            },
            action is WaitIdle ==> {
                &&& final(self).doomed_swapchain() == Some(
                    old(self).current().unwrap().swapchain_spec(),
                )
                &&& final(self).doomed_views() == old(self).current().unwrap().views_spec()
                &&& final(self).doomed_framebuffers()
                    == old(self).current().unwrap().framebuffers_spec()
            },
            outcome is Idle ==> {
                &&& final(self).doomed_framebuffers() == old(self).doomed_framebuffers()
                &&& final(self).doomed_views() == old(self).doomed_views()
                &&& final(self).doomed_swapchain() == old(self).doomed_swapchain()
            },
            outcome matches Outcome::Built(r) ==> final(self).current() == Some(r),
            !(action is WaitIdle) && !(outcome is Built) ==> final(self).current() == old(
                self,
            ).current(),
    {
        match outcome {
            Outcome::Polled(signals) => {
                let (quit, resize) = scan_signals(&signals);
                self.quitting = self.quitting || quit;
                self.rebuild = self.rebuild || resize;
                self.after_poll()
            },
            Outcome::Idle => {
                match self.teardown.take() {
                    Some(mut t) => {
                        t.idle = true;
                        self.teardown = Some(t);
                    },
                    None => {},
                }
                self.submission_pending = false;
                self.stage = Stage::ResettingForTeardown;
                Action::ResetPool
            },
            Outcome::Done => match self.stage {
                Stage::ResettingForTeardown => {
                    match self.teardown.take() {
                        Some(mut t) => {
                            t.reset = true;
                            self.teardown = Some(t);
                        },
                        None => {},
                    }
                    self.next_destroy()
                },
                Stage::Destroying => self.next_destroy(),
                Stage::AwaitingSubmission => {
                    self.stage = Stage::ResettingPool;
                    self.submission_pending = false;
                    Action::ResetPool
                },
                Stage::ResettingPool => {
                    self.stage = Stage::Acquiring;
                    Action::Acquire
                },
                Stage::Recording { image } => {
                    self.stage = Stage::Presenting { image };
                    self.submission_pending = true;
                    Action::Present { image }
                },
                _ => Action::Exit,
            },
            Outcome::Built(r) => {
                self.chain = Some(r);
                self.frame_start()
            },
            Outcome::Acquired(AcquireResult::Image { index, suboptimal }) => {
                let n = match &self.chain {
                    Some(c) => c.framebuffers.len(),
                    None => 0,
                };
                if (index as usize) < n {
                    self.stage = Stage::Recording { image: index };
                    self.rebuild = self.rebuild || suboptimal;
                    Action::Record { image: index }
                } else {
                    self.stage = Stage::Polling;
                    self.rebuild = true;
                    Action::PollEvents
                }
            },
            Outcome::Acquired(AcquireResult::OutOfDate) => {
                self.stage = Stage::Polling;
                self.rebuild = true;
                Action::PollEvents
            },
            Outcome::Presented(r) => {
                let shown = match r {
                    PresentResult::OutOfDate => false,
                    _ => true,
                };
                let exact = match r {
                    PresentResult::Presented => true,
                    _ => false,
                };
                if shown && self.presented < u64::MAX {
                    self.presented = self.presented + 1;
                }
                self.rebuild = self.rebuild || !exact;
                self.stage = Stage::Polling;
                Action::PollEvents
            },
        }
    }

    /// Whether the loop, as it stands, can take `outcome`.
    pub fn accepts(&self, outcome: &Outcome<S, V, F>) -> (r: bool)
        ensures
            r == accepts(self@, outcome@),
    {
        match self.stage {
            Stage::Polling => match outcome {
                Outcome::Polled(_) => true,
                _ => false,
            },
            Stage::AwaitingIdle => match outcome {
                Outcome::Idle => true,
                _ => false,
            },
            Stage::Building => match outcome {
                Outcome::Built(c) => (c.views.len() == c.images && c.framebuffers.len()
                    == c.images) || (c.views.len() == 0 && c.framebuffers.len() == 1 && c.images
                    == 1),
                _ => false,
            },
            Stage::Acquiring => match outcome {
                Outcome::Acquired(_) => true,
                _ => false,
            },
            Stage::Presenting { .. } => match outcome {
                Outcome::Presented(_) => true,
                _ => false,
            },
            Stage::Exited => false,
            _ => match outcome {
                Outcome::Done => true,
                _ => false,
            },
        }
    }
}

/// Scans one poll's signals for a termination request and for a resize.
pub fn scan_signals(signals: &Vec<WindowSignal>) -> (r: (bool, bool))
    ensures
        r.0 == any_quit(signals@),
        r.1 == any_resize(signals@),
{
    let mut quit = false;
    let mut resize = false;
    let mut i: usize = 0;
    while i < signals.len()
        invariant
            i <= signals@.len(),
            quit == exists|j: int| 0 <= j < i && asks_to_quit(#[trigger] signals@[j]),
            resize == exists|j: int| 0 <= j < i && invalidates(#[trigger] signals@[j]),
        decreases signals@.len() - i,
    {
        match signals[i] {
            WindowSignal::CloseRequested => {
                quit = true;
            },
            WindowSignal::KeyInput { escape, pressed } => {
                if escape && pressed {
                    quit = true;
                }
            },
            WindowSignal::Resized { .. } => {
                resize = true;
            },
            WindowSignal::Other => {},
        }
        i = i + 1;
    }
    (quit, resize)
}

} // verus!
