use vstd::prelude::*;
use crate::constants::MAX_FRAMES_IN_FLIGHT;
use crate::resources::{
    Capabilities,
    ResourceKind,
    touches,
    RebuildStep,
    rebuild_plan,
    rebuild_steps,
    lemma_rebuild_order,
    target_chain,
};
use crate::transform::{Rotation, advanced, FULL_TURN, INITIAL_ROTATION};

verus! {

/// What the controller asks its graphics collaborator to do next. Each one is
/// answered by exactly one `Event`.
#[derive(Clone, Copy, Debug, PartialEq, Eq, Structural)]
pub enum Action {
    /// Block, without bound, until the in-flight marker of `slot` is signaled.
    WaitFence { slot: usize },
    /// Acquire the next presentable image, signaling the image-available
    /// semaphore of `slot` when it is ready.
    AcquireImage { slot: usize },
    /// Copy the transform, with the model rotated by `rotation` millionths of
    /// a degree, into the uniform buffer of image `image`.
    WriteTransform { image: u32, rotation: u64 },
    /// Reset the in-flight marker of `slot`, then submit the command buffer of
    /// `image`: wait on the image-available semaphore of `slot`, signal its
    /// render-finished semaphore, and arm its in-flight marker.
    Submit { image: u32, slot: usize },
    /// Present `image` once the render-finished semaphore of `slot` fires.
    Present { image: u32, slot: usize },
    /// Carry out one step of a rebuild of the presentation target.
    Rebuild(RebuildStep),
    /// The tick is over.
    Done,
}

/// What came of the last `Action`. Failures other than a stale presentation
/// target are fatal and are not reported back.
#[derive(Clone, Copy, Debug, PartialEq, Eq, Structural)]
pub enum Event {
    FenceSignaled,
    Acquired { image: u32, suboptimal: bool },
    AcquireStale,
    TransformWritten,
    Submitted,
    Presented { suboptimal: bool },
    PresentStale,
    StepDone,
}

/// Which answer the controller is waiting for.
#[derive(Clone, Copy, Debug, PartialEq, Eq, Structural)]
pub enum Phase {
    Idle,
    AwaitFence { delta_micros: u32 },
    AwaitImage { delta_micros: u32 },
    AwaitWrite { image: u32 },
    AwaitSubmit { image: u32 },
    AwaitPresent { image: u32 },
    Rebuilding { step: usize, completes_tick: bool },
}

/// The controller as a mathematical value: its state, the number of ticks
/// completed, and every action it has issued so far.
pub struct LoopView {
    pub caps: Capabilities,
    pub frame: nat,
    pub resize_pending: bool,
    pub rotation: nat,
    pub phase: Phase,
    pub ticks: nat,
    pub trace: Seq<Action>,
}

/// The frame slot as the actions name it.
pub open spec fn slot_of(s: LoopView) -> usize {
    s.frame as usize
}

/// Issue `a` and wait in `phase` for its answer.
pub open spec fn issue(s: LoopView, phase: Phase, a: Action) -> (LoopView, Action) {
    (LoopView { phase: phase, trace: s.trace.push(a), ..s }, a)
}

/// Issue the first step of a rebuild; `completes_tick` says whether the tick
/// advances the slot once the rebuild is over.
pub open spec fn start_rebuild(s: LoopView, completes_tick: bool) -> (LoopView, Action) {
    issue(
        s,
        Phase::Rebuilding { step: 0, completes_tick: completes_tick },
        Action::Rebuild(rebuild_steps(s.caps)[0]),
    )
}

/// End the tick; only a tick that reached presentation advances the slot.
pub open spec fn end_tick(s: LoopView, completes: bool) -> (LoopView, Action) {
    if completes {
        (
            LoopView {
                frame: (s.frame + 1) % (MAX_FRAMES_IN_FLIGHT as nat),
                ticks: s.ticks + 1,
                phase: Phase::Idle,
                trace: s.trace.push(Action::Done),
                ..s
            },
            Action::Done,
        )
    } else {
        (LoopView { phase: Phase::Idle, trace: s.trace.push(Action::Done), ..s }, Action::Done)
    }
}

/// Start of a tick: only from `Idle`, by waiting on the current slot's marker.
pub open spec fn begin(s: LoopView, delta_micros: u32) -> Option<(LoopView, Action)> {
    if s.phase is Idle {
        Some(
            issue(
                s,
                Phase::AwaitFence { delta_micros: delta_micros },
                Action::WaitFence { slot: slot_of(s) },
            ),
        )
    } else {
        None
    }
}

/// The controller's answer to an event: its next state and action, or
/// `None` where the event does not answer the action it is waiting on.
pub open spec fn next(s: LoopView, e: Event) -> Option<(LoopView, Action)> {
    match s.phase {
        Phase::Idle => None,
        Phase::AwaitFence { delta_micros } => match e {
            Event::FenceSignaled => Some(
                issue(
                    s,
                    Phase::AwaitImage { delta_micros: delta_micros },
                    Action::AcquireImage { slot: slot_of(s) },
                ),
            ),
            _ => None,
        },
        Phase::AwaitImage { delta_micros } => match e {
            Event::Acquired { image, suboptimal: _ } => {
                let r = advanced(s.rotation, delta_micros as nat);
                Some(
                    issue(
                        LoopView { rotation: r, ..s },
                        Phase::AwaitWrite { image: image },
                        Action::WriteTransform { image: image, rotation: r as u64 },
                    ),
                )
            },
            Event::AcquireStale => Some(start_rebuild(s, false)),
            _ => None,
        },
        Phase::AwaitWrite { image } => match e {
            Event::TransformWritten => Some(
                issue(
                    s,
                    Phase::AwaitSubmit { image: image },
                    Action::Submit { image: image, slot: slot_of(s) },
                ),
            ),
            _ => None,
        },
        Phase::AwaitSubmit { image } => match e {
            Event::Submitted => Some(
                issue(
                    s,
                    Phase::AwaitPresent { image: image },
                    Action::Present { image: image, slot: slot_of(s) },
                ),
            ),
            _ => None,
        },
        Phase::AwaitPresent { image: _ } => match e {
            Event::Presented { suboptimal } => if suboptimal || s.resize_pending {
                Some(start_rebuild(LoopView { resize_pending: false, ..s }, true))
            } else {
                Some(end_tick(s, true))
            },
            Event::PresentStale => Some(start_rebuild(LoopView { resize_pending: false, ..s }, true)),
            _ => None,
        },
        Phase::Rebuilding { step, completes_tick } => match e {
            Event::StepDone => if step + 1 < rebuild_steps(s.caps).len() {
                Some(
                    issue(
                        s,
                        Phase::Rebuilding { step: (step + 1) as usize, completes_tick: completes_tick },
                        Action::Rebuild(rebuild_steps(s.caps)[step + 1]),
                    ),
                )
            } else {
                Some(end_tick(s, completes_tick))
            },
            _ => None,
        },
    }
}

/// Every submission follows, within its tick, the wait on its slot's
/// in-flight marker, with only the acquisition and the transform write
/// between them.
pub open spec fn submit_waited(t: Seq<Action>, i: int) -> bool {
    match t[i] {
        Action::Submit { image: _, slot } => {
            &&& i >= 3
            &&& t[i - 3] == Action::WaitFence { slot: slot }
            &&& t[i - 2] == Action::AcquireImage { slot: slot }
            &&& t[i - 1] is WriteTransform
        },
        _ => true,
    }
}

/// The action destroys a resource.
pub open spec fn is_destroy(a: Action) -> bool {
    a matches Action::Rebuild(step) && step is Destroy
}

/// Every destruction follows an idle wait with only destructions between.
pub open spec fn destroy_after_idle(t: Seq<Action>, i: int) -> bool {
    is_destroy(t[i]) ==> exists|j: int|
        #![trigger t[j]]
        0 <= j < i && t[j] == Action::Rebuild(RebuildStep::WaitIdle) && forall|m: int|
            j < m < i ==> is_destroy(#[trigger] t[m])
}

/// Issuing one more action keeps what held of the earlier ones.
proof fn lemma_push_keeps(t: Seq<Action>, a: Action)
    requires
        forall|i: int| 0 <= i < t.len() ==> #[trigger] submit_waited(t, i),
        forall|i: int| 0 <= i < t.len() ==> #[trigger] destroy_after_idle(t, i),
    ensures
        forall|i: int| 0 <= i < t.len() ==> #[trigger] submit_waited(t.push(a), i),
        forall|i: int| 0 <= i < t.len() ==> #[trigger] destroy_after_idle(t.push(a), i),
{
    let u = t.push(a);
    assert forall|i: int| 0 <= i < t.len() implies #[trigger] submit_waited(u, i) by {
        assert(submit_waited(t, i));
        assert(u[i] == t[i]);
        if i >= 3 {
            assert(u[i - 3] == t[i - 3]);
            assert(u[i - 2] == t[i - 2]);
            assert(u[i - 1] == t[i - 1]);
        }
    }
    assert forall|i: int| 0 <= i < t.len() implies #[trigger] destroy_after_idle(u, i) by {
        assert(destroy_after_idle(t, i));
        assert(u[i] == t[i]);
        if is_destroy(t[i]) {
            let j = choose|j: int|
                #![trigger t[j]]
                0 <= j < i && t[j] == Action::Rebuild(RebuildStep::WaitIdle) && forall|m: int|
                    j < m < i ==> is_destroy(#[trigger] t[m]);
            assert(u[j] == t[j]);
            assert forall|m: int| j < m < i implies is_destroy(#[trigger] u[m]) by {
                assert(u[m] == t[m]);
            }
        }
    }
}

/// A new action that is neither a submission nor a destruction keeps the
/// trace properties.
proof fn lemma_push_plain(t: Seq<Action>, a: Action)
    requires
        forall|i: int| 0 <= i < t.len() ==> #[trigger] submit_waited(t, i),
        forall|i: int| 0 <= i < t.len() ==> #[trigger] destroy_after_idle(t, i),
        !(a is Submit),
        !is_destroy(a),
    ensures
        forall|i: int| 0 <= i < t.len() + 1 ==> #[trigger] submit_waited(t.push(a), i),
        forall|i: int| 0 <= i < t.len() + 1 ==> #[trigger] destroy_after_idle(t.push(a), i),
{
    lemma_push_keeps(t, a);
    let u = t.push(a);
    assert(u[t.len() as int] == a);
    assert(submit_waited(u, t.len() as int));
    assert(destroy_after_idle(u, t.len() as int));
}

/// Starting a tick keeps the controller well formed.
pub proof fn lemma_begin_wf(s: LoopView, delta_micros: u32)
    requires
        s.wf(),
        begin(s, delta_micros) is Some,
    ensures
        begin(s, delta_micros)->Some_0.0.wf(),
{
    let a = Action::WaitFence { slot: slot_of(s) };
    lemma_push_plain(s.trace, a);
    let n = begin(s, delta_micros)->Some_0.0;
    assert(n.trace[n.trace.len() - 1] == a);
    assert(n.ends_with(seq![a]));
}

/// The trace properties survive every transition.
proof fn lemma_next_trace(s: LoopView, e: Event)
    requires
        s.wf(),
        next(s, e) is Some,
    ensures
        ({
            let n = next(s, e)->Some_0.0;
            &&& forall|i: int| 0 <= i < n.trace.len() ==> #[trigger] submit_waited(n.trace, i)
            &&& forall|i: int| 0 <= i < n.trace.len() ==> #[trigger] destroy_after_idle(n.trace, i)
        }),
{
    let (n, a) = next(s, e)->Some_0;
    let t = s.trace;
    let len = t.len() as int;
    let f = slot_of(s);
    assert(n.trace == t.push(a));
    assert(n.trace[len] == a);
    if a is Submit {
        lemma_push_keeps(t, a);
        match s.phase {
            Phase::AwaitWrite { image } => {
                let w = seq![
                    Action::WaitFence { slot: f },
                    Action::AcquireImage { slot: f },
                    Action::WriteTransform { image: image, rotation: s.rotation as u64 },
                ];
                assert(s.ends_with(w));
                assert(t[len - 3] == w[0]);
                assert(t[len - 2] == w[1]);
                assert(t[len - 1] == w[2]);
                assert(n.trace[len - 3] == t[len - 3]);
                assert(n.trace[len - 2] == t[len - 2]);
                assert(n.trace[len - 1] == t[len - 1]);
                assert(submit_waited(n.trace, len));
                assert(destroy_after_idle(n.trace, len));
            },
            _ => {},
        }
    } else if is_destroy(a) {
        lemma_push_keeps(t, a);
        match s.phase {
            Phase::Rebuilding { step, completes_tick } => {
                let plan = rebuild_steps(s.caps);
                lemma_rebuild_order(s.caps);
                let k = target_chain(s.caps).len();
                let w = plan.subrange(0, step + 1).map_values(|p: RebuildStep| Action::Rebuild(p));
                assert(s.ends_with(w));
                let j = len - 1 - step;
                assert(t[j] == w[0]);
                assert(n.trace[j] == t[j]);
                assert forall|m: int| j < m < len implies is_destroy(#[trigger] n.trace[m]) by {
                    assert(t[m] == w[m - j]);
                    assert(n.trace[m] == t[m]);
                    assert(1 <= m - j <= k);
                }
                assert(destroy_after_idle(n.trace, len));
                assert(submit_waited(n.trace, len));
            },
            _ => {},
        }
    } else {
        lemma_push_plain(t, a);
    }
}

/// The first rebuild step, just issued, is what the trace ends with.
proof fn lemma_rebuild_started(n: LoopView)
    requires
        n.trace.len() > 0,
        n.trace[n.trace.len() - 1] == Action::Rebuild(rebuild_steps(n.caps)[0]),
    ensures
        n.ends_with(rebuild_steps(n.caps).subrange(0, 1).map_values(|p: RebuildStep| Action::Rebuild(p))),
{
    lemma_rebuild_order(n.caps);
    let w = rebuild_steps(n.caps).subrange(0, 1).map_values(|p: RebuildStep| Action::Rebuild(p));
    assert(w.len() == 1);
    assert(w[0] == Action::Rebuild(rebuild_steps(n.caps)[0]));
}

/// The phase and slot facts survive every transition.
proof fn lemma_next_phase(s: LoopView, e: Event)
    requires
        s.wf(),
        next(s, e) is Some,
    ensures
        ({
            let n = next(s, e)->Some_0.0;
            &&& n.phase_ok()
            &&& n.frame < MAX_FRAMES_IN_FLIGHT
            &&& n.frame == n.ticks % (MAX_FRAMES_IN_FLIGHT as nat)
            &&& n.rotation < FULL_TURN
        }),
{
    let (n, a) = next(s, e)->Some_0;
    let t = s.trace;
    let len = t.len() as int;
    let f = slot_of(s);
    assert(n.trace == t.push(a));
    assert(n.trace[len] == a);
    match s.phase {
        Phase::Idle => {},
        Phase::AwaitFence { delta_micros } => {
            let w = seq![Action::WaitFence { slot: f }];
            assert(s.ends_with(w));
            assert(t[len - 1] == w[0]);
            assert(n.trace[len - 1] == t[len - 1]);
            assert(n.ends_with(seq![Action::WaitFence { slot: f }, Action::AcquireImage { slot: f }]));
        },
        Phase::AwaitImage { delta_micros } => {
            match e {
                Event::Acquired { image, suboptimal: _ } => {
                    let w = seq![Action::WaitFence { slot: f }, Action::AcquireImage { slot: f }];
                    assert(s.ends_with(w));
                    assert(t[len - 2] == w[0]);
                    assert(t[len - 1] == w[1]);
                    assert(n.trace[len - 2] == t[len - 2]);
                    assert(n.trace[len - 1] == t[len - 1]);
                    assert(n.ends_with(
                        seq![
                            Action::WaitFence { slot: f },
                            Action::AcquireImage { slot: f },
                            Action::WriteTransform { image: image, rotation: n.rotation as u64 },
                        ],
                    ));
                },
                _ => {
                    lemma_rebuild_started(n);
                },
            }
        },
        Phase::AwaitWrite { .. } => {},
        Phase::AwaitSubmit { .. } => {},
        Phase::AwaitPresent { .. } => {
            if n.phase is Rebuilding {
                lemma_rebuild_started(n);
            } else {
                vstd::arithmetic::div_mod::lemma_add_mod_noop(s.ticks as int, 1, MAX_FRAMES_IN_FLIGHT as int);
            }
        },
        Phase::Rebuilding { step, completes_tick } => {
            if n.phase is Rebuilding {
                let plan = rebuild_steps(s.caps);
                let w = plan.subrange(0, step + 1).map_values(|p: RebuildStep| Action::Rebuild(p));
                let w2 = plan.subrange(0, step + 2).map_values(|p: RebuildStep| Action::Rebuild(p));
                assert(s.ends_with(w));
                assert forall|m: int| 0 <= m < w2.len() implies n.trace[n.trace.len() - w2.len() + m] == #[trigger] w2[m] by {
                    if m < w.len() {
                        assert(w2[m] == w[m]);
                        assert(n.trace[n.trace.len() - w2.len() + m] == t[len - w.len() + m]);
                    }
                }
                assert(n.ends_with(w2));
            } else if completes_tick {
                vstd::arithmetic::div_mod::lemma_add_mod_noop(s.ticks as int, 1, MAX_FRAMES_IN_FLIGHT as int);
            }
        },
    }
}

/// Every transition keeps the controller well formed.
pub proof fn lemma_next_wf(s: LoopView, e: Event)
    requires
        s.wf(),
        next(s, e) is Some,
    ensures
        next(s, e)->Some_0.0.wf(),
{
    lemma_next_trace(s, e);
    lemma_next_phase(s, e);
}

impl LoopView {
    /// The actions issued last are, in order, those of `s`.
    pub open spec fn ends_with(self, s: Seq<Action>) -> bool {
        &&& self.trace.len() >= s.len()
        &&& forall|m: int|
            0 <= m < s.len() ==> self.trace[self.trace.len() - s.len() + m] == #[trigger] s[m]
    }

    /// The actions that led into the current phase: the wait, acquisition
    /// and transform write of this tick, or the rebuild steps so far.
    pub open spec fn phase_ok(self) -> bool {
        let f = slot_of(self);
        match self.phase {
            Phase::Idle => true,
            Phase::AwaitFence { .. } => self.ends_with(seq![Action::WaitFence { slot: f }]),
            Phase::AwaitImage { .. } => self.ends_with(
                seq![Action::WaitFence { slot: f }, Action::AcquireImage { slot: f }],
            ),
            Phase::AwaitWrite { image } => self.ends_with(
                seq![
                    Action::WaitFence { slot: f },
                    Action::AcquireImage { slot: f },
                    Action::WriteTransform { image: image, rotation: self.rotation as u64 },
                ],
            ),
            Phase::AwaitSubmit { .. } => true,
            Phase::AwaitPresent { .. } => true,
            Phase::Rebuilding { step, .. } => {
                &&& step < rebuild_steps(self.caps).len()
                &&& self.ends_with(
                    rebuild_steps(self.caps).subrange(0, step + 1).map_values(
                        |p: RebuildStep| Action::Rebuild(p),
                    ),
                )
            },
        }
    }

    /// What holds of the controller in every reachable state.
    pub open spec fn wf(self) -> bool {
        &&& self.frame < MAX_FRAMES_IN_FLIGHT
        &&& self.frame == self.ticks % (MAX_FRAMES_IN_FLIGHT as nat)
        &&& self.rotation < FULL_TURN
        &&& self.phase_ok()
        &&& forall|i: int| 0 <= i < self.trace.len() ==> #[trigger] submit_waited(self.trace, i)
        &&& forall|i: int| 0 <= i < self.trace.len() ==> #[trigger] destroy_after_idle(self.trace, i)
    }
}

/// Runs the controller through `events` from `s`; `None` if one of them does
/// not answer the pending action.
pub open spec fn run(s: LoopView, events: Seq<Event>) -> Option<LoopView>
    decreases events.len(),
{
    if events.len() == 0 {
        Some(s)
    } else {
        match next(s, events[0]) {
            Some((n, _)) => run(n, events.drop_first()),
            None => None,
        }
    }
}

/// The answers of a tick in which acquisition and presentation succeed and
/// are optimal.
pub open spec fn steady_events(image: u32) -> Seq<Event> {
    seq![
        Event::FenceSignaled,
        Event::Acquired { image: image, suboptimal: false },
        Event::TransformWritten,
        Event::Submitted,
        Event::Presented { suboptimal: false },
    ]
}

/// One `StepDone` for each step of a rebuild.
pub open spec fn rebuild_events(caps: Capabilities) -> Seq<Event> {
    Seq::new(rebuild_steps(caps).len(), |i: int| Event::StepDone)
}

/// The actions of a tick up to and including presentation.
pub open spec fn render_actions(s: LoopView, delta_micros: u32, image: u32) -> Seq<Action> {
    let f = slot_of(s);
    seq![
        Action::WaitFence { slot: f },
        Action::AcquireImage { slot: f },
        Action::WriteTransform { image: image, rotation: advanced(s.rotation, delta_micros as nat) as u64 },
        Action::Submit { image: image, slot: f },
        Action::Present { image: image, slot: f },
    ]
}

/// The actions of a full rebuild.
pub open spec fn rebuild_actions(caps: Capabilities) -> Seq<Action> {
    rebuild_steps(caps).map_values(|p: RebuildStep| Action::Rebuild(p))
}

proof fn lemma_run_append(s: LoopView, a: Seq<Event>, b: Seq<Event>)
    requires
        run(s, a) is Some,
    ensures
        run(s, a + b) == run(run(s, a)->Some_0, b),
    decreases a.len(),
{
    if a.len() > 0 {
        let n = next(s, a[0])->Some_0.0;
        assert((a + b)[0] == a[0]);
        assert((a + b).drop_first() =~= a.drop_first() + b);
        lemma_run_append(n, a.drop_first(), b);
    } else {
        assert(a + b =~= b);
    }
}

/// From step `step` of a rebuild, one `StepDone` per remaining step issues
/// the rest of the plan and ends the tick.
proof fn lemma_rebuild_run(s: LoopView, step: usize, completes_tick: bool)
    requires
        s.wf(),
        s.phase == (Phase::Rebuilding { step: step, completes_tick: completes_tick }),
    ensures
        ({
            let plan = rebuild_steps(s.caps);
            let rest = plan.subrange(step + 1, plan.len() as int).map_values(
                |p: RebuildStep| Action::Rebuild(p),
            );
            run(s, Seq::new((plan.len() - step) as nat, |i: int| Event::StepDone)) == Some(
                end_tick(LoopView { trace: s.trace + rest, ..s }, completes_tick).0,
            )
        }),
    decreases rebuild_steps(s.caps).len() - step,
{
    reveal_with_fuel(run, 2);
    let plan = rebuild_steps(s.caps);
    let events = Seq::new((plan.len() - step) as nat, |i: int| Event::StepDone);
    let rest = plan.subrange(step + 1, plan.len() as int).map_values(
        |p: RebuildStep| Action::Rebuild(p),
    );
    assert(events[0] == Event::StepDone);
    let n = next(s, Event::StepDone)->Some_0.0;
    if step + 1 < plan.len() {
        lemma_next_wf(s, Event::StepDone);
        assert(events.drop_first() =~= Seq::new((plan.len() - (step + 1)) as nat, |i: int| Event::StepDone));
        lemma_rebuild_run(n, (step + 1) as usize, completes_tick);
        let rest2 = plan.subrange(step + 2, plan.len() as int).map_values(
            |p: RebuildStep| Action::Rebuild(p),
        );
        assert(n.trace + rest2 =~= s.trace + rest);
        assert(end_tick(LoopView { trace: n.trace + rest2, ..n }, completes_tick).0 == end_tick(
            LoopView { trace: s.trace + rest, ..s },
            completes_tick,
        ).0);
    } else {
        assert(events.drop_first() =~= Seq::<Event>::empty());
        assert(rest =~= Seq::<Action>::empty());
        assert(s.trace + rest =~= s.trace);
    }
}

/// After any number of completed ticks the frame slot index is that number
/// modulo the flight count.
pub proof fn lemma_slot_follows_ticks(s: LoopView)
    requires
        s.wf(),
    ensures
        s.frame == s.ticks % (MAX_FRAMES_IN_FLIGHT as nat),
        s.frame < MAX_FRAMES_IN_FLIGHT,
{
}

/// A tick that completes advances the completed-tick count by one and the
/// slot by one modulo the flight count; a tick cut short by a stale
/// acquisition changes neither.
pub proof fn lemma_tick_advances_slot(s: LoopView, completes: bool)
    requires
        s.wf(),
    ensures
        completes ==> end_tick(s, completes).0.ticks == s.ticks + 1 && end_tick(s, completes).0.frame
            == (s.frame + 1) % (MAX_FRAMES_IN_FLIGHT as nat),
        !completes ==> end_tick(s, completes).0.ticks == s.ticks && end_tick(s, completes).0.frame
            == s.frame,
{
}

/// The wait on a slot's in-flight marker is issued before every submission
/// that reuses that slot: each submission follows, within its own tick, the
/// wait on its slot with only the image acquisition and the transform write
/// between them, so no other submission on that slot comes between.
pub proof fn lemma_wait_precedes_submit(s: LoopView, i: int)
    requires
        s.wf(),
        0 <= i < s.trace.len(),
        s.trace[i] is Submit,
    ensures
        i >= 3,
        s.trace[i - 3] == (Action::WaitFence { slot: s.trace[i]->Submit_slot }),
        s.trace[i - 2] == (Action::AcquireImage { slot: s.trace[i]->Submit_slot }),
        s.trace[i - 1] is WriteTransform,
{
    assert(submit_waited(s.trace, i));
}

/// Every destruction of a resource is preceded by an idle wait with nothing
/// but destructions in between.
pub proof fn lemma_idle_precedes_destroy(s: LoopView, i: int)
    requires
        s.wf(),
        0 <= i < s.trace.len(),
        is_destroy(s.trace[i]),
    ensures
        exists|j: int|
            #![trigger s.trace[j]]
            0 <= j < i && s.trace[j] == Action::Rebuild(RebuildStep::WaitIdle) && forall|m: int|
                j < m < i ==> is_destroy(#[trigger] s.trace[m]),
{
    assert(destroy_after_idle(s.trace, i));
}

/// The state in which a tick waits for the outcome of its presentation.
pub open spec fn presenting(s: LoopView, delta_micros: u32, image: u32) -> LoopView {
    LoopView {
        phase: Phase::AwaitPresent { image: image },
        rotation: advanced(s.rotation, delta_micros as nat),
        trace: s.trace + render_actions(s, delta_micros, image),
        ..s
    }
}

proof fn lemma_render_run(s: LoopView, delta_micros: u32, image: u32)
    requires
        s.wf(),
        s.phase is Idle,
    ensures
        begin(s, delta_micros) is Some,
        presenting(s, delta_micros, image).wf(),
        run(begin(s, delta_micros)->Some_0.0, steady_events(image)) == run(
            presenting(s, delta_micros, image),
            seq![Event::Presented { suboptimal: false }],
        ),
{
    reveal_with_fuel(run, 5);
    let ev = steady_events(image);
    let b0 = begin(s, delta_micros)->Some_0.0;
    lemma_begin_wf(s, delta_micros);
    let b1 = next(b0, ev[0])->Some_0.0;
    lemma_next_wf(b0, ev[0]);
    let b2 = next(b1, ev[1])->Some_0.0;
    lemma_next_wf(b1, ev[1]);
    let b3 = next(b2, ev[2])->Some_0.0;
    lemma_next_wf(b2, ev[2]);
    let b4 = next(b3, ev[3])->Some_0.0;
    lemma_next_wf(b3, ev[3]);
    assert(b4.trace =~= s.trace + render_actions(s, delta_micros, image));
    assert(b4 == presenting(s, delta_micros, image));
    assert(ev.drop_first().drop_first().drop_first().drop_first() =~= seq![Event::Presented { suboptimal: false }]);
}

/// A tick without a pending resize whose acquisition and presentation
/// succeed optimally issues the five rendering actions, then `Done`, and
/// advances the slot.
pub proof fn lemma_steady_tick(s: LoopView, delta_micros: u32, image: u32)
    requires
        s.wf(),
        s.phase is Idle,
        !s.resize_pending,
    ensures
        begin(s, delta_micros) is Some,
        run(begin(s, delta_micros)->Some_0.0, steady_events(image)) == Some(
            LoopView {
                frame: (s.frame + 1) % (MAX_FRAMES_IN_FLIGHT as nat),
                ticks: s.ticks + 1,
                rotation: advanced(s.rotation, delta_micros as nat),
                trace: s.trace + render_actions(s, delta_micros, image) + seq![Action::Done],
                ..s
            },
        ),
{
    lemma_render_run(s, delta_micros, image);
    reveal_with_fuel(run, 2);
    let p = presenting(s, delta_micros, image);
    let e = seq![Event::Presented { suboptimal: false }];
    assert(e.drop_first() =~= Seq::<Event>::empty());
    let r = run(p, e)->Some_0;
    assert(r.trace =~= s.trace + render_actions(s, delta_micros, image) + seq![Action::Done]);
}

/// A resize notification during steady ticking causes exactly one rebuild,
/// in the tick's presentation step: one idle wait, then the plan; the flag
/// is cleared, the synchronization triples are never touched, and the slot
/// advances exactly as in a tick without the notification.
pub proof fn lemma_resize_rebuilds_once(s: LoopView, delta_micros: u32, image: u32)
    requires
        s.wf(),
        s.phase is Idle,
        s.resize_pending,
    ensures
        begin(s, delta_micros) is Some,
        run(begin(s, delta_micros)->Some_0.0, steady_events(image) + rebuild_events(s.caps)) == Some(
            LoopView {
                frame: (s.frame + 1) % (MAX_FRAMES_IN_FLIGHT as nat),
                ticks: s.ticks + 1,
                resize_pending: false,
                rotation: advanced(s.rotation, delta_micros as nat),
                trace: s.trace + render_actions(s, delta_micros, image) + rebuild_actions(s.caps)
                    + seq![Action::Done],
                ..s
            },
        ),
        forall|i: int|
            0 <= i < rebuild_actions(s.caps).len() ==> (rebuild_actions(s.caps)[i]
                == Action::Rebuild(RebuildStep::WaitIdle) <==> i == 0),
        forall|i: int|
            0 <= i < rebuild_actions(s.caps).len() ==> !touches(
                rebuild_actions(s.caps)[i]->Rebuild_0,
                ResourceKind::SyncObjects,
            ),
{
    lemma_render_run(s, delta_micros, image);
    lemma_rebuild_order(s.caps);
    reveal_with_fuel(run, 2);
    let b = begin(s, delta_micros)->Some_0.0;
    let ev = steady_events(image);
    let re = rebuild_events(s.caps);
    let plan = rebuild_steps(s.caps);
    let p = presenting(s, delta_micros, image);
    let e = seq![Event::Presented { suboptimal: false }];
    assert(e.drop_first() =~= Seq::<Event>::empty());
    let m = next(p, e[0])->Some_0.0;
    lemma_next_wf(p, e[0]);
    assert(run(b, ev) == Some(m));
    lemma_run_append(b, ev, re);
    lemma_rebuild_run(m, 0, true);
    assert(re =~= Seq::new((plan.len() - 0) as nat, |i: int| Event::StepDone));
    let r = run(b, ev + re)->Some_0;
    assert(plan.subrange(1, plan.len() as int).map_values(|p: RebuildStep| Action::Rebuild(p))
        =~= rebuild_actions(s.caps).drop_first());
    assert(r.trace =~= s.trace + render_actions(s, delta_micros, image) + rebuild_actions(s.caps)
        + seq![Action::Done]);
    assert forall|i: int| 0 <= i < rebuild_actions(s.caps).len() implies !touches(
        rebuild_actions(s.caps)[i]->Rebuild_0,
        ResourceKind::SyncObjects,
    ) by {
        assert(rebuild_actions(s.caps)[i]->Rebuild_0 == plan[i]);
    }
}

/// A stale target reported by acquisition cuts the tick short: nothing is
/// submitted or presented, a full rebuild runs, and the slot, the tick count,
/// the rotation and the resize flag stay as they were.
pub proof fn lemma_stale_acquire(s: LoopView, delta_micros: u32)
    requires
        s.wf(),
        s.phase is Idle,
    ensures
        begin(s, delta_micros) is Some,
        run(
            begin(s, delta_micros)->Some_0.0,
            seq![Event::FenceSignaled, Event::AcquireStale] + rebuild_events(s.caps),
        ) == Some(
            LoopView {
                trace: s.trace + seq![
                    Action::WaitFence { slot: slot_of(s) },
                    Action::AcquireImage { slot: slot_of(s) },
                ] + rebuild_actions(s.caps) + seq![Action::Done],
                ..s
            },
        ),
{
    reveal_with_fuel(run, 3);
    lemma_rebuild_order(s.caps);
    let ev = seq![Event::FenceSignaled, Event::AcquireStale];
    let re = rebuild_events(s.caps);
    let plan = rebuild_steps(s.caps);
    let b0 = begin(s, delta_micros)->Some_0.0;
    lemma_begin_wf(s, delta_micros);
    let b1 = next(b0, ev[0])->Some_0.0;
    lemma_next_wf(b0, ev[0]);
    let m = next(b1, ev[1])->Some_0.0;
    lemma_next_wf(b1, ev[1]);
    assert(ev.drop_first().drop_first() =~= Seq::<Event>::empty());
    assert(run(b0, ev) == Some(m));
    lemma_run_append(b0, ev, re);
    lemma_rebuild_run(m, 0, false);
    assert(re =~= Seq::new((plan.len() - 0) as nat, |i: int| Event::StepDone));
    let r = run(b0, ev + re)->Some_0;
    assert(plan.subrange(1, plan.len() as int).map_values(|p: RebuildStep| Action::Rebuild(p))
        =~= rebuild_actions(s.caps).drop_first());
    assert(r.trace =~= s.trace + seq![
        Action::WaitFence { slot: slot_of(s) },
        Action::AcquireImage { slot: slot_of(s) },
    ] + rebuild_actions(s.caps) + seq![Action::Done]);
}

/// The frame loop controller: the frame slot, the resize-pending flag, the
/// model's rotation and the rebuild plan, driven by the events that its
/// graphics collaborator reports.
pub struct FrameLoop {
    caps: Capabilities,
    plan: Vec<RebuildStep>,
    current_frame: usize,
    resize_pending: bool,
    rotation: Rotation,
    phase: Phase,
    ticks: Ghost<nat>,
    trace: Ghost<Seq<Action>>,
}

impl View for FrameLoop {
    type V = LoopView;

    closed spec fn view(&self) -> LoopView {
        LoopView {
            caps: self.caps,
            frame: self.current_frame as nat,
            resize_pending: self.resize_pending,
            rotation: self.rotation@,
            phase: self.phase,
            ticks: self.ticks@,
            trace: self.trace@,
        }
    }
}

impl FrameLoop {
    /// The controller is well formed and holds the rebuild plan of its
    /// capabilities.
    pub closed spec fn inv(&self) -> bool {
        &&& self@.wf()
        &&& self.plan@ == rebuild_steps(self.caps)
    }

    /// A controller at slot 0, idle, with no resize pending and the model at
    /// its starting rotation.
    pub fn new(caps: Capabilities) -> (r: FrameLoop)
        ensures
            r.inv(),
            r@.wf(),
            r@ == (LoopView {
                caps: caps,
                frame: 0,
                resize_pending: false,
                rotation: INITIAL_ROTATION as nat,
                phase: Phase::Idle,
                ticks: 0,
                trace: Seq::empty(),
            }),
    {
        let r = FrameLoop {
            caps: caps,
            plan: rebuild_plan(caps),
            current_frame: 0,
            resize_pending: false,
            rotation: Rotation::new(),
            phase: Phase::Idle,
            ticks: Ghost(0),
            trace: Ghost(Seq::empty()),
        };
        assert(r@.frame == r@.ticks % (MAX_FRAMES_IN_FLIGHT as nat));
        r
    }

    fn issue(&mut self, phase: Phase, a: Action) -> (r: Action)
        ensures
            (final(self)@, r) == issue(old(self)@, phase, a),
            final(self).plan == old(self).plan,
    {
        self.phase = phase;
        self.trace = Ghost(self.trace@.push(a));
        a
    }

    fn start_rebuild(&mut self, completes_tick: bool) -> (r: Action)
        requires
            old(self).plan@ == rebuild_steps(old(self).caps),
        ensures
            (final(self)@, r) == start_rebuild(old(self)@, completes_tick),
            final(self).plan == old(self).plan,
    {
        proof {
            lemma_rebuild_order(self.caps);
        }
        let first = self.plan[0];
        self.issue(Phase::Rebuilding { step: 0, completes_tick: completes_tick }, Action::Rebuild(first))
    }

    fn end_tick(&mut self, completes: bool) -> (r: Action)
        requires
            old(self)@.frame < MAX_FRAMES_IN_FLIGHT,
        ensures
            (final(self)@, r) == end_tick(old(self)@, completes),
            final(self).plan == old(self).plan,
    {
        if completes {
            self.current_frame = (self.current_frame + 1) % MAX_FRAMES_IN_FLIGHT;
            self.ticks = Ghost(self.ticks@ + 1);
        }
        self.phase = Phase::Idle;
        self.trace = Ghost(self.trace@.push(Action::Done));
        Action::Done
    }

    /// Starts a tick that covers `delta_micros` microseconds since the last:
    /// from `Idle` it asks for the wait on the current slot's in-flight
    /// marker; in any other phase it returns `None` and changes nothing.
    pub fn begin_tick(&mut self, delta_micros: u32) -> (r: Option<Action>)
        requires
            old(self).inv(),
        ensures
            final(self).inv(),
            final(self)@.wf(),
            match begin(old(self)@, delta_micros) {
                Some((v, a)) => r == Some(a) && final(self)@ == v,
                None => r is None && final(self)@ == old(self)@,
            },
    {
        proof {
            if begin(self@, delta_micros) is Some {
                lemma_begin_wf(self@, delta_micros);
            }
        }
        match self.phase {
            Phase::Idle => {
                let slot = self.current_frame;
                Some(
                    self.issue(
                        Phase::AwaitFence { delta_micros: delta_micros },
                        Action::WaitFence { slot: slot },
                    ),
                )
            },
            _ => None,
        }
    }

    /// Takes the answer to the last action and returns the next action, as
    /// `next` describes; an event that does not answer the pending action
    /// gives `None` and changes nothing.
    pub fn step(&mut self, event: Event) -> (r: Option<Action>)
        requires
            old(self).inv(),
        ensures
            final(self).inv(),
            final(self)@.wf(),
            match next(old(self)@, event) {
                Some((v, a)) => r == Some(a) && final(self)@ == v,
                None => r is None && final(self)@ == old(self)@,
            },
    {
        proof {
            if next(self@, event) is Some {
                lemma_next_wf(self@, event);
            }
        }
        let slot = self.current_frame;
        match self.phase {
            Phase::Idle => None,
            Phase::AwaitFence { delta_micros } => match event {
                Event::FenceSignaled => Some(
                    self.issue(
                        Phase::AwaitImage { delta_micros: delta_micros },
                        Action::AcquireImage { slot: slot },
                    ),
                ),
                _ => None,
            },
            Phase::AwaitImage { delta_micros } => match event {
                Event::Acquired { image, suboptimal: _ } => {
                    self.rotation.advance(delta_micros);
                    let rotation = self.rotation.microdegrees();
                    Some(
                        self.issue(
                            Phase::AwaitWrite { image: image },
                            Action::WriteTransform { image: image, rotation: rotation },
                        ),
                    )
                },
                Event::AcquireStale => Some(self.start_rebuild(false)),
                _ => None,
            },
            Phase::AwaitWrite { image } => match event {
                Event::TransformWritten => Some(
                    self.issue(
                        Phase::AwaitSubmit { image: image },
                        Action::Submit { image: image, slot: slot },
                    ),
                ),
                _ => None,
            },
            Phase::AwaitSubmit { image } => match event {
                Event::Submitted => Some(
                    self.issue(
                        Phase::AwaitPresent { image: image },
                        Action::Present { image: image, slot: slot },
                    ),
                ),
                _ => None,
            },
            Phase::AwaitPresent { image: _ } => match event {
                Event::Presented { suboptimal } => {
                    if suboptimal || self.resize_pending {
                        self.resize_pending = false;
                        Some(self.start_rebuild(true))
                    } else {
                        Some(self.end_tick(true))
                    }
                },
                Event::PresentStale => {
                    self.resize_pending = false;
                    Some(self.start_rebuild(true))
                },
                _ => None,
            },
            Phase::Rebuilding { step, completes_tick } => match event {
                Event::StepDone => {
                    if step + 1 < self.plan.len() {
                        let p = self.plan[step + 1];
                        Some(
                            self.issue(
                                Phase::Rebuilding { step: step + 1, completes_tick: completes_tick },
                                Action::Rebuild(p),
                            ),
                        )
                    } else {
                        Some(self.end_tick(completes_tick))
                    }
                },
                _ => None,
            },
        }
    }

    /// Records that the output surface changed size; the next presentation
    /// rebuilds the target.
    pub fn notify_resize(&mut self)
        requires
            old(self).inv(),
        ensures
            final(self).inv(),
            final(self)@.wf(),
            final(self)@ == (LoopView { resize_pending: true, ..old(self)@ }),
    {
        self.resize_pending = true;
    }

    /// The current frame slot.
    pub fn current_frame(&self) -> (r: usize)
        ensures
            r as nat == self@.frame,
    {
        self.current_frame
    }

    /// Whether a resize notification waits to be acted on.
    pub fn resize_pending(&self) -> (r: bool)
        ensures
            r == self@.resize_pending,
    {
        self.resize_pending
    }

    /// The model's accumulated rotation, in millionths of a degree.
    pub fn rotation(&self) -> (r: u64)
        ensures
            r as nat == self@.rotation,
    {
        self.rotation.microdegrees()
    }

    /// The answer the controller waits for.
    pub fn phase(&self) -> (r: Phase)
        ensures
            r == self@.phase,
    {
        self.phase
    }

    /// The optional stages this controller rebuilds for.
    pub fn capabilities(&self) -> (r: Capabilities)
        ensures
            r == self@.caps,
    {
        self.caps
    }
}

} // verus!
