use vstd::prelude::*;

use crate::ids::{PipelineId, ScriptChan, ShutdownPort};
use crate::pipeline::Pipeline;

verus! {

/// Where a pipeline stands in its shutdown.
#[derive(Clone, Copy, Debug, PartialEq, Eq, Structural)]
pub enum ExitState {
    Running,
    ExitRequested,
    WaitingForLayout,
    WaitingForRender,
    Terminated,
}

/// How a read of a shutdown acknowledgment ended. Both mean that the
/// component no longer runs.
#[derive(Clone, Copy, Debug, PartialEq, Eq, Structural)]
pub enum AckOutcome {
    Signalled,
    Closed,
}

/// What the runtime reports back while it drives a shutdown.
#[derive(Clone, Copy, Debug, PartialEq, Eq, Structural)]
pub enum ExitEvent {
    /// The supervisor asks the pipeline to exit.
    Begin,
    /// The exit message was tried on the script channel; `true` when a live
    /// receiver accepted it.
    ExitSent(bool),
    /// The acknowledgment that was asked for has been read.
    Acknowledged(AckOutcome),
}

/// What the runtime is to do next for a shutdown.
#[derive(Clone, Copy, Debug, PartialEq, Eq, Structural)]
pub enum ExitAction {
    /// Try, without blocking, to send the exit message for `id` on `chan`,
    /// and report whether it was accepted.
    TrySendExit { chan: ScriptChan, id: PipelineId },
    /// Block on the layout component's shutdown acknowledgment.
    ReadLayoutAck(ShutdownPort),
    /// Block on the render component's shutdown acknowledgment.
    ReadRenderAck(ShutdownPort),
    /// The shutdown is over.
    Finished,
    /// The event did not fit the state: nothing to do.
    Idle,
}

impl ExitAction {
    /// Whether the action reads a shutdown acknowledgment.
    pub open spec fn is_read(self) -> bool {
        self is ReadLayoutAck || self is ReadRenderAck
    }
}

impl Pipeline {
    /// One step of the shutdown protocol.
    pub open spec fn exit_next(&self, s: ExitState, e: ExitEvent) -> (ExitState, ExitAction) {
        match (s, e) {
            (ExitState::Running, ExitEvent::Begin) => (
                ExitState::ExitRequested,
                ExitAction::TrySendExit { chan: self.script_chan, id: self.id },
            ),
            (ExitState::ExitRequested, ExitEvent::ExitSent(true)) => (
                ExitState::WaitingForLayout,
                ExitAction::ReadLayoutAck(self.layout_shutdown_port),
            ),
            (ExitState::ExitRequested, ExitEvent::ExitSent(false)) => (
                ExitState::Terminated,
                ExitAction::Finished,
            ),
            (ExitState::WaitingForLayout, ExitEvent::Acknowledged(_)) => (
                ExitState::WaitingForRender,
                ExitAction::ReadRenderAck(self.render_shutdown_port),
            ),
            (ExitState::WaitingForRender, ExitEvent::Acknowledged(_)) => (
                ExitState::Terminated,
                ExitAction::Finished,
            ),
            _ => (s, ExitAction::Idle),
        }
    }

    /// The state reached and the actions asked for when the events `evs`
    /// arrive in order, starting from `s`.
    pub open spec fn exit_run(&self, s: ExitState, evs: Seq<ExitEvent>) -> (
        ExitState,
        Seq<ExitAction>,
    )
        decreases evs.len(),
    {
        if evs.len() == 0 {
            (s, Seq::empty())
        } else {
            let (s1, a) = self.exit_next(s, evs[0]);
            let (s2, rest) = self.exit_run(s1, evs.drop_first());
            (s2, seq![a] + rest)
        }
    }

    /// Starts the shutdown: the script component, which cascades the
    /// shutdown to layout and then to render, is sent the exit message.
    pub fn exit(&self) -> (r: (ExitState, ExitAction))
        ensures
            r == self.exit_next(ExitState::Running, ExitEvent::Begin),
            r == (ExitState::ExitRequested, ExitAction::TrySendExit { chan: self.script_chan, id: self.id }),
    {
        (ExitState::ExitRequested, ExitAction::TrySendExit { chan: self.script_chan, id: self.id })
    }

    /// Advances the shutdown from `s` on the event `e`.
    pub fn exit_step(&self, s: ExitState, e: ExitEvent) -> (r: (ExitState, ExitAction))
        ensures
            r == self.exit_next(s, e),
    {
        match (s, e) {
            (ExitState::Running, ExitEvent::Begin) => (
                ExitState::ExitRequested,
                ExitAction::TrySendExit { chan: self.script_chan, id: self.id },
            ),
            (ExitState::ExitRequested, ExitEvent::ExitSent(accepted)) => {
                if accepted {
                    (ExitState::WaitingForLayout, ExitAction::ReadLayoutAck(self.layout_shutdown_port))
                } else {
                    (ExitState::Terminated, ExitAction::Finished)
                }
            },
            (ExitState::WaitingForLayout, ExitEvent::Acknowledged(_)) => (
                ExitState::WaitingForRender,
                ExitAction::ReadRenderAck(self.render_shutdown_port),
            ),
            (ExitState::WaitingForRender, ExitEvent::Acknowledged(_)) => (
                ExitState::Terminated,
                ExitAction::Finished,
            ),
            _ => (s, ExitAction::Idle),
        }
    }
}

/// Once terminated, a pipeline's shutdown asks for nothing more, whatever
/// events follow.
pub proof fn terminated_is_final(p: &Pipeline, evs: Seq<ExitEvent>)
    ensures
        p.exit_run(ExitState::Terminated, evs).0 == ExitState::Terminated,
        forall|i: int|
            0 <= i < evs.len() ==> #[trigger] p.exit_run(ExitState::Terminated, evs).1[i]
                == ExitAction::Idle,
        p.exit_run(ExitState::Terminated, evs).1.len() == evs.len(),
    decreases evs.len(),
{
    if evs.len() > 0 {
        terminated_is_final(p, evs.drop_first());
        let rest = p.exit_run(ExitState::Terminated, evs.drop_first()).1;
        assert forall|i: int| 0 <= i < evs.len() implies #[trigger] p.exit_run(
            ExitState::Terminated,
            evs,
        ).1[i] == ExitAction::Idle by {
            if i > 0 {
                assert(rest[i - 1] == ExitAction::Idle);
            }
        }
    }
}

/// When the exit message is refused (the script component is gone), the
/// shutdown ends at once: it never reads either shutdown acknowledgment,
/// whatever events follow.
pub proof fn refused_exit_reads_nothing(p: &Pipeline, rest: Seq<ExitEvent>)
    ensures
        ({
            let (s, acts) = p.exit_run(
                ExitState::Running,
                seq![ExitEvent::Begin, ExitEvent::ExitSent(false)] + rest,
            );
            &&& s == ExitState::Terminated
            &&& acts[1] == ExitAction::Finished
            &&& forall|i: int| 0 <= i < acts.len() ==> !(#[trigger] acts[i]).is_read()
        }),
{
    let evs = seq![ExitEvent::Begin, ExitEvent::ExitSent(false)] + rest;
    assert(evs.drop_first() =~= seq![ExitEvent::ExitSent(false)] + rest);
    assert(evs.drop_first().drop_first() =~= rest);
    terminated_is_final(p, rest);
    let acts = p.exit_run(ExitState::Running, evs).1;
    let mid = p.exit_run(ExitState::ExitRequested, evs.drop_first()).1;
    let tail = p.exit_run(ExitState::Terminated, rest).1;
    assert(mid == seq![ExitAction::Finished] + tail);
    assert(acts == seq![ExitAction::TrySendExit { chan: p.script_chan, id: p.id }] + mid);
    assert forall|i: int| 0 <= i < acts.len() implies !(#[trigger] acts[i]).is_read() by {
        if i >= 2 {
            assert(acts[i] == tail[i - 2]);
        }
    }
}

/// On any run of events from `s`, a read of the render acknowledgment comes
/// only after a read of the layout acknowledgment, unless `s` already waits
/// for layout.
pub proof fn render_read_follows_layout_read(p: &Pipeline, s: ExitState, evs: Seq<ExitEvent>)
    ensures
        forall|j: int|
            0 <= j < p.exit_run(s, evs).1.len() && (#[trigger] p.exit_run(s, evs).1[j]) is ReadRenderAck
                ==> s == ExitState::WaitingForLayout || exists|i: int|
                0 <= i < j && (#[trigger] p.exit_run(s, evs).1[i]) is ReadLayoutAck,
        p.exit_run(s, evs).1.len() == evs.len(),
    decreases evs.len(),
{
    if evs.len() > 0 {
        let (s1, a) = p.exit_next(s, evs[0]);
        render_read_follows_layout_read(p, s1, evs.drop_first());
        let acts = p.exit_run(s, evs).1;
        let rest = p.exit_run(s1, evs.drop_first()).1;
        assert forall|j: int|
            0 <= j < acts.len() && (#[trigger] acts[j]) is ReadRenderAck implies s
            == ExitState::WaitingForLayout || exists|i: int| 0 <= i < j && (#[trigger] acts[i]) is ReadLayoutAck by {
            if j > 0 {
                assert(rest[j - 1] == acts[j]);
                if s1 == ExitState::WaitingForLayout {
                    if s != ExitState::WaitingForLayout {
                        assert(acts[0] is ReadLayoutAck);
                    }
                } else {
                    let i0 = choose|i: int| 0 <= i < j - 1 && (#[trigger] rest[i]) is ReadLayoutAck;
                    assert(acts[i0 + 1] == rest[i0]);
                }
            }
        }
    }
}

/// A shutdown that starts on a running pipeline never reads the render
/// acknowledgment before the layout acknowledgment.
pub proof fn exit_reads_layout_before_render(p: &Pipeline, evs: Seq<ExitEvent>)
    ensures
        forall|j: int|
            0 <= j < p.exit_run(ExitState::Running, evs).1.len()
                && (#[trigger] p.exit_run(ExitState::Running, evs).1[j]) is ReadRenderAck
                ==> exists|i: int|
                0 <= i < j && (#[trigger] p.exit_run(ExitState::Running, evs).1[i]) is ReadLayoutAck,
{
    render_read_follows_layout_read(p, ExitState::Running, evs);
}

/// A shutdown whose exit message is accepted reads the layout acknowledgment,
/// then the render acknowledgment, each once, and terminates, whether each
/// acknowledgment was signalled or its channel closed.
pub proof fn accepted_exit_completes(p: &Pipeline, layout: AckOutcome, render: AckOutcome)
    ensures
        p.exit_run(
            ExitState::Running,
            seq![
                ExitEvent::Begin,
                ExitEvent::ExitSent(true),
                ExitEvent::Acknowledged(layout),
                ExitEvent::Acknowledged(render),
            ],
        ) == (
            ExitState::Terminated,
            seq![
                ExitAction::TrySendExit { chan: p.script_chan, id: p.id },
                ExitAction::ReadLayoutAck(p.layout_shutdown_port),
                ExitAction::ReadRenderAck(p.render_shutdown_port),
                ExitAction::Finished,
            ],
        ),
{
    let evs = seq![
        ExitEvent::Begin,
        ExitEvent::ExitSent(true),
        ExitEvent::Acknowledged(layout),
        ExitEvent::Acknowledged(render),
    ];
    let e1 = evs.drop_first();
    let e2 = e1.drop_first();
    let e3 = e2.drop_first();
    let e4 = e3.drop_first();
    assert(e4 =~= Seq::<ExitEvent>::empty());
    assert(e3[0] == ExitEvent::Acknowledged(render));
    assert(e2[0] == ExitEvent::Acknowledged(layout));
    assert(e1[0] == ExitEvent::ExitSent(true));
    reveal_with_fuel(Pipeline::exit_run, 5);
    assert(p.exit_run(ExitState::Running, evs).1 =~= seq![
        ExitAction::TrySendExit { chan: p.script_chan, id: p.id },
        ExitAction::ReadLayoutAck(p.layout_shutdown_port),
        ExitAction::ReadRenderAck(p.render_shutdown_port),
        ExitAction::Finished,
    ]);
}

/// Whether, from `s`, the layout acknowledgment is still to be read.
pub open spec fn layout_read_ahead(s: ExitState) -> bool {
    s == ExitState::Running || s == ExitState::ExitRequested
}

/// Whether, from `s`, the render acknowledgment is still to be read.
pub open spec fn render_read_ahead(s: ExitState) -> bool {
    layout_read_ahead(s) || s == ExitState::WaitingForLayout
}

/// On any run of events from `s`, each shutdown acknowledgment is read at
/// most once, and not at all once `s` is past reading it.
pub proof fn acks_read_at_most_once_from(p: &Pipeline, s: ExitState, evs: Seq<ExitEvent>)
    ensures
        ({
            let acts = p.exit_run(s, evs).1;
            &&& acts.len() == evs.len()
            &&& forall|i: int, j: int|
                0 <= i < j < acts.len() && (#[trigger] acts[i]) is ReadLayoutAck
                    ==> !((#[trigger] acts[j]) is ReadLayoutAck)
            &&& forall|i: int, j: int|
                0 <= i < j < acts.len() && (#[trigger] acts[i]) is ReadRenderAck
                    ==> !((#[trigger] acts[j]) is ReadRenderAck)
            &&& !layout_read_ahead(s) ==> forall|i: int|
                0 <= i < acts.len() ==> !((#[trigger] acts[i]) is ReadLayoutAck)
            &&& !render_read_ahead(s) ==> forall|i: int|
                0 <= i < acts.len() ==> !((#[trigger] acts[i]) is ReadRenderAck)
        }),
    decreases evs.len(),
{
    if evs.len() > 0 {
        let (s1, a) = p.exit_next(s, evs[0]);
        acks_read_at_most_once_from(p, s1, evs.drop_first());
        let acts = p.exit_run(s, evs).1;
        let rest = p.exit_run(s1, evs.drop_first()).1;
        assert(acts == seq![a] + rest);
        assert forall|i: int| 0 < i < acts.len() implies #[trigger] acts[i] == rest[i - 1] by {}
    }
}

/// A shutdown that starts on a running pipeline reads each of its two
/// shutdown acknowledgments at most once.
pub proof fn exit_reads_each_ack_at_most_once(p: &Pipeline, evs: Seq<ExitEvent>)
    ensures
        forall|i: int, j: int|
            0 <= i < j < p.exit_run(ExitState::Running, evs).1.len()
                && (#[trigger] p.exit_run(ExitState::Running, evs).1[i]) is ReadLayoutAck
                ==> !((#[trigger] p.exit_run(ExitState::Running, evs).1[j]) is ReadLayoutAck),
        forall|i: int, j: int|
            0 <= i < j < p.exit_run(ExitState::Running, evs).1.len()
                && (#[trigger] p.exit_run(ExitState::Running, evs).1[i]) is ReadRenderAck
                ==> !((#[trigger] p.exit_run(ExitState::Running, evs).1[j]) is ReadRenderAck),
{
    acks_read_at_most_once_from(p, ExitState::Running, evs);
}

} // verus!
