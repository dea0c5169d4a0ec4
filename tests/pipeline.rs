use pipeline::{
    AckOutcome, ChannelId, ComponentKind, ExitAction, ExitEvent, ExitState, Failure, FrameChannels,
    FreshChannels, LayoutChan, LayoutPort, NewLayoutInfo, Pipeline, PipelineId, RenderChan,
    RenderMsg, RenderPort, ScriptChan, ScriptMsg, ScriptPort, ShutdownChan, ShutdownPort, Spawn,
    SubpageId, Url, WindowSize,
};

fn url() -> Url {
    Url::new("http".to_owned(), "/index.html".to_owned())
}

fn fresh() -> FreshChannels {
    FreshChannels {
        script: ChannelId(1),
        frame: FrameChannels {
            layout: ChannelId(2),
            render: ChannelId(3),
            layout_shutdown: ChannelId(4),
            render_shutdown: ChannelId(5),
        },
    }
}

fn frame() -> FrameChannels {
    FrameChannels {
        layout: ChannelId(12),
        render: ChannelId(13),
        layout_shutdown: ChannelId(14),
        render_shutdown: ChannelId(15),
    }
}

fn kind(s: &Spawn) -> ComponentKind {
    match s {
        Spawn::Render { .. } => ComponentKind::Render,
        Spawn::Layout { .. } => ComponentKind::Layout,
        Spawn::Script { .. } => ComponentKind::Script,
    }
}

fn top() -> Pipeline {
    Pipeline::create(PipelineId(7), None, WindowSize { width: 800, height: 600 }, url(), fresh())
        .pipeline
}

#[test]
fn create_spawns_one_of_each_in_order() {
    let size = WindowSize { width: 800, height: 600 };
    let s = Pipeline::create(PipelineId(7), Some(SubpageId(3)), size, url(), fresh());
    let kinds: Vec<ComponentKind> = s.spawns.iter().map(kind).collect();
    assert_eq!(kinds, vec![ComponentKind::Render, ComponentKind::Layout, ComponentKind::Script]);
    assert!(s.notices.is_empty());
    let failure = Failure { pipeline_id: PipelineId(7), subpage_id: Some(SubpageId(3)) };
    assert_eq!(
        s.spawns[0],
        Spawn::Render {
            id: PipelineId(7),
            port: RenderPort(ChannelId(3)),
            failure,
            shutdown: ShutdownChan(ChannelId(5)),
        }
    );
    assert_eq!(
        s.spawns[1],
        Spawn::Layout {
            id: PipelineId(7),
            port: LayoutPort(ChannelId(2)),
            chan: LayoutChan(ChannelId(2)),
            failure,
            script_chan: ScriptChan(ChannelId(1)),
            render_chan: RenderChan(ChannelId(3)),
            shutdown: ShutdownChan(ChannelId(4)),
        }
    );
    assert_eq!(
        s.spawns[2],
        Spawn::Script {
            id: PipelineId(7),
            port: ScriptPort(ChannelId(1)),
            chan: ScriptChan(ChannelId(1)),
            layout_chan: LayoutChan(ChannelId(2)),
            failure,
            window_size: size,
        }
    );
}

#[test]
fn create_keeps_identity_and_url() {
    let s = Pipeline::create(PipelineId(9), None, WindowSize { width: 1, height: 1 }, url(), fresh());
    let p = s.pipeline;
    assert_eq!(p.id, PipelineId(9));
    assert_eq!(p.subpage_id, None);
    assert_eq!(p.url, url());
    assert_eq!(p.script_chan, ScriptChan(ChannelId(1)));
    assert_eq!(p.layout_chan, LayoutChan(ChannelId(2)));
    assert_eq!(p.render_chan, RenderChan(ChannelId(3)));
    assert_eq!(p.layout_shutdown_port, ShutdownPort(ChannelId(4)));
    assert_eq!(p.render_shutdown_port, ShutdownPort(ChannelId(5)));
}

#[test]
fn with_script_shares_script_and_attaches_once() {
    let parent = top();
    let s = Pipeline::with_script(PipelineId(8), SubpageId(2), &parent, url(), frame());
    assert_eq!(s.pipeline.script_chan, parent.script_chan);
    assert_eq!(s.pipeline.subpage_id, Some(SubpageId(2)));
    assert_eq!(s.pipeline.layout_chan, LayoutChan(ChannelId(12)));
    assert_eq!(s.spawns.len(), 2);
    assert_eq!(kind(&s.spawns[0]), ComponentKind::Render);
    assert_eq!(kind(&s.spawns[1]), ComponentKind::Layout);
    match &s.spawns[1] {
        Spawn::Layout { script_chan, .. } => assert_eq!(*script_chan, parent.script_chan),
        _ => panic!("layout expected"),
    }
    assert_eq!(s.notices.len(), 1);
    assert_eq!(s.notices[0].chan, parent.script_chan);
    match &s.notices[0].msg {
        ScriptMsg::AttachLayout(info) => assert_eq!(
            *info,
            NewLayoutInfo {
                old_pipeline_id: PipelineId(7),
                new_pipeline_id: PipelineId(8),
                subpage_id: SubpageId(2),
                layout_chan: LayoutChan(ChannelId(12)),
            }
        ),
        _ => panic!("attach expected"),
    }
}

#[test]
fn load_sends_id_and_url_to_script() {
    let p = top();
    let send = p.load();
    assert_eq!(send.chan, p.script_chan);
    match send.msg {
        ScriptMsg::Load(id, u) => {
            assert_eq!(id, PipelineId(7));
            assert_eq!(u, url());
        }
        _ => panic!("load expected"),
    }
}

#[test]
fn paint_permission_targets_render() {
    let p = top();
    let g = p.grant_paint_permission();
    let r = p.revoke_paint_permission();
    assert_eq!(g.chan, RenderChan(ChannelId(3)));
    assert_eq!(g.msg, RenderMsg::PaintPermissionGranted);
    assert_eq!(r.chan, RenderChan(ChannelId(3)));
    assert_eq!(r.msg, RenderMsg::PaintPermissionRevoked);
}

#[test]
fn to_sendable_twice_is_equal() {
    let p = top();
    let a = p.to_sendable();
    let b = p.to_sendable();
    assert_eq!(a, b);
    assert_eq!(a.id, p.id);
    assert_eq!(a.script_chan, p.script_chan);
    assert_eq!(a.render_chan, p.render_chan);
}

fn drive(p: &Pipeline, events: &[ExitEvent]) -> (ExitState, Vec<ExitAction>) {
    let (mut state, first) = p.exit();
    let mut actions = vec![first];
    for e in events {
        let (s, a) = p.exit_step(state, *e);
        state = s;
        actions.push(a);
    }
    (state, actions)
}

#[test]
fn exit_on_dead_script_reads_nothing() {
    let p = top();
    let (state, actions) = drive(&p, &[ExitEvent::ExitSent(false), ExitEvent::Acknowledged(AckOutcome::Signalled)]);
    assert_eq!(state, ExitState::Terminated);
    assert_eq!(
        actions,
        vec![
            ExitAction::TrySendExit { chan: p.script_chan, id: p.id },
            ExitAction::Finished,
            ExitAction::Idle,
        ]
    );
}

#[test]
fn exit_on_live_script_reads_layout_then_render() {
    let p = top();
    for (l, r) in [
        (AckOutcome::Signalled, AckOutcome::Signalled),
        (AckOutcome::Closed, AckOutcome::Signalled),
        (AckOutcome::Signalled, AckOutcome::Closed),
        (AckOutcome::Closed, AckOutcome::Closed),
    ] {
        let (state, actions) = drive(
            &p,
            &[ExitEvent::ExitSent(true), ExitEvent::Acknowledged(l), ExitEvent::Acknowledged(r)],
        );
        assert_eq!(state, ExitState::Terminated);
        assert_eq!(
            actions,
            vec![
                ExitAction::TrySendExit { chan: p.script_chan, id: p.id },
                ExitAction::ReadLayoutAck(ShutdownPort(ChannelId(4))),
                ExitAction::ReadRenderAck(ShutdownPort(ChannelId(5))),
                ExitAction::Finished,
            ]
        );
    }
}

#[test]
fn exit_ignores_events_out_of_turn() {
    let p = top();
    let (s, a) = p.exit_step(ExitState::Running, ExitEvent::Acknowledged(AckOutcome::Closed));
    assert_eq!((s, a), (ExitState::Running, ExitAction::Idle));
    let (s, a) = p.exit_step(ExitState::WaitingForLayout, ExitEvent::Begin);
    assert_eq!((s, a), (ExitState::WaitingForLayout, ExitAction::Idle));
}

#[test]
fn new_keeps_fields() {
    let p = Pipeline::new(
        PipelineId(1),
        Some(SubpageId(4)),
        ScriptChan(ChannelId(10)),
        LayoutChan(ChannelId(11)),
        RenderChan(ChannelId(12)),
        ShutdownPort(ChannelId(13)),
        ShutdownPort(ChannelId(14)),
        url(),
    );
    assert_eq!(p.id, PipelineId(1));
    assert_eq!(p.subpage_id, Some(SubpageId(4)));
    assert_eq!(p.render_shutdown_port, ShutdownPort(ChannelId(14)));
    assert_eq!(p.url, url());
}
