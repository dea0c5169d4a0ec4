use vstd::prelude::*;

use crate::ids::{
    ChannelId, Failure, LayoutChan, LayoutPort, NewLayoutInfo, PipelineId, RenderChan, RenderMsg,
    RenderPort, RenderSend, ScriptChan, ScriptMsg, ScriptPort, ScriptSend, ShutdownChan,
    ShutdownPort, SubpageId, WindowSize,
};
use crate::location::Url;

verus! {

/// A uniquely identifiable group of a script, a layout and a render component,
/// held through the sending ends of their channels, plus the two shutdown
/// acknowledgments that only this pipeline reads.
#[derive(Debug)]
pub struct Pipeline {
    pub id: PipelineId,
    pub subpage_id: Option<SubpageId>,
    pub script_chan: ScriptChan,
    pub layout_chan: LayoutChan,
    pub render_chan: RenderChan,
    pub layout_shutdown_port: ShutdownPort,
    pub render_shutdown_port: ShutdownPort,
    /// The most recently requested url.
    pub url: Url,
}

/// The part of a pipeline that layer composition needs: it can address the
/// script and render components, but neither tear them down nor reach layout.
#[derive(Clone, Copy, Debug, PartialEq, Eq, Structural)]
pub struct CompositionPipeline {
    pub id: PipelineId,
    pub script_chan: ScriptChan,
    pub render_chan: RenderChan,
}

/// The channels a nested frame needs: layout and render, and the two
/// shutdown acknowledgments. The runtime allocates them before any spawn.
#[derive(Clone, Copy, Debug, PartialEq, Eq, Structural)]
pub struct FrameChannels {
    pub layout: ChannelId,
    pub render: ChannelId,
    pub layout_shutdown: ChannelId,
    pub render_shutdown: ChannelId,
}

/// The channels a fresh pipeline needs: those of a frame plus its own script
/// channel.
#[derive(Clone, Copy, Debug, PartialEq, Eq, Structural)]
pub struct FreshChannels {
    pub script: ChannelId,
    pub frame: FrameChannels,
}

/// The three kinds of component a pipeline groups.
#[derive(Clone, Copy, Debug, PartialEq, Eq, Structural)]
pub enum ComponentKind {
    Script,
    Layout,
    Render,
}

/// A component for the runtime to start, with the channel ends and the
/// failure record it is handed.
#[derive(Clone, Copy, Debug, PartialEq, Eq, Structural)]
#[allow(inconsistent_fields)]
pub enum Spawn {
    Render {
        id: PipelineId,
        port: RenderPort,
        failure: Failure,
        shutdown: ShutdownChan,
    },
    Layout {
        id: PipelineId,
        port: LayoutPort,
        chan: LayoutChan,
        failure: Failure,
        script_chan: ScriptChan,
        render_chan: RenderChan,
        shutdown: ShutdownChan,
    },
    Script {
        id: PipelineId,
        port: ScriptPort,
        chan: ScriptChan,
        layout_chan: LayoutChan,
        failure: Failure,
        window_size: WindowSize,
    },
}

impl Spawn {
    pub open spec fn kind(self) -> ComponentKind {
        match self {
            Spawn::Render { .. } => ComponentKind::Render,
            Spawn::Layout { .. } => ComponentKind::Layout,
            Spawn::Script { .. } => ComponentKind::Script,
        }
    }
}

/// How many of the spawns start a component of kind `k`.
pub open spec fn count_kind(spawns: Seq<Spawn>, k: ComponentKind) -> nat
    decreases spawns.len(),
{
    if spawns.len() == 0 {
        0
    } else {
        count_kind(spawns.drop_last(), k) + if spawns.last().kind() == k { 1nat } else { 0nat }
    }
}

/// What starting a pipeline asks of the runtime: spawn the components in
/// order, then deliver the notices to already running script components.
#[derive(Debug)]
pub struct Startup {
    pub pipeline: Pipeline,
    pub spawns: Vec<Spawn>,
    pub notices: Vec<ScriptSend>,
}

/// The render component a pipeline starts, on the frame's channels.
pub open spec fn render_spawn(id: PipelineId, failure: Failure, ch: FrameChannels) -> Spawn {
    Spawn::Render {
        id,
        port: RenderPort(ch.render),
        failure,
        shutdown: ShutdownChan(ch.render_shutdown),
    }
}

/// The layout component a pipeline starts, talking to `script`.
pub open spec fn layout_spawn(
    id: PipelineId,
    failure: Failure,
    script: ScriptChan,
    ch: FrameChannels,
) -> Spawn {
    Spawn::Layout {
        id,
        port: LayoutPort(ch.layout),
        chan: LayoutChan(ch.layout),
        failure,
        script_chan: script,
        render_chan: RenderChan(ch.render),
        shutdown: ShutdownChan(ch.layout_shutdown),
    }
}

impl Pipeline {
    /// The composition projection of this pipeline.
    pub open spec fn sendable(&self) -> CompositionPipeline {
        CompositionPipeline { id: self.id, script_chan: self.script_chan, render_chan: self.render_chan }
    }

    /// Whether the pipeline's layout, render and shutdown ends are those of
    /// the frame channels `ch`.
    pub open spec fn holds_frame(&self, ch: FrameChannels) -> bool {
        &&& self.layout_chan == LayoutChan(ch.layout)
        &&& self.render_chan == RenderChan(ch.render)
        &&& self.layout_shutdown_port == ShutdownPort(ch.layout_shutdown)
        &&& self.render_shutdown_port == ShutdownPort(ch.render_shutdown)
    }

    /// Starts a render and a layout component for a nested frame that runs in
    /// the script component of `script_pipeline`, and tells that script
    /// component of the new layout.
    pub fn with_script(
        id: PipelineId,
        subpage_id: SubpageId,
        script_pipeline: &Pipeline,
        url: Url,
        channels: FrameChannels,
    ) -> (r: Startup)
        ensures
            r.pipeline.id == id,
            r.pipeline.subpage_id == Some(subpage_id),
            r.pipeline.url == url,
            r.pipeline.script_chan == script_pipeline.script_chan,
            r.pipeline.holds_frame(channels),
            r.spawns@ == seq![
                render_spawn(id, Failure { pipeline_id: id, subpage_id: Some(subpage_id) }, channels),
                layout_spawn(id, Failure { pipeline_id: id, subpage_id: Some(subpage_id) }, script_pipeline.script_chan, channels),
            ],
            r.notices@.len() == 1,
            r.notices@[0].chan == script_pipeline.script_chan,
            r.notices@[0].msg == ScriptMsg::AttachLayout(NewLayoutInfo {
                old_pipeline_id: script_pipeline.id,
                new_pipeline_id: id,
                subpage_id,
                layout_chan: LayoutChan(channels.layout),
            }),
    {
        let layout_chan = LayoutChan(channels.layout);
        let render_chan = RenderChan(channels.render);
        let failure = Failure { pipeline_id: id, subpage_id: Some(subpage_id) };
        let mut spawns: Vec<Spawn> = Vec::new();
        spawns.push(
            Spawn::Render {
                id,
                port: RenderPort(channels.render),
                failure,
                shutdown: ShutdownChan(channels.render_shutdown),
            },
        );
        spawns.push(
            Spawn::Layout {
                id,
                port: LayoutPort(channels.layout),
                chan: layout_chan,
                failure,
                script_chan: script_pipeline.script_chan,
                render_chan,
                shutdown: ShutdownChan(channels.layout_shutdown),
            },
        );
        let info = NewLayoutInfo {
            old_pipeline_id: script_pipeline.id,
            new_pipeline_id: id,
            subpage_id,
            layout_chan,
        };
        let mut notices: Vec<ScriptSend> = Vec::new();
        notices.push(ScriptSend { chan: script_pipeline.script_chan, msg: ScriptMsg::AttachLayout(info) });
        let pipeline = Pipeline::new(
            id,
            Some(subpage_id),
            script_pipeline.script_chan,
            layout_chan,
            render_chan,
            ShutdownPort(channels.layout_shutdown),
            ShutdownPort(channels.render_shutdown),
            url,
        );
        proof {
            assert(spawns@ =~= seq![
                render_spawn(id, failure, channels),
                layout_spawn(id, failure, script_pipeline.script_chan, channels),
            ]);
        }
        Startup { pipeline, spawns, notices }
    }

    /// Starts a fresh render, layout and script component, in that order, on
    /// freshly allocated channels.
    pub fn create(
        id: PipelineId,
        subpage_id: Option<SubpageId>,
        window_size: WindowSize,
        url: Url,
        channels: FreshChannels,
    ) -> (r: Startup)
        ensures
            r.pipeline.id == id,
            r.pipeline.subpage_id == subpage_id,
            r.pipeline.url == url,
            r.pipeline.script_chan == ScriptChan(channels.script),
            r.pipeline.holds_frame(channels.frame),
            r.spawns@ == seq![
                render_spawn(id, Failure { pipeline_id: id, subpage_id }, channels.frame),
                layout_spawn(id, Failure { pipeline_id: id, subpage_id }, ScriptChan(channels.script), channels.frame),
                Spawn::Script {
                    id,
                    port: ScriptPort(channels.script),
                    chan: ScriptChan(channels.script),
                    layout_chan: LayoutChan(channels.frame.layout),
                    failure: Failure { pipeline_id: id, subpage_id },
                    window_size,
                },
            ],
            count_kind(r.spawns@, ComponentKind::Render) == 1,
            count_kind(r.spawns@, ComponentKind::Layout) == 1,
            count_kind(r.spawns@, ComponentKind::Script) == 1,
            r.notices@.len() == 0,
    {
        let frame = channels.frame;
        let script_chan = ScriptChan(channels.script);
        let layout_chan = LayoutChan(frame.layout);
        let render_chan = RenderChan(frame.render);
        let failure = Failure { pipeline_id: id, subpage_id };
        let mut spawns: Vec<Spawn> = Vec::new();
        spawns.push(
            Spawn::Render {
                id,
                port: RenderPort(frame.render),
                failure,
                shutdown: ShutdownChan(frame.render_shutdown),
            },
        );
        spawns.push(
            Spawn::Layout {
                id,
                port: LayoutPort(frame.layout),
                chan: layout_chan,
                failure,
                script_chan,
                render_chan,
                shutdown: ShutdownChan(frame.layout_shutdown),
            },
        );
        spawns.push(
            Spawn::Script {
                id,
                port: ScriptPort(channels.script),
                chan: script_chan,
                layout_chan,
                failure,
                window_size,
            },
        );
        let pipeline = Pipeline::new(
            id,
            subpage_id,
            script_chan,
            layout_chan,
            render_chan,
            ShutdownPort(frame.layout_shutdown),
            ShutdownPort(frame.render_shutdown),
            url,
        );
        proof {
            let s = spawns@;
            assert(s.drop_last().drop_last().drop_last() =~= Seq::<Spawn>::empty());
            assert(s.drop_last().drop_last().last() == s[0]);
            assert(s.drop_last().last() == s[1]);
            reveal_with_fuel(count_kind, 4);
        }
        Startup { pipeline, spawns, notices: Vec::new() }
    }

    /// A pipeline from its parts.
    pub fn new(
        id: PipelineId,
        subpage_id: Option<SubpageId>,
        script_chan: ScriptChan,
        layout_chan: LayoutChan,
        render_chan: RenderChan,
        layout_shutdown_port: ShutdownPort,
        render_shutdown_port: ShutdownPort,
        url: Url,
    ) -> (r: Pipeline)
        ensures
            r.id == id,
            r.subpage_id == subpage_id,
            r.script_chan == script_chan,
            r.layout_chan == layout_chan,
            r.render_chan == render_chan,
            r.layout_shutdown_port == layout_shutdown_port,
            r.render_shutdown_port == render_shutdown_port,
            r.url == url,
    {
        Pipeline {
            id,
            subpage_id,
            script_chan,
            layout_chan,
            render_chan,
            layout_shutdown_port,
            render_shutdown_port,
            url,
        }
    }

    /// Asks the script component to load the pipeline's url: a best-effort
    /// send that nothing waits on.
    pub fn load(&self) -> (r: ScriptSend)
        ensures
            r.chan == self.script_chan,
            r.msg == ScriptMsg::Load(self.id, self.url),
    {
        ScriptSend { chan: self.script_chan, msg: ScriptMsg::Load(self.id, self.url.clone()) }
    }

    /// Tells the render component that it may paint: a best-effort send.
    pub fn grant_paint_permission(&self) -> (r: RenderSend)
        ensures
            r == (RenderSend { chan: self.render_chan, msg: RenderMsg::PaintPermissionGranted }),
    {
        RenderSend { chan: self.render_chan, msg: RenderMsg::PaintPermissionGranted }
    }

    /// Tells the render component that it may no longer paint: a best-effort
    /// send.
    pub fn revoke_paint_permission(&self) -> (r: RenderSend)
        ensures
            r == (RenderSend { chan: self.render_chan, msg: RenderMsg::PaintPermissionRevoked }),
    {
        RenderSend { chan: self.render_chan, msg: RenderMsg::PaintPermissionRevoked }
    }

    /// The composition projection: the id and the script and render ends.
    pub fn to_sendable(&self) -> (r: CompositionPipeline)
        ensures
            r == self.sendable(),
    {
        CompositionPipeline { id: self.id, script_chan: self.script_chan, render_chan: self.render_chan }
    }
}

/// Projecting a pipeline has no effect and depends on nothing else: two
/// projections of an unchanged pipeline are equal, and address its script and
/// render components under its id.
pub proof fn to_sendable_is_pure(p: &Pipeline, a: CompositionPipeline, b: CompositionPipeline)
    requires
        a == p.sendable(),
        b == p.sendable(),
    ensures
        a == b,
        a.id == p.id,
        a.script_chan == p.script_chan,
        a.render_chan == p.render_chan,
{
}

} // verus!
