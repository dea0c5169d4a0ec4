use vstd::prelude::*;

use crate::location::Url;

verus! {

/// Identifies a browsing context (a page or a frame). Assigned by the
/// parent supervisor, never by a pipeline.
#[derive(Clone, Copy, Debug, PartialEq, Eq, Structural)]
pub struct PipelineId(pub u64);

/// Identifies a nested frame within its containing document.
#[derive(Clone, Copy, Debug, PartialEq, Eq, Structural)]
pub struct SubpageId(pub u64);

/// The identity that every spawned component carries so that it can report
/// its failure against the right pipeline.
#[derive(Clone, Copy, Debug, PartialEq, Eq, Structural)]
pub struct Failure {
    pub pipeline_id: PipelineId,
    pub subpage_id: Option<SubpageId>,
}

/// A channel allocated by the runtime. Both of its ends carry the same id.
#[derive(Clone, Copy, Debug, PartialEq, Eq, Structural)]
pub struct ChannelId(pub u64);

/// Sending end of a script component's inbound channel.
#[derive(Clone, Copy, Debug, PartialEq, Eq, Structural)]
pub struct ScriptChan(pub ChannelId);

/// Receiving end of a script component's inbound channel.
#[derive(Clone, Copy, Debug, PartialEq, Eq, Structural)]
pub struct ScriptPort(pub ChannelId);

/// Sending end of a layout component's inbound channel.
#[derive(Clone, Copy, Debug, PartialEq, Eq, Structural)]
pub struct LayoutChan(pub ChannelId);

/// Receiving end of a layout component's inbound channel.
#[derive(Clone, Copy, Debug, PartialEq, Eq, Structural)]
pub struct LayoutPort(pub ChannelId);

/// Sending end of a render component's inbound channel.
#[derive(Clone, Copy, Debug, PartialEq, Eq, Structural)]
pub struct RenderChan(pub ChannelId);

/// Receiving end of a render component's inbound channel.
#[derive(Clone, Copy, Debug, PartialEq, Eq, Structural)]
pub struct RenderPort(pub ChannelId);

/// The end a component signals on once it has shut down.
#[derive(Clone, Copy, Debug, PartialEq, Eq, Structural)]
pub struct ShutdownChan(pub ChannelId);

/// The end a pipeline reads, once, to observe a component's shutdown.
#[derive(Clone, Copy, Debug, PartialEq, Eq, Structural)]
pub struct ShutdownPort(pub ChannelId);

/// The viewport size handed to a fresh script component.
#[derive(Clone, Copy, Debug, PartialEq, Eq, Structural)]
pub struct WindowSize {
    pub width: u64,
    pub height: u64,
}

/// What a script component is told when a new frame's layout joins it.
#[derive(Clone, Copy, Debug, PartialEq, Eq, Structural)]
pub struct NewLayoutInfo {
    pub old_pipeline_id: PipelineId,
    pub new_pipeline_id: PipelineId,
    pub subpage_id: SubpageId,
    pub layout_chan: LayoutChan,
}

/// Messages a pipeline sends to a script component.
#[derive(Debug)]
pub enum ScriptMsg {
    AttachLayout(NewLayoutInfo),
    Load(PipelineId, Url),
    ExitPipeline(PipelineId),
}

/// Control messages a pipeline sends to a render component.
#[derive(Clone, Copy, Debug, PartialEq, Eq, Structural)]
pub enum RenderMsg {
    PaintPermissionGranted,
    PaintPermissionRevoked,
}

/// A best-effort send to a script component: the runtime tries it once and
/// never blocks; a dead receiver makes it a no-op.
#[derive(Debug)]
pub struct ScriptSend {
    pub chan: ScriptChan,
    pub msg: ScriptMsg,
}

/// A best-effort send to a render component: tried once, never blocking,
/// and a no-op when the renderer is gone.
#[derive(Clone, Copy, Debug, PartialEq, Eq, Structural)]
pub struct RenderSend {
    pub chan: RenderChan,
    pub msg: RenderMsg,
}

} // verus!
