//! Supervision of rendering pipelines: the creation, wiring, signalling and
//! shutdown of a script / layout / render component triple, plus the loader
//! for `data:` URLs that feeds such pipelines.
//!
//! The library decides; a runtime performs. Every operation here returns the
//! spawns, sends and reads that the runtime must carry out on its channels.

pub mod data_loader;
pub mod ids;
pub mod location;
pub mod pipeline;
pub mod shutdown;

pub use data_loader::{load, LoadResponse, Metadata, ProgressMsg};
pub use ids::{
    ChannelId, Failure, LayoutChan, LayoutPort, NewLayoutInfo, PipelineId, RenderChan, RenderMsg,
    RenderPort, RenderSend, ScriptChan, ScriptMsg, ScriptPort, ScriptSend, ShutdownChan,
    ShutdownPort, SubpageId, WindowSize,
};
pub use location::Url;
pub use pipeline::{
    ComponentKind, CompositionPipeline, FrameChannels, FreshChannels, Pipeline, Spawn, Startup,
};
pub use shutdown::{AckOutcome, ExitAction, ExitEvent, ExitState};
