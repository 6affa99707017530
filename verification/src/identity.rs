//! The names under which the product appears in the audio graph.
//!
//! Nodes, streams, groups and the thread loop are named by these constants alone.
use vstd::prelude::*;

verus! {

/// The name of the capture node (the virtual sink), as patchbays show it.
pub const PW_CAPTURE_NODE_NAME: &'static str = "NAM-Audio-Pipe-input";

/// The description of the capture node, as patchbays show it.
pub const PW_CAPTURE_NODE_DESC: &'static str = "NAM-Audio-Pipe Input";

/// The name of the capture stream.
pub const PW_CAPTURE_STREAM_NAME: &'static str = "NAM-Audio-Pipe";

/// The name of the playback node, as patchbays show it.
pub const PW_PLAYBACK_NODE_NAME: &'static str = "NAM-Audio-Pipe-playback";

/// The description of the playback node, as patchbays show it.
pub const PW_PLAYBACK_NODE_DESC: &'static str = "NAM-Audio-Pipe Processed Output";

/// The name of the playback stream.
pub const PW_PLAYBACK_STREAM_NAME: &'static str = "NAM-Audio-Pipe-Output";

/// The node group: it has one driver schedule both streams.
pub const PW_NODE_GROUP: &'static str = "nam-audio-pipe-dsp";

/// The link group that keeps both streams together.
pub const PW_LINK_GROUP: &'static str = "nam-audio-pipe-link-group";

/// The name of the thread loop, which no user sees.
pub const PW_THREAD_LOOP_NAME: &'static str = "nam-audio-pipe-loop";

} // verus!
