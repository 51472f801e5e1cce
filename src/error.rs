use vstd::prelude::*;

verus! {

/// Why a command failed. Every failure is reported and none stops the
/// processing of later commands.
#[derive(Clone, Copy, Debug, PartialEq, Eq, Structural)]
pub enum EditorError {
    /// The file named by `AddClip` does not exist.
    PathNotFound,
    /// The media engine could not determine a usable format or duration.
    AssetProbeFailed,
    /// A clip placement with a zero duration.
    InvalidPlacement,
    /// The media engine refused to create or fill the layer.
    LayerAccessError,
    /// The media engine could not link the preview sink to the timeline.
    PipelineBuildError,
    /// The media engine rejected a change of pipeline state.
    StateChangeError,
    /// The media engine rejected a seek.
    SeekRejected,
    /// A playback toggle with no preview session active.
    InvalidTransition,
}

} // verus!
