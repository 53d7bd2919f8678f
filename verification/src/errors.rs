use vstd::prelude::*;

verus! {

/// Every failure a caller of the engine can see.
///
/// Metadata problems never appear here: a missing or malformed sidecar
/// degrades to the default descriptor instead of failing.
#[derive(Clone, Copy, Debug, PartialEq, Eq, Structural)]
pub enum EngineError {
    /// No candidate model path exists; construction cannot proceed.
    ModelNotFound,
    /// A feature vector's length disagrees with the model's input width.
    ShapeMismatch { expected: usize, got: usize },
    /// The rows of a batch do not all share one length.
    RaggedBatch,
    /// A batch with no rows.
    EmptyBatch,
    /// The runtime failed while executing the model, or handed back an
    /// output of an unusable shape.
    InferenceFailure,
    /// The engine could not be built; used at the construction boundary
    /// for failures beyond a missing model file.
    ConstructionFailure,
}

} // verus!
