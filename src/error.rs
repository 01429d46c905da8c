use vstd::prelude::*;

verus! {

/// Every failure that a stage of the pipeline can report.
#[derive(Clone, Copy, Debug, PartialEq, Eq, Structural)]
pub enum PipelineError {
    /// An unrecognized preset, tuning, profile or format, or a refused parameter.
    ConfigError,
    /// The encoder's frame storage could not be obtained.
    AllocationError,
    /// The encoder instance could not be constructed.
    OpenError,
    /// The encoder's plane strides do not match the configured dimensions.
    LayoutError,
    /// An input could not be turned into a frame of the expected layout.
    DecodeError,
    /// The encoder reported a failure, or was driven out of order.
    EncodeError,
    /// Two frames, or a frame and a configuration, differ in dimensions.
    DimensionMismatch,
    /// The quality engine finished with a failure status.
    MetricEngineError,
    /// The quality model resource could not be located.
    ModelUnavailable,
    /// Reading inputs or writing the output failed.
    IoError,
}

} // verus!
