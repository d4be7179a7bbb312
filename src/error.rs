//! Errors of device resolution and graph construction.
use vstd::prelude::*;
use vstd::string::*;

verus! {

#[derive(Debug, Clone)]
pub enum GStreamerError {
    /// The graph cannot be built: unsupported request or engine failure.
    PipelineError(String),
    /// No device or screen matches the identifier.
    DeviceError(String),
}

impl GStreamerError {
    pub open spec fn is_pipeline_error(&self) -> bool {
        self is PipelineError
    }

    pub open spec fn is_device_error(&self) -> bool {
        self is DeviceError
    }

    /// The message carried by the error.
    pub fn message(&self) -> (r: String)
        ensures
            r@ == match self {
                GStreamerError::PipelineError(m) => m@,
                GStreamerError::DeviceError(m) => m@,
            },
    {
        match self {
            GStreamerError::PipelineError(m) => m.clone(),
            GStreamerError::DeviceError(m) => m.clone(),
        }
    }
}

pub fn device_error(msg: &str) -> (e: GStreamerError)
    ensures
        e.is_device_error(),
        e->DeviceError_0@ == msg@,
{
    GStreamerError::DeviceError(String::from_str(msg))
}

pub fn pipeline_error(msg: &str) -> (e: GStreamerError)
    ensures
        e.is_pipeline_error(),
        e->PipelineError_0@ == msg@,
{
    GStreamerError::PipelineError(String::from_str(msg))
}

} // verus!
