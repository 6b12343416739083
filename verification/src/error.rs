//! Errors that a camera device reports.
use vstd::prelude::*;
use vstd::string::StringExecFns;

verus! {

/// What went wrong, with a message for the caller.
#[derive(Debug, PartialEq, Eq)]
pub enum DeviceError {
    /// The device manager could not be opened.
    OpenFailed(String),
    /// The device could not be reached in order to close it.
    CloseFailed(String),
    /// Capture could not be started.
    StartFailed(String),
    /// Capture could not be stopped.
    StopFailed(String),
    /// A property of the device could not be read.
    GetFailed(String),
    /// A property of the device could not be set.
    SetFailed(String),
    /// The device is not capturing.
    NotRunning(String),
}

/// A [`DeviceError`] with its message as a sequence of characters.
pub enum DeviceErrorView {
    OpenFailed(Seq<char>),
    CloseFailed(Seq<char>),
    StartFailed(Seq<char>),
    StopFailed(Seq<char>),
    GetFailed(Seq<char>),
    SetFailed(Seq<char>),
    NotRunning(Seq<char>),
}

impl View for DeviceError {
    type V = DeviceErrorView;

    open spec fn view(&self) -> DeviceErrorView {
        match self {
            DeviceError::OpenFailed(message) => DeviceErrorView::OpenFailed(message@),
            DeviceError::CloseFailed(message) => DeviceErrorView::CloseFailed(message@),
            DeviceError::StartFailed(message) => DeviceErrorView::StartFailed(message@),
            DeviceError::StopFailed(message) => DeviceErrorView::StopFailed(message@),
            DeviceError::GetFailed(message) => DeviceErrorView::GetFailed(message@),
            DeviceError::SetFailed(message) => DeviceErrorView::SetFailed(message@),
            DeviceError::NotRunning(message) => DeviceErrorView::NotRunning(message@),
        }
    }
}

/// A result with its error taken by its view.
pub open spec fn result_view<T>(result: Result<T, DeviceError>) -> Result<T, DeviceErrorView> {
    match result {
        Ok(value) => Ok(value),
        Err(error) => Err(error@),
    }
}

/// Puts an explanation in front of what the system reported.
pub(crate) fn explain(explanation: &str, report: &str) -> (message: String)
    ensures
        message@ == explanation@ + report@,
{
    explanation.to_owned().concat(report)
}

} // verus!
