//! One camera as its callers see it.
use std::sync::Arc;

use vstd::prelude::*;
use x_variant::Variant;

use crate::command::{CameraCmd, CameraCmdResponse, FormatList};
use crate::error::{explain, result_view, DeviceError, DeviceErrorView};

verus! {

/// How it went to pass a command to the worker of a device and wait for the
/// answer. A string is what the system reported.
pub enum Exchange {
    /// The command could not be sent.
    SendFailed(String),
    /// The command was sent and no answer will come.
    NoAnswer(String),
    /// The worker answered.
    Answered(CameraCmdResponse),
}

impl Exchange {
    /// Whether an answer, if there is one, can answer a command that lists nothing.
    pub open spec fn fits_action(self) -> bool {
        self matches Exchange::Answered(response) ==> !(response is Formats)
    }

    /// Whether an answer, if there is one, can answer a command that lists formats.
    pub open spec fn fits_listing(self) -> bool {
        self matches Exchange::Answered(response) ==> !(response is Done)
    }

    /// Tells whether an answer, if there is one, can answer a command that lists
    /// nothing.
    pub fn can_answer_action(&self) -> (fits: bool)
        ensures
            fits == self.fits_action(),
    {
        !matches!(self, Exchange::Answered(CameraCmdResponse::Formats(_)))
    }

    /// Tells whether an answer, if there is one, can answer a command that lists
    /// formats.
    pub fn can_answer_listing(&self) -> (fits: bool)
        ensures
            fits == self.fits_listing(),
    {
        !matches!(self, Exchange::Answered(CameraCmdResponse::Done))
    }

    /// What the caller learns of a command that lists nothing, given the errors to
    /// report where the worker could not be reached.
    pub open spec fn outcome(self, unsent: DeviceErrorView, unanswered: DeviceErrorView) -> Result<
        (),
        DeviceErrorView,
    > {
        match self {
            Exchange::SendFailed(_) => Err(unsent),
            Exchange::NoAnswer(_) => Err(unanswered),
            Exchange::Answered(CameraCmdResponse::DeviceError(error)) => Err(error@),
            Exchange::Answered(_) => Ok(()),
        }
    }

    /// What the system reported where the worker could not be reached.
    pub open spec fn report(self) -> Seq<char> {
        match self {
            Exchange::SendFailed(report) => report@,
            Exchange::NoAnswer(report) => report@,
            Exchange::Answered(_) => Seq::empty(),
        }
    }
}

/// A camera. `L` is what links it to its worker.
#[derive(Debug)]
pub struct LinuxCameraDevice<L> {
    /// The identifier that the system gave the camera.
    pub id: String,
    /// Whether the device takes itself to be capturing.
    pub running: bool,
    /// The link to the worker.
    pub link: L,
}

impl<L> LinuxCameraDevice<L> {
    /// A device for the camera with an identifier, whose worker is reached over a
    /// link.
    pub fn new(id: &str, link: L) -> (device: Self)
        ensures
            device.id@ == id@,
            !device.running,
            device.link == link,
    {
        LinuxCameraDevice { id: id.to_owned(), running: false, link }
    }

    /// The name of the camera, which is the same for all of them.
    pub fn name(&self) -> (name: &str)
        ensures
            name@ == "TODO"@,
    {
        "TODO"
    }

    /// The identifier of the camera.
    pub fn id(&self) -> (id: &str)
        ensures
            id@ == self.id@,
    {
        self.id.as_str()
    }

    /// Whether the device takes itself to be capturing.
    pub fn running(&self) -> (running: bool)
        ensures
            running == self.running,
    {
        self.running
    }

    /// The command that asks the worker to start capturing.
    pub fn start_command<H: ?Sized>(&self) -> (command: CameraCmd<H>)
        ensures
            command == CameraCmd::<H>::Start,
    {
        CameraCmd::Start
    }

    /// What comes of asking the worker to start capturing.
    pub fn start(&mut self, exchange: Exchange) -> (result: Result<(), DeviceError>)
        requires
            exchange.fits_action(),
        ensures
            *final(self) == *old(self),
            result_view(result) == exchange.outcome(
                DeviceErrorView::StartFailed("Failed to send start command: "@ + exchange.report()),
                DeviceErrorView::StartFailed("No response to command: "@ + exchange.report()),
            ),
    {
        match exchange {
            Exchange::SendFailed(report) => Err(
                DeviceError::StartFailed(
                    explain("Failed to send start command: ", report.as_str()),
                ),
            ),
            Exchange::NoAnswer(report) => Err(
                DeviceError::StartFailed(explain("No response to command: ", report.as_str())),
            ),
            Exchange::Answered(response) => acknowledge(response),
        }
    }

    /// The command that asks the worker to stop capturing.
    pub fn stop_command<H: ?Sized>(&self) -> (command: CameraCmd<H>)
        ensures
            command == CameraCmd::<H>::Stop,
    {
        CameraCmd::Stop
    }

    /// What comes of asking the worker to stop capturing.
    pub fn stop(&mut self, exchange: Exchange) -> (result: Result<(), DeviceError>)
        requires
            exchange.fits_action(),
        ensures
            *final(self) == *old(self),
            result_view(result) == exchange.outcome(
                DeviceErrorView::CloseFailed("Failed to send close command: "@ + exchange.report()),
                DeviceErrorView::StartFailed("No response to command: "@ + exchange.report()),
            ),
    {
        match exchange {
            Exchange::SendFailed(report) => Err(
                DeviceError::CloseFailed(
                    explain("Failed to send close command: ", report.as_str()),
                ),
            ),
            Exchange::NoAnswer(report) => Err(
                DeviceError::StartFailed(explain("No response to command: ", report.as_str())),
            ),
            Exchange::Answered(response) => acknowledge(response),
        }
    }

    /// The command that asks the worker to put options on the stream.
    pub fn configure_command<H: ?Sized>(&self, options: Variant) -> (command: CameraCmd<H>)
        ensures
            command == CameraCmd::<H>::Configure(options),
    {
        CameraCmd::Configure(options)
    }

    /// What comes of asking the worker to configure the stream.
    pub fn configure(&mut self, exchange: Exchange) -> (result: Result<(), DeviceError>)
        requires
            exchange.fits_action(),
        ensures
            *final(self) == *old(self),
            result_view(result) == exchange.outcome(
                DeviceErrorView::SetFailed(
                    "Failed to send configure command: "@ + exchange.report(),
                ),
                DeviceErrorView::SetFailed("No response to command: "@ + exchange.report()),
            ),
    {
        match exchange {
            Exchange::SendFailed(report) => Err(
                DeviceError::SetFailed(
                    explain("Failed to send configure command: ", report.as_str()),
                ),
            ),
            Exchange::NoAnswer(report) => Err(
                DeviceError::SetFailed(explain("No response to command: ", report.as_str())),
            ),
            Exchange::Answered(response) => acknowledge(response),
        }
    }

    /// The command that asks the worker to pass frames to a handler.
    pub fn set_output_handler_command<H: ?Sized>(&self, handler: Arc<H>) -> (command: CameraCmd<H>)
        ensures
            command == CameraCmd::<H>::SetOutputHandler(handler),
    {
        CameraCmd::SetOutputHandler(handler)
    }

    /// What comes of asking the worker to pass frames to another handler.
    pub fn set_output_handler(&mut self, exchange: Exchange) -> (result: Result<(), DeviceError>)
        requires
            exchange.fits_action(),
        ensures
            *final(self) == *old(self),
            result_view(result) == exchange.outcome(
                DeviceErrorView::SetFailed(
                    "Failed to send set output handler command: "@ + exchange.report(),
                ),
                DeviceErrorView::SetFailed("No response to command: "@ + exchange.report()),
            ),
    {
        match exchange {
            Exchange::SendFailed(report) => Err(
                DeviceError::SetFailed(
                    explain("Failed to send set output handler command: ", report.as_str()),
                ),
            ),
            Exchange::NoAnswer(report) => Err(
                DeviceError::SetFailed(explain("No response to command: ", report.as_str())),
            ),
            Exchange::Answered(response) => acknowledge(response),
        }
    }

    /// The command that asks the worker what the camera offers.
    pub fn formats_command<H: ?Sized>(&self) -> (command: CameraCmd<H>)
        ensures
            command == CameraCmd::<H>::GetFormats,
    {
        CameraCmd::GetFormats
    }

    /// What comes of asking the worker what the camera offers.
    pub fn formats(&self, exchange: Exchange) -> (result: Result<FormatList, DeviceError>)
        requires
            exchange.fits_listing(),
        ensures
            result_view(result) == match exchange {
                Exchange::SendFailed(report) => Err(
                    DeviceErrorView::SetFailed("Failed to send configure command: "@ + report@),
                ),
                Exchange::NoAnswer(report) => Err(
                    DeviceErrorView::SetFailed("No response to command: "@ + report@),
                ),
                Exchange::Answered(CameraCmdResponse::Formats(list)) => Ok(list),
                Exchange::Answered(response) => Err(response->DeviceError_0@),
            },
    {
        match exchange {
            Exchange::SendFailed(report) => Err(
                DeviceError::SetFailed(
                    explain("Failed to send configure command: ", report.as_str()),
                ),
            ),
            Exchange::NoAnswer(report) => Err(
                DeviceError::SetFailed(explain("No response to command: ", report.as_str())),
            ),
            Exchange::Answered(CameraCmdResponse::Formats(list)) => Ok(list),
            Exchange::Answered(CameraCmdResponse::DeviceError(error)) => Err(error),
            Exchange::Answered(CameraCmdResponse::Done) => vstd::pervasive::unreached(),
        }
    }

    /// Takes a control action. There is none that a camera acts on.
    pub fn control(&mut self, _action: Variant) -> (result: Result<(), DeviceError>)
        ensures
            *final(self) == *old(self),
            result == Ok::<(), DeviceError>(()),
    {
        Ok(())
    }
}

/// What an answer means to the caller of a command that lists nothing.
fn acknowledge(response: CameraCmdResponse) -> (result: Result<(), DeviceError>)
    requires
        !(response is Formats),
    ensures
        result_view(result) == match response {
            CameraCmdResponse::DeviceError(error) => Err(error@),
            _ => Ok(()),
        },
{
    match response {
        CameraCmdResponse::DeviceError(error) => Err(error),
        _ => Ok(()),
    }
}

} // verus!
