//! What a device and its worker say to each other.
use std::sync::Arc;

use vstd::prelude::*;
use x_variant::Variant;

use crate::error::{DeviceError, DeviceErrorView};
use crate::formats::FrameIntervals;
use crate::variant::{array_dicts, is_array, Numbers};

verus! {

/// A command to the worker of a device. `H` is the handler that frames go to.
pub enum CameraCmd<H: ?Sized> {
    /// Start capturing.
    Start,
    /// Stop capturing.
    Stop,
    /// Leave the worker loop.
    Shutdown,
    /// Pass frames to this handler from the next start on.
    SetOutputHandler(Arc<H>),
    /// Put the settings in this dictionary on the stream.
    Configure(Variant),
    /// List what the camera offers.
    GetFormats,
}

/// What a camera offers.
#[derive(Debug, PartialEq)]
pub struct FormatList {
    /// An array of dictionaries, each with a `format`, a `width` and a `height`.
    pub entries: Variant,
    /// The frame intervals, which every entry shares.
    pub intervals: FrameIntervals,
}

/// The answer of a worker to a command.
#[derive(Debug, PartialEq)]
pub enum CameraCmdResponse {
    /// The command was carried out.
    Done,
    /// The command failed.
    DeviceError(DeviceError),
    /// What the camera offers.
    Formats(FormatList),
}

/// A [`CameraCmdResponse`] with its contents as mathematical values.
pub enum ResponseView {
    Done,
    DeviceError(DeviceErrorView),
    Formats { entries: Seq<Numbers>, intervals: FrameIntervals },
}

impl FormatList {
    /// The entries of a format list stand in an array.
    pub open spec fn wf(self) -> bool {
        is_array(self.entries)
    }
}

impl CameraCmdResponse {
    /// A format list in an answer is a well-formed one.
    pub open spec fn wf(self) -> bool {
        self matches CameraCmdResponse::Formats(list) ==> list.wf()
    }
}

impl View for CameraCmdResponse {
    type V = ResponseView;

    open spec fn view(&self) -> ResponseView {
        match self {
            CameraCmdResponse::Done => ResponseView::Done,
            CameraCmdResponse::DeviceError(error) => ResponseView::DeviceError(error@),
            CameraCmdResponse::Formats(list) => ResponseView::Formats {
                entries: array_dicts(list.entries),
                intervals: list.intervals,
            },
        }
    }
}

/// The views of a row of answers.
pub open spec fn response_views(responses: Seq<CameraCmdResponse>) -> Seq<ResponseView> {
    responses.map_values(|response: CameraCmdResponse| response@)
}

} // verus!
