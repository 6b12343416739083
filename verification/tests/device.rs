use std::sync::Arc;

use linux_camera::command::{CameraCmd, CameraCmdResponse, FormatList};
use linux_camera::device::{Exchange, LinuxCameraDevice};
use linux_camera::error::DeviceError;
use linux_camera::formats::FrameIntervals;
use x_variant::Variant;

fn device() -> LinuxCameraDevice<u8> {
    LinuxCameraDevice::new("camera-1", 7)
}

fn sent() -> Exchange {
    Exchange::SendFailed("SendError".to_string())
}

fn silent() -> Exchange {
    Exchange::NoAnswer("RecvError".to_string())
}

fn done() -> Exchange {
    Exchange::Answered(CameraCmdResponse::Done)
}

fn refused() -> Exchange {
    Exchange::Answered(CameraCmdResponse::DeviceError(refusal()))
}

fn refusal() -> DeviceError {
    DeviceError::NotRunning("Not running".to_string())
}

fn list() -> FormatList {
    FormatList { entries: Variant::new_array(), intervals: FrameIntervals { max: 3, min: 1, default: 2 } }
}

#[test]
fn a_device_knows_its_camera() {
    let device = device();
    assert_eq!(device.id(), "camera-1");
    assert_eq!(device.name(), "TODO");
    assert_eq!(device.link, 7);
    assert!(!device.running());
}

#[test]
fn each_call_has_its_command() {
    let device = device();
    assert!(matches!(device.start_command::<u8>(), CameraCmd::Start));
    assert!(matches!(device.stop_command::<u8>(), CameraCmd::Stop));
    assert!(matches!(device.formats_command::<u8>(), CameraCmd::GetFormats));
    match device.set_output_handler_command(Arc::new(9u8)) {
        CameraCmd::SetOutputHandler(handler) => assert_eq!(*handler, 9),
        _ => panic!("another command"),
    }
    let options: Variant = 5u32.into();
    match device.configure_command::<u8>(options) {
        CameraCmd::Configure(options) => assert_eq!(options.get_uint32(), Some(5)),
        _ => panic!("another command"),
    }
}

#[test]
fn a_start_reports_what_came_of_it() {
    let mut device = device();
    let failed = |message: &str| Err(DeviceError::StartFailed(message.to_string()));
    assert_eq!(device.start(sent()), failed("Failed to send start command: SendError"));
    assert_eq!(device.start(silent()), failed("No response to command: RecvError"));
    assert_eq!(device.start(refused()), Err(refusal()));
    assert_eq!(device.start(done()), Ok(()));
    assert!(!device.running());
}

#[test]
fn a_stop_reports_what_came_of_it() {
    let mut device = device();
    let closed = Err(DeviceError::CloseFailed("Failed to send close command: SendError".to_string()));
    assert_eq!(device.stop(sent()), closed);
    let silence = Err(DeviceError::StartFailed("No response to command: RecvError".to_string()));
    assert_eq!(device.stop(silent()), silence);
    assert_eq!(device.stop(refused()), Err(refusal()));
    assert_eq!(device.stop(done()), Ok(()));
}

#[test]
fn a_configuration_reports_what_came_of_it() {
    let mut device = device();
    let failed = |message: &str| Err(DeviceError::SetFailed(message.to_string()));
    assert_eq!(device.configure(sent()), failed("Failed to send configure command: SendError"));
    assert_eq!(device.configure(silent()), failed("No response to command: RecvError"));
    assert_eq!(device.configure(refused()), Err(refusal()));
    assert_eq!(device.configure(done()), Ok(()));
}

#[test]
fn an_output_handler_reports_what_came_of_it() {
    let mut device = device();
    let failed = |message: &str| Err(DeviceError::SetFailed(message.to_string()));
    assert_eq!(device.set_output_handler(sent()), failed("Failed to send set output handler command: SendError"));
    assert_eq!(device.set_output_handler(silent()), failed("No response to command: RecvError"));
    assert_eq!(device.set_output_handler(refused()), Err(refusal()));
    assert_eq!(device.set_output_handler(done()), Ok(()));
}

#[test]
fn a_listing_reports_what_came_of_it() {
    let device = device();
    let failed = |message: &str| Err(DeviceError::SetFailed(message.to_string()));
    assert_eq!(device.formats(sent()), failed("Failed to send configure command: SendError"));
    assert_eq!(device.formats(silent()), failed("No response to command: RecvError"));
    assert_eq!(device.formats(refused()), Err(refusal()));
    assert_eq!(device.formats(Exchange::Answered(CameraCmdResponse::Formats(list()))), Ok(list()));
}

#[test]
fn a_control_action_does_nothing() {
    let mut device = device();
    assert_eq!(device.control(Variant::None), Ok(()));
    assert_eq!(device.id(), "camera-1");
    assert!(!device.running());
}

#[test]
fn answers_fit_some_commands_alone() {
    let listed = Exchange::Answered(CameraCmdResponse::Formats(list()));
    assert!(!listed.can_answer_action());
    assert!(listed.can_answer_listing());
    assert!(done().can_answer_action());
    assert!(!done().can_answer_listing());
    for exchange in [sent(), silent(), refused()] {
        assert!(exchange.can_answer_action());
        assert!(exchange.can_answer_listing());
    }
}
