//! Answering a request for one still image.

use crate::frame::{CaptureError, FrameHandle};
use crate::encoder::append_bytes;
use vstd::prelude::*;
use vstd::string::*;

verus! {

/// The status of the answer that carries an image.
pub const STATUS_OK: u16 = 200;

/// The status of the answer to a request that found the sensor without a
/// frame.
pub const STATUS_CAPTURE_FAILED: u16 = 500;

/// What a client that asked for one still image is answered.
#[derive(Debug, PartialEq, Eq)]
pub struct StillReply {
    pub status: u16,
    /// Whether the body is an image, to be sent as `image/jpeg`.
    pub image: bool,
    pub body: Vec<u8>,
}

/// The words sent in place of an image that could not be captured.
pub open spec fn capture_failed_body() -> Seq<u8> {
    "Camera Capture Failed".spec_bytes()
}

/// Answers a request for one still image, given what the frame source said
/// to the acquire. A frame is answered with status 200 and its bytes; a
/// failed capture is told to the client, with status 500. The frame comes
/// back beside the answer: it is to be released once the answer has been
/// written, whether or not the write went through.
pub fn still_image(acquired: Result<FrameHandle, CaptureError>) -> (answer: (
    StillReply,
    Option<FrameHandle>,
))
    ensures
        match acquired {
            Ok(frame) => {
                &&& answer.0.status == STATUS_OK
                &&& answer.0.image
                &&& answer.0.body@ == frame@.data
                &&& answer.1 == Some(frame)
            },
            Err(_) => {
                &&& answer.0.status == STATUS_CAPTURE_FAILED
                &&& !answer.0.image
                &&& answer.0.body@ == capture_failed_body()
                &&& answer.1 is None
            },
        },
{
    let mut body: Vec<u8> = Vec::new();
    match acquired {
        Ok(frame) => {
            append_bytes(&mut body, frame.data());
            (StillReply { status: STATUS_OK, image: true, body }, Some(frame))
        },
        Err(_) => {
            append_bytes(&mut body, "Camera Capture Failed".as_bytes());
            (StillReply { status: STATUS_CAPTURE_FAILED, image: false, body }, None)
        },
    }
}

} // verus!
