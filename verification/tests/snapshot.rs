use wrover_cam::frame::CaptureError;
use wrover_cam::frame::FrameSource;
use wrover_cam::ov3660::OV3660Config;
use wrover_cam::snapshot::{still_image, StillReply, STATUS_CAPTURE_FAILED, STATUS_OK};
use wrover_cam::startup::{IpAddress, Startup};

fn source() -> FrameSource {
    let address = IpAddress { octets: [10, 0, 0, 7] };
    let online = Startup::new(OV3660Config::balanced()).link_result(Ok(address)).0;
    online.sensor_result(0).1.expect("status 0 is success")
}

#[test]
fn still_image_is_the_frame_as_it_is() {
    let mut source = source();
    let (reply, back) = still_image(source.acquire(Some(vec![0xff, 0xd8, 0xff, 0xd9])));
    assert_eq!(reply, StillReply { status: 200, image: true, body: vec![0xff, 0xd8, 0xff, 0xd9] });
    let frame = back.expect("the frame comes back to be released");
    assert_eq!(frame.id(), 0);
    source.release(frame);
    assert_eq!(source.acquired(), 1);
    assert_eq!(source.released(), 1);
}

#[test]
fn failed_capture_is_told_to_the_client() {
    let mut source = source();
    let (reply, back) = still_image(source.acquire(None));
    assert_eq!(
        reply,
        StillReply { status: 500, image: false, body: b"Camera Capture Failed".to_vec() }
    );
    assert!(back.is_none());
    let (reply, back) = still_image(Err(CaptureError::Unavailable));
    assert_eq!(reply.status, STATUS_CAPTURE_FAILED);
    assert!(back.is_none());
    assert_eq!(STATUS_OK, 200);
    assert_eq!(STATUS_CAPTURE_FAILED, 500);
}
