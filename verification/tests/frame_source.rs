use wrover_cam::frame::{CaptureError, FrameSource};
use wrover_cam::ov3660::OV3660Config;
use wrover_cam::startup::{IpAddress, Startup};

fn online() -> Startup {
    let address = IpAddress { octets: [10, 0, 0, 7] };
    Startup::new(OV3660Config::balanced()).link_result(Ok(address)).0
}

fn source() -> FrameSource {
    online().sensor_result(0).1.expect("status 0 is success")
}

#[test]
fn handle_carries_the_bytes_and_their_count() {
    let mut source = source();
    let handle = source.acquire(Some(vec![0xff, 0xd8, 0xff, 0xd9])).expect("a frame was ready");
    assert_eq!(handle.id(), 0);
    assert_eq!(handle.len(), 4);
    assert_eq!(handle.data(), &[0xff, 0xd8, 0xff, 0xd9]);
    source.release(handle);
}

#[test]
fn empty_frame_is_a_frame() {
    let mut source = source();
    let handle = source.acquire(Some(Vec::new())).expect("a frame was ready");
    assert_eq!(handle.len(), 0);
    assert!(handle.data().is_empty());
    source.release(handle);
    assert_eq!(source.released(), 1);
}

#[test]
fn no_frame_ready_is_unavailable_and_changes_nothing() {
    let mut source = source();
    assert_eq!(source.acquire(None).err(), Some(CaptureError::Unavailable));
    assert_eq!(source.acquired(), 0);
    assert_eq!(source.released(), 0);
    assert_eq!(source.in_flight(), None);
    let handle = source.acquire(Some(vec![1])).expect("retrying succeeds");
    assert_eq!(handle.id(), 0);
    source.release(handle);
}

#[test]
fn two_acquires_at_once_yield_one_handle() {
    let mut source = source();
    let first = source.acquire(Some(vec![1, 2, 3]));
    let second = source.acquire(Some(vec![4, 5, 6]));
    let first = first.expect("the first claim proceeds");
    assert_eq!(second.err(), Some(CaptureError::Unavailable));
    assert_eq!(source.in_flight(), Some(first.id()));
    assert_eq!(source.acquired(), 1);
    assert_eq!(first.data(), &[1, 2, 3]);
    source.release(first);
    let granted = source.acquire(Some(vec![4, 5, 6])).expect("the grant comes after the release");
    assert_eq!(granted.id(), 1);
    assert_eq!(granted.data(), &[4, 5, 6]);
    source.release(granted);
    assert_eq!(source.acquired(), 2);
    assert_eq!(source.released(), 2);
}

#[test]
fn identities_count_up() {
    let mut source = source();
    for expected in 0..50u64 {
        let handle = source.acquire(Some(vec![expected as u8])).expect("a frame was ready");
        assert_eq!(handle.id(), expected);
        assert_eq!(source.in_flight(), Some(expected));
        assert_eq!(source.acquired(), expected + 1);
        assert_eq!(source.released(), expected);
        source.release(handle);
        assert_eq!(source.in_flight(), None);
        assert_eq!(source.released(), expected + 1);
    }
}

#[test]
fn books_balance_after_every_call() {
    let mut source = source();
    let script = [true, false, true, true, false, false, true];
    for ready in script {
        let grabbed = if ready { Some(vec![9, 9]) } else { None };
        let result = source.acquire(grabbed);
        let out = u64::from(source.in_flight().is_some());
        assert_eq!(source.acquired(), source.released() + out);
        if let Ok(handle) = result {
            source.release(handle);
        }
        assert_eq!(source.acquired(), source.released());
    }
    assert_eq!(source.acquired(), 4);
}

#[test]
fn handle_of_another_source_is_not_counted() {
    let mut here = source();
    let mut there = source();
    let ours = here.acquire(Some(vec![1])).expect("a frame was ready");
    let first = there.acquire(Some(vec![2])).expect("a frame was ready");
    there.release(first);
    let theirs = there.acquire(Some(vec![3])).expect("a frame was ready");
    assert_eq!(theirs.id(), 1);
    here.release(theirs);
    assert_eq!(here.in_flight(), Some(0));
    assert_eq!(here.released(), 0);
    here.release(ours);
    assert_eq!(here.in_flight(), None);
    assert_eq!(here.released(), 1);
}
