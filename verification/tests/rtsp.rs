use rust_vid_streamer::rtsp::{stream_url, MediaSource};
use rust_vid_streamer::text::format_i32;
use rust_vid_streamer::{rtsp_server, rtsp_server_shm};

#[test]
fn decimal_rendering_matches_to_string() {
    for n in [0, 1, 9, 10, 42, 99, 100, 554, 8554, 65535, -1, -10, -8554, i32::MAX, i32::MIN] {
        assert_eq!(format_i32(n), n.to_string());
    }
    for n in (-2000..2000).step_by(7) {
        assert_eq!(format_i32(n), n.to_string());
    }
}

#[test]
fn stream_url_names_port_and_mount() {
    assert_eq!(stream_url(8554), "rtsp://127.0.0.1:8554/stream");
    assert_eq!(stream_url(-1), "rtsp://127.0.0.1:-1/stream");
}

#[test]
fn launch_server_serves_camera() {
    let s = rtsp_server::server_spec(&"/dev/video0".to_string(), &"8554".to_string());
    assert_eq!(s.service, "8554");
    assert_eq!(s.mount_path, "/stream");
    assert!(s.factory.shared);
    match &s.factory.source {
        MediaSource::Launch(l) => assert_eq!(
            l,
            "v4l2src device=/dev/video0 ! videoconvert ! video/x-raw,framerate=30/1 ! x264enc speed-preset=ultrafast tune=zerolatency ! rtph264pay name=pay0 pt=96"
        ),
        MediaSource::SharedMemory(_) => panic!("expected a launch line"),
    }
    assert_eq!(rtsp_server::launch_line(&"/dev/x".to_string()).split(' ').nth(1), Some("device=/dev/x"));
}

#[test]
fn shm_server_serves_factory() {
    let s = rtsp_server_shm::server_spec(&"9000".to_string());
    assert_eq!(s.service, "9000");
    assert_eq!(s.mount_path, "/stream");
    assert!(s.factory.shared);
    match &s.factory.source {
        MediaSource::SharedMemory(f) => {
            let b = f.create_element().unwrap();
            assert_eq!(b.elements[0].factory, "shmsrc");
        }
        MediaSource::Launch(_) => panic!("expected the shared-memory factory"),
    }
}
