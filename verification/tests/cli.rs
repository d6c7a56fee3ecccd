use rust_vid_streamer::{receiver, recorder, rtsp_server, rtsp_server_shm, streamer};

fn words(v: &[&str]) -> Vec<String> {
    v.iter().map(|s| s.to_string()).collect()
}

#[test]
fn streamer_needs_device_ip_and_port() {
    assert!(streamer::parse_args(&words(&["streamer"])).is_none());
    assert!(streamer::parse_args(&words(&["streamer", "/dev/video0", "10.0.0.1"])).is_none());
    let a = streamer::parse_args(&words(&["streamer", "/dev/video0", "10.0.0.1", "5000", "extra"])).unwrap();
    assert_eq!(a.device, "/dev/video0");
    assert_eq!(a.ip, "10.0.0.1");
    assert_eq!(a.port, "5000");
    assert_eq!(streamer::usage(&words(&["./streamer"])), "Usage: ./streamer device ipv4 port");
}

#[test]
fn receiver_needs_port() {
    assert!(receiver::parse_args(&words(&["receiver"])).is_none());
    assert_eq!(receiver::parse_args(&words(&["receiver", "5000"])).unwrap().port, "5000");
    assert_eq!(receiver::usage(&words(&["receiver"])), "Usage: receiver port");
}

#[test]
fn recorder_needs_device() {
    assert!(recorder::parse_args(&words(&["recorder"])).is_none());
    assert_eq!(recorder::parse_args(&words(&["recorder", "/dev/video0"])).unwrap().device, "/dev/video0");
    assert_eq!(recorder::usage(&words(&["recorder"])), "Usage: recorder device");
}

#[test]
fn servers_need_device_and_port() {
    assert!(rtsp_server::parse_args(&words(&["rtsp-server", "/dev/video0"])).is_none());
    let a = rtsp_server::parse_args(&words(&["rtsp-server", "/dev/video0", "8554"])).unwrap();
    assert_eq!((a.device.as_str(), a.port.as_str()), ("/dev/video0", "8554"));
    assert_eq!(rtsp_server::usage(&words(&["rtsp-server"])), "Usage: rtsp-server device port");
    assert!(rtsp_server_shm::parse_args(&words(&["rtsp-server-shm"])).is_none());
    let b = rtsp_server_shm::parse_args(&words(&["rtsp-server-shm", "/dev/video3", "9000"])).unwrap();
    assert_eq!((b.device.as_str(), b.port.as_str()), ("/dev/video3", "9000"));
    assert_eq!(rtsp_server_shm::usage(&words(&["x"])), "Usage: x device port");
}

#[test]
fn announcements() {
    assert_eq!(
        streamer::streaming_message(&"/dev/video0".to_string(), &"10.0.0.1".to_string(), &"5000".to_string()),
        "Streaming /dev/video0 to 10.0.0.1:5000..."
    );
    assert_eq!(receiver::listening_message(&"5000".to_string()), "Listening to stream at port 5000...");
    assert_eq!(
        recorder::recording_message(&"/dev/video0".to_string()),
        "Recording from /dev/video0... (Use Ctrl-C to end recording)"
    );
    assert_eq!(rtsp_server::ready_message(8554), "Stream ready at rtsp://127.0.0.1:8554/stream");
    assert_eq!(
        rtsp_server_shm::streaming_message(&"/dev/video0".to_string(), 8554),
        "Streaming /dev/video0 at rtsp://127.0.0.1:8554/stream"
    );
}
