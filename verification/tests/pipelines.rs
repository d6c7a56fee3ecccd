use rust_vid_streamer::pipeline::{chain, ContainerKind, PipelineSpec, PropertyValue};
use rust_vid_streamer::receiver;
use rust_vid_streamer::recorder;
use rust_vid_streamer::rtsp_server_shm::{self, Factory};
use rust_vid_streamer::streamer;

fn factories(p: &PipelineSpec) -> Vec<String> {
    p.elements.iter().map(|e| e.factory.clone()).collect()
}

fn text_props(p: &PipelineSpec, i: usize) -> Vec<(String, String)> {
    p.elements[i]
        .properties
        .iter()
        .map(|q| match &q.value {
            PropertyValue::Text(t) => (q.name.clone(), t.clone()),
            PropertyValue::Caps(c) => (q.name.clone(), format!("{}:{}x{}", c.media_type, c.width, c.height)),
        })
        .collect()
}

fn pairs(v: &[(&str, &str)]) -> Vec<(String, String)> {
    v.iter().map(|(a, b)| (a.to_string(), b.to_string())).collect()
}

#[test]
fn chain_links_each_element_to_the_next() {
    assert_eq!(chain(0), vec![]);
    assert_eq!(chain(1), vec![]);
    assert_eq!(chain(2), vec![(0, 1)]);
    assert_eq!(chain(5), vec![(0, 1), (1, 2), (2, 3), (3, 4)]);
}

#[test]
fn streamer_pipeline_sends_camera_to_host() {
    let p = streamer::create_pipeline(&"/dev/video0".to_string(), &"192.168.1.20".to_string(), &"5000".to_string());
    assert_eq!(p.kind, ContainerKind::Pipeline);
    assert_eq!(p.name.as_deref(), Some("basic streamer"));
    assert_eq!(factories(&p), vec!["v4l2src", "videoconvert", "x264enc", "rtph264pay", "udpsink"]);
    assert_eq!(text_props(&p, 0), pairs(&[("device", "/dev/video0")]));
    assert!(text_props(&p, 1).is_empty());
    assert!(text_props(&p, 2).is_empty());
    assert!(text_props(&p, 3).is_empty());
    assert_eq!(text_props(&p, 4), pairs(&[("host", "192.168.1.20"), ("port", "5000")]));
    assert_eq!(p.links, vec![(0, 1), (1, 2), (2, 3), (3, 4)]);
    assert!(p.elements.iter().all(|e| e.name.is_none()));
}

#[test]
fn receiver_pipeline_listens_on_port() {
    let p = receiver::create_pipeline(&"5000".to_string());
    assert_eq!(p.name.as_deref(), Some("basic stream receiver"));
    assert_eq!(factories(&p), vec!["udpsrc", "rtph264depay", "decodebin", "videoconvert", "autovideosink"]);
    assert_eq!(
        text_props(&p, 0),
        pairs(&[
            ("port", "5000"),
            ("caps", "application/x-rtp, media=(string)video, clock-rate=(int)90000, encoding-name=(string)H264, payload=(int)96"),
        ])
    );
    assert_eq!(p.links, vec![(0, 1), (1, 2), (2, 3), (3, 4)]);
}

#[test]
fn receiver_hears_streamer_on_same_port() {
    let port = "6100".to_string();
    let s = streamer::create_pipeline(&"/dev/video1".to_string(), &"10.0.0.2".to_string(), &port);
    let r = receiver::create_pipeline(&port);
    assert_eq!(text_props(&s, 4)[1], text_props(&r, 0)[0]);
    assert_eq!(s.elements[3].factory, "rtph264pay");
    assert_eq!(r.elements[1].factory, "rtph264depay");
}

#[test]
fn recorder_pipeline_writes_mp4() {
    let r = recorder::create_pipeline(&"/dev/video2".to_string());
    let p = r.expect("the recorder's pipeline is always described");
    assert_eq!(p.name, None);
    assert_eq!(
        factories(&p),
        vec!["v4l2src", "videoscale", "capsfilter", "videoconvert", "queue", "x264enc", "mp4mux", "filesink"]
    );
    assert_eq!(text_props(&p, 0), pairs(&[("device", "/dev/video2")]));
    assert_eq!(text_props(&p, 2), pairs(&[("caps", "video/x-raw:1920x1080")]));
    assert_eq!(text_props(&p, 6), pairs(&[("moov-recovery-file", "recording.atom")]));
    assert_eq!(text_props(&p, 7), pairs(&[("location", "recording.mp4")]));
    assert_eq!(p.links, (0..7).map(|i| (i, i + 1)).collect::<Vec<_>>());
}

#[test]
fn shm_capture_pipeline_feeds_socket() {
    let p = rtsp_server_shm::capture_pipeline_spec(&"/dev/video0".to_string());
    assert_eq!(p.name, None);
    assert_eq!(factories(&p), vec!["v4l2src", "videoconvert", "capsfilter", "x264enc", "shmsink"]);
    assert_eq!(text_props(&p, 2), pairs(&[("caps", "video/x-raw:640x480")]));
    assert_eq!(text_props(&p, 3), pairs(&[("speed-preset", "ultrafast"), ("tune", "zerolatency")]));
    assert_eq!(
        text_props(&p, 4),
        pairs(&[("socket-path", "/tmp/rust-vid-streamer-shm"), ("sync", "true"), ("wait-for-connection", "false")])
    );
    assert_eq!(p.links, vec![(0, 1), (1, 2), (2, 3), (3, 4)]);
}

#[test]
fn shm_factory_bin_reads_socket() {
    let f = Factory::new();
    let b = f.create_element().expect("the factory always makes its bin");
    assert_eq!(b.kind, ContainerKind::Bin);
    assert_eq!(factories(&b), vec!["shmsrc", "h264parse", "rtph264pay"]);
    assert_eq!(text_props(&b, 0), pairs(&[("socket-path", "/tmp/rust-vid-streamer-shm")]));
    assert_eq!(b.elements[2].name.as_deref(), Some("pay0"));
    assert_eq!(b.elements[0].name, None);
    assert_eq!(b.links, vec![(0, 1), (1, 2)]);
    let capture = rtsp_server_shm::capture_pipeline_spec(&"/dev/video0".to_string());
    assert_eq!(text_props(&capture, 4)[0], text_props(&b, 0)[0]);
}
