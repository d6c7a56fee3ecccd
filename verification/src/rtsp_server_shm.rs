//! The shared-memory RTSP server: one capture pipeline encodes the camera into a
//! shared-memory socket, and each RTSP client is served by a bin that reads from it.

use vstd::prelude::*;
use crate::cli::{arg, concat3, usage_line, usage_text};
use crate::pipeline::{
    bare_element, caps, caps_property, element, linear, linear_container, named_element, plain_element, text,
    text_property, ContainerKind, ElementSpec, ElementView, PipelineSpec, PipelineView, Property,
};
use crate::rtsp::{shared_stream_server, stream_url, stream_url_text, mount_path, MediaSource, RtspServerSpec, ServerView, SourceView};

verus! {

/// The server's command-line arguments: `rtsp-server-shm DEVICE PORT`.
#[derive(Debug)]
pub struct ShmServerArgs {
    pub device: String,
    pub port: String,
}

/// The number of command-line words the server needs, the program name included.
pub const SHM_SERVER_ARG_COUNT: usize = 3;

/// The shared-memory socket between the capture pipeline and the served bins.
pub open spec fn socket_path() -> Seq<char> {
    "/tmp/rust-vid-streamer-shm"@
}

/// The capture pipeline: `v4l2src ! videoconvert ! capsfilter ! x264enc ! shmsink`,
/// capturing `device` at 640x480, encoding with low latency into the shared-memory socket.
pub open spec fn capture_pipeline(device: Seq<char>) -> PipelineView {
    linear(
        ContainerKind::Pipeline,
        None,
        seq![
            plain_element("v4l2src"@, seq![text_property("device"@, device)]),
            plain_element("videoconvert"@, seq![]),
            plain_element("capsfilter"@, seq![caps_property("video/x-raw"@, 640, 480)]),
            plain_element(
                "x264enc"@,
                seq![text_property("speed-preset"@, "ultrafast"@), text_property("tune"@, "zerolatency"@)],
            ),
            plain_element(
                "shmsink"@,
                seq![
                    text_property("socket-path"@, socket_path()),
                    text_property("sync"@, "true"@),
                    text_property("wait-for-connection"@, "false"@),
                ],
            ),
        ],
    )
}

/// The bin serving one client: `shmsrc ! h264parse ! rtph264pay`, reading from `socket`,
/// the payloader named `pay0` as the RTSP server expects.
pub open spec fn source_bin(socket: Seq<char>) -> PipelineView {
    linear(
        ContainerKind::Bin,
        None,
        seq![
            plain_element("shmsrc"@, seq![text_property("socket-path"@, socket)]),
            plain_element("h264parse"@, seq![]),
            ElementView { factory: "rtph264pay"@, name: Some("pay0"@), properties: seq![] },
        ],
    )
}

/// The server: listens on `port` and serves the shared-memory factory at `/stream`,
/// shared by all clients.
pub open spec fn shm_server(port: Seq<char>) -> ServerView {
    ServerView { service: port, mount_path: mount_path(), source: SourceView::SharedMemory(socket_path()), shared: true }
}

/// The media factory of the shared-memory server: it makes the bin that serves a client.
#[derive(Debug)]
pub struct Factory {
    socket_path: String,
}

impl View for Factory {
    /// The socket path the factory's bins read from.
    type V = Seq<char>;

    closed spec fn view(&self) -> Seq<char> {
        self.socket_path@
    }
}

impl Factory {
    /// Every factory reads from the server's shared-memory socket.
    #[verifier::type_invariant]
    closed spec fn reads_server_socket(self) -> bool {
        self.socket_path@ == socket_path()
    }

    /// A factory whose bins read from the server's shared-memory socket.
    pub fn new() -> (f: Factory)
        ensures
            f@ == socket_path(),
    {
        Factory { socket_path: String::from_str("/tmp/rust-vid-streamer-shm") }
    }

    /// The bin that serves one client, reading from the server's shared-memory socket.
    /// It is always made.
    pub fn create_element(&self) -> (r: Option<PipelineSpec>)
        ensures
            r matches Some(b) && b@ == source_bin(self@),
            self@ == socket_path(),
            r matches Some(b) && b@ == source_bin(socket_path()),
    {
        proof {
            use_type_invariant(self);
        }
        let src_props = vec![text("socket-path", self.socket_path.as_str())];
        assert(src_props@.map_values(|q: Property| q@) =~= seq![text_property("socket-path"@, self@)]);
        let src = element("shmsrc", src_props);
        let parse = bare_element("h264parse");
        let pay = named_element("rtph264pay", "pay0", Vec::new());
        let elements = vec![src, parse, pay];
        let ghost expected = source_bin(self@);
        assert(pay@.properties =~= seq![]);
        assert(elements@.map_values(|e: ElementSpec| e@) =~= expected.elements);
        Some(linear_container(ContainerKind::Bin, None, elements))
    }
}

/// Describes the capture pipeline for the given camera device.
pub fn capture_pipeline_spec(device: &String) -> (p: PipelineSpec)
    ensures
        p@ == capture_pipeline(device@),
        p.kind == ContainerKind::Pipeline,
        p@.elements.len() == 5,
        p@.elements[0].factory == "v4l2src"@,
        p@.elements[0].properties == seq![text_property("device"@, device@)],
        p@.elements[4].factory == "shmsink"@,
        p@.elements[4].properties[0] == text_property("socket-path"@, "/tmp/rust-vid-streamer-shm"@),
{
    let src_props = vec![text("device", device.as_str())];
    assert(src_props@.map_values(|q: Property| q@) =~= seq![text_property("device"@, device@)]);
    let src = element("v4l2src", src_props);
    let conv = bare_element("videoconvert");
    let filter_props = vec![caps("video/x-raw", 640, 480)];
    assert(filter_props@.map_values(|q: Property| q@) =~= seq![caps_property("video/x-raw"@, 640, 480)]);
    let filter = element("capsfilter", filter_props);
    let enc_props = vec![text("speed-preset", "ultrafast"), text("tune", "zerolatency")];
    assert(enc_props@.map_values(|q: Property| q@)
        =~= seq![text_property("speed-preset"@, "ultrafast"@), text_property("tune"@, "zerolatency"@)]);
    let enc = element("x264enc", enc_props);
    let sink_props = vec![
        text("socket-path", "/tmp/rust-vid-streamer-shm"),
        text("sync", "true"),
        text("wait-for-connection", "false"),
    ];
    assert(sink_props@.map_values(|q: Property| q@) =~= seq![
        text_property("socket-path"@, socket_path()),
        text_property("sync"@, "true"@),
        text_property("wait-for-connection"@, "false"@),
    ]);
    let sink = element("shmsink", sink_props);
    let elements = vec![src, conv, filter, enc, sink];
    let ghost expected = capture_pipeline(device@);
    assert(elements@.map_values(|e: ElementSpec| e@) =~= expected.elements);
    linear_container(ContainerKind::Pipeline, None, elements)
}

/// Describes the server for the given service port.
pub fn server_spec(port: &String) -> (r: RtspServerSpec)
    ensures
        r@ == shm_server(port@),
        r.service@ == port@,
        r.mount_path@ == "/stream"@,
        r.factory.shared,
        r@.source == SourceView::SharedMemory("/tmp/rust-vid-streamer-shm"@),
{
    shared_stream_server(port, MediaSource::SharedMemory(Factory::new()))
}

/// Takes the device and port from `rtsp-server-shm DEVICE PORT`; `None` when fewer than
/// two arguments follow the program name. Extra arguments are ignored.
pub fn parse_args(args: &Vec<String>) -> (r: Option<ShmServerArgs>)
    ensures
        r is Some <==> args@.len() >= SHM_SERVER_ARG_COUNT,
        r matches Some(a) ==> a.device@ == args@[1]@ && a.port@ == args@[2]@,
{
    if args.len() < SHM_SERVER_ARG_COUNT {
        None
    } else {
        Some(ShmServerArgs { device: arg(args, 1), port: arg(args, 2) })
    }
}

/// The usage line: `Usage: PROGRAM device port`.
pub fn usage(args: &Vec<String>) -> (s: String)
    requires
        args@.len() >= 1,
    ensures
        s@ == usage_text(args@[0]@, "device port"@),
{
    usage_line(args, "device port")
}

/// The line announcing the server once attached:
/// `Streaming DEVICE at rtsp://127.0.0.1:PORT/stream`.
pub fn streaming_message(device: &String, bound_port: i32) -> (s: String)
    ensures
        s@ == "Streaming "@ + device@ + " at "@ + stream_url_text(bound_port as int),
{
    let url = stream_url(bound_port);
    concat3("Streaming ", device.as_str(), " at ").concat(url.as_str())
}

} // verus!
