//! The RTSP server: serves the camera as H.264 over RTP at `rtsp://HOST:PORT/stream`,
//! the pipeline given to the media factory in `gst-launch` syntax.

use vstd::prelude::*;
use crate::cli::{arg, concat3, usage_line, usage_text};
use crate::rtsp::{shared_stream_server, stream_url, stream_url_text, mount_path, MediaSource, RtspServerSpec, ServerView, SourceView};

verus! {

/// The server's command-line arguments: `rtsp-server DEVICE PORT`.
#[derive(Debug)]
pub struct RtspServerArgs {
    pub device: String,
    pub port: String,
}

/// The number of command-line words the server needs, the program name included.
pub const RTSP_SERVER_ARG_COUNT: usize = 3;

/// The launch line of the served media: capture `device` at 30 frames per second,
/// encode with low latency and payload as RTP (payloader `pay0`, payload type 96).
pub open spec fn launch_text(device: Seq<char>) -> Seq<char> {
    "v4l2src device="@ + device
        + " ! videoconvert ! video/x-raw,framerate=30/1 ! x264enc speed-preset=ultrafast tune=zerolatency ! rtph264pay name=pay0 pt=96"@
}

/// Whether a launch line starts with a `v4l2src` reading from `device`, followed by the
/// rest of the chain: `v4l2src device=DEVICE ! ...`.
pub open spec fn launch_names_device(launch: Seq<char>, device: Seq<char>) -> bool {
    &&& launch.len() >= 15 + device.len() as int + 3
    &&& launch.subrange(0, 15) == "v4l2src device="@
    &&& launch.subrange(15, 15 + device.len() as int) == device
    &&& launch.subrange(15 + device.len() as int, 15 + device.len() as int + 3) == " ! "@
}

/// Every launch line reads from the device it was made for.
pub proof fn lemma_launch_names_device(device: Seq<char>)
    ensures
        launch_names_device(launch_text(device), device),
{
    reveal_strlit("v4l2src device=");
    reveal_strlit(" ! ");
    reveal_strlit(" ! videoconvert ! video/x-raw,framerate=30/1 ! x264enc speed-preset=ultrafast tune=zerolatency ! rtph264pay name=pay0 pt=96");
    let pre = "v4l2src device="@;
    let post = " ! videoconvert ! video/x-raw,framerate=30/1 ! x264enc speed-preset=ultrafast tune=zerolatency ! rtph264pay name=pay0 pt=96"@;
    let l = launch_text(device);
    assert(l.subrange(0, 15) =~= pre);
    assert(l.subrange(15, 15 + device.len() as int) =~= device);
    assert(l.subrange(15 + device.len() as int, 15 + device.len() as int + 3) =~= " ! "@);
}

/// The server: listens on `port` and serves the launch line for `device` at `/stream`,
/// shared by all clients.
pub open spec fn rtsp_server(device: Seq<char>, port: Seq<char>) -> ServerView {
    ServerView { service: port, mount_path: mount_path(), source: SourceView::Launch(launch_text(device)), shared: true }
}

/// The launch line of the served media for `device`.
pub fn launch_line(device: &String) -> (s: String)
    ensures
        s@ == launch_text(device@),
{
    concat3(
        "v4l2src device=",
        device.as_str(),
        " ! videoconvert ! video/x-raw,framerate=30/1 ! x264enc speed-preset=ultrafast tune=zerolatency ! rtph264pay name=pay0 pt=96",
    )
}

/// Describes the server for the given camera device and service port.
pub fn server_spec(device: &String, port: &String) -> (r: RtspServerSpec)
    ensures
        r@ == rtsp_server(device@, port@),
        r.service@ == port@,
        r.mount_path@ == "/stream"@,
        r.factory.shared,
        r.factory.source matches MediaSource::Launch(l) && launch_names_device(l@, device@),
{
    proof {
        lemma_launch_names_device(device@);
    }
    shared_stream_server(port, MediaSource::Launch(launch_line(device)))
}

/// Takes the device and port from `rtsp-server DEVICE PORT`; `None` when fewer than two
/// arguments follow the program name. Extra arguments are ignored.
pub fn parse_args(args: &Vec<String>) -> (r: Option<RtspServerArgs>)
    ensures
        r is Some <==> args@.len() >= RTSP_SERVER_ARG_COUNT,
        r matches Some(a) ==> a.device@ == args@[1]@ && a.port@ == args@[2]@,
{
    if args.len() < RTSP_SERVER_ARG_COUNT {
        None
    } else {
        Some(RtspServerArgs { device: arg(args, 1), port: arg(args, 2) })
    }
}

/// The usage line: `Usage: PROGRAM device port`.
pub fn usage(args: &Vec<String>) -> (s: String)
    requires
        args@.len() >= 1,
    ensures
        s@ == usage_text(args@[0]@, "device port"@),
{
    usage_line(args, "device port")
}

/// The line announcing the server once attached: `Stream ready at rtsp://127.0.0.1:PORT/stream`.
pub fn ready_message(bound_port: i32) -> (s: String)
    ensures
        s@ == "Stream ready at "@ + stream_url_text(bound_port as int),
{
    let url = stream_url(bound_port);
    let mut s = String::from_str("Stream ready at ");
    s.append(url.as_str());
    s
}

} // verus!
