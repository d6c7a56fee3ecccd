//! What the two RTSP servers serve: the service (port) they listen on, the mount
//! point of the stream, and the media factory behind it.

use vstd::prelude::*;
use crate::rtsp_server_shm::Factory;
use crate::text::{format_i32, int_decimal};

verus! {

/// Where a mounted media factory gets its stream from.
#[derive(Debug)]
pub enum MediaSource {
    /// A pipeline given in `gst-launch` syntax (`RTSPMediaFactory::set_launch`).
    Launch(String),
    /// The shared-memory factory, which builds its own source bin per client.
    SharedMemory(Factory),
}

/// A media factory mounted on the server.
#[derive(Debug)]
pub struct MediaFactorySpec {
    pub source: MediaSource,
    /// Whether all clients share one media pipeline (`set_shared`).
    pub shared: bool,
}

/// An RTSP server: the service it listens on, and the factory mounted at `mount_path`.
#[derive(Debug)]
pub struct RtspServerSpec {
    pub service: String,
    pub mount_path: String,
    pub factory: MediaFactorySpec,
}

pub enum SourceView {
    Launch(Seq<char>),
    /// The shared-memory factory, by the socket path its bins read from.
    SharedMemory(Seq<char>),
}

pub struct ServerView {
    pub service: Seq<char>,
    pub mount_path: Seq<char>,
    pub source: SourceView,
    pub shared: bool,
}

impl View for RtspServerSpec {
    type V = ServerView;

    open spec fn view(&self) -> ServerView {
        ServerView {
            service: self.service@,
            mount_path: self.mount_path@,
            source: match self.factory.source {
                MediaSource::Launch(l) => SourceView::Launch(l@),
                MediaSource::SharedMemory(f) => SourceView::SharedMemory(f@),
            },
            shared: self.factory.shared,
        }
    }
}

/// The mount point under which both servers publish their stream.
pub open spec fn mount_path() -> Seq<char> {
    "/stream"@
}

/// The address at which a server bound to `bound_port` on the loopback interface
/// serves its stream.
pub open spec fn stream_url_text(bound_port: int) -> Seq<char> {
    "rtsp://127.0.0.1:"@ + int_decimal(bound_port) + mount_path()
}

/// The mount point `/stream`.
pub fn stream_mount_path() -> (s: String)
    ensures
        s@ == mount_path(),
{
    String::from_str("/stream")
}

/// The stream's address: `rtsp://127.0.0.1:BOUND_PORT/stream`.
pub fn stream_url(bound_port: i32) -> (s: String)
    ensures
        s@ == stream_url_text(bound_port as int),
{
    let mut s = String::from_str("rtsp://127.0.0.1:");
    let port = format_i32(bound_port);
    s.append(port.as_str());
    s.append("/stream");
    s
}

/// A server listening on `service` that mounts `source` at `/stream`, shared by all clients.
pub fn shared_stream_server(service: &String, source: MediaSource) -> (r: RtspServerSpec)
    ensures
        r.service@ == service@,
        r.mount_path@ == mount_path(),
        r.factory.source == source,
        r.factory.shared,
{
    RtspServerSpec {
        service: service.clone(),
        mount_path: stream_mount_path(),
        factory: MediaFactorySpec { source, shared: true },
    }
}

} // verus!
