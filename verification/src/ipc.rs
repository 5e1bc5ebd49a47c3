use vstd::prelude::*;
use vstd::string::StringExecFns;
use vstd::slice::slice_to_vec;

verus! {

/// One request to a plugin: it travels alone over a fresh connection to the
/// plugin's socket.
#[derive(Debug, PartialEq, Eq)]
pub struct RequestFrame {
    pub method: String,
    pub uri: String,
    pub body: Vec<u8>,
}

pub struct RequestFrameView {
    pub method: Seq<char>,
    pub uri: Seq<char>,
    pub body: Seq<u8>,
}

impl View for RequestFrame {
    type V = RequestFrameView;

    open spec fn view(&self) -> RequestFrameView {
        RequestFrameView { method: self.method@, uri: self.uri@, body: self.body@ }
    }
}

/// The one response that answers a request, read to its end.
#[derive(Debug, PartialEq, Eq)]
pub struct ResponseFrame {
    pub status: u16,
    pub body: Vec<u8>,
}

pub struct ResponseFrameView {
    pub status: u16,
    pub body: Seq<u8>,
}

impl View for ResponseFrame {
    type V = ResponseFrameView;

    open spec fn view(&self) -> ResponseFrameView {
        ResponseFrameView { status: self.status, body: self.body@ }
    }
}

impl ResponseFrame {
    /// The response with this status and with exactly these bytes as its
    /// body, whatever they are.
    pub fn from_parts(status: u16, body: &[u8]) -> (response: Self)
        ensures
            response@ == (ResponseFrameView { status, body: body@ }),
    {
        ResponseFrame { status, body: slice_to_vec(body) }
    }
}

/// Why a call to a plugin brought no response.
#[derive(Debug, Clone, Copy, PartialEq, Eq, Structural)]
pub enum IpcError {
    /// Nothing listens on the socket, or it refused the connection. This is
    /// expected for a while after a plugin has been restarted.
    Connect,
    /// The connection was made and broke before the response was complete.
    Exchange,
}

/// The request of a handshake.
pub open spec fn manifest_request_view() -> RequestFrameView {
    RequestFrameView { method: "GET"@, uri: "/manifest"@, body: Seq::empty() }
}

/// The request that asks a plugin for its manifest.
pub fn manifest_request() -> (request: RequestFrame)
    ensures
        request@ == manifest_request_view(),
{
    RequestFrame {
        method: String::from_str("GET"),
        uri: String::from_str("/manifest"),
        body: Vec::new(),
    }
}

} // verus!
