//! Requests as the proxy sees them: plain snapshots, independent of any HTTP
//! stack.

use vstd::prelude::*;

verus! {

/// One header line: a name and the bytes of its value.
#[derive(Debug, Clone)]
pub struct Header {
    pub name: String,
    pub value: Vec<u8>,
}

/// A header as a pair of sequences.
pub struct HeaderView {
    pub name: Seq<char>,
    pub value: Seq<u8>,
}

impl View for Header {
    type V = HeaderView;

    open spec fn view(&self) -> HeaderView {
        HeaderView { name: self.name@, value: self.value@ }
    }
}

/// The views of a list of headers, in order.
pub open spec fn header_views(headers: Seq<Header>) -> Seq<HeaderView> {
    headers.map_values(|h: Header| h@)
}

/// A caller's request, as received. `query` is empty where the request had
/// no query string.
#[derive(Debug, Clone)]
pub struct InboundRequest {
    pub method: String,
    pub path: String,
    pub query: String,
    pub headers: Vec<Header>,
    pub body: Vec<u8>,
}

/// An inbound request as sequences.
pub struct InboundView {
    pub method: Seq<char>,
    pub path: Seq<char>,
    pub query: Seq<char>,
    pub headers: Seq<HeaderView>,
    pub body: Seq<u8>,
}

impl View for InboundRequest {
    type V = InboundView;

    open spec fn view(&self) -> InboundView {
        InboundView {
            method: self.method@,
            path: self.path@,
            query: self.query@,
            headers: header_views(self.headers@),
            body: self.body@,
        }
    }
}

/// The request to send upstream. `body` is `None` where nothing is to be
/// sent, which is not the same as sending an empty payload.
#[derive(Debug, Clone)]
pub struct OutboundRequest {
    pub method: String,
    pub url: String,
    pub headers: Vec<Header>,
    pub body: Option<Vec<u8>>,
}

/// An outbound request as sequences.
pub struct OutboundView {
    pub method: Seq<char>,
    pub url: Seq<char>,
    pub headers: Seq<HeaderView>,
    pub body: Option<Seq<u8>>,
}

impl View for OutboundRequest {
    type V = OutboundView;

    open spec fn view(&self) -> OutboundView {
        OutboundView {
            method: self.method@,
            url: self.url@,
            headers: header_views(self.headers@),
            body: match self.body {
                Some(b) => Some(b@),
                None => None,
            },
        }
    }
}

impl Header {
    /// A copy of this header.
    pub fn duplicate(&self) -> (copy: Header)
        ensures
            copy@ == self@,
    {
        Header { name: self.name.clone(), value: self.value.clone() }
    }
}

} // verus!
