//! Models of the HTTP messages the proxy relays.
//!
//! Methods, paths, header names and values, and bodies are held as raw
//! bytes: the proxy is transparent and never interprets them beyond what
//! relaying requires.

use vstd::prelude::*;

verus! {

/// One HTTP header: a name and a value, both raw bytes.
pub struct Header {
    pub name: Vec<u8>,
    pub value: Vec<u8>,
}

/// Mathematical image of one header.
pub ghost struct HeaderModel {
    pub name: Seq<u8>,
    pub value: Seq<u8>,
}

impl View for Header {
    type V = HeaderModel;

    open spec fn view(&self) -> HeaderModel {
        HeaderModel { name: self.name@, value: self.value@ }
    }
}

/// The headers of a message, in order, with multiplicity kept.
pub open spec fn headers_model(hs: Seq<Header>) -> Seq<HeaderModel> {
    hs.map_values(|h: Header| h@)
}

/// A fully buffered request as decoded on an inbound connection.
pub struct InboundRequest {
    pub method: Vec<u8>,
    pub path_query: Vec<u8>,
    pub headers: Vec<Header>,
    pub body: Vec<u8>,
}

/// Mathematical image of an inbound request.
pub ghost struct RequestModel {
    pub method: Seq<u8>,
    pub path_query: Seq<u8>,
    pub headers: Seq<HeaderModel>,
    pub body: Seq<u8>,
}

impl View for InboundRequest {
    type V = RequestModel;

    open spec fn view(&self) -> RequestModel {
        RequestModel {
            method: self.method@,
            path_query: self.path_query@,
            headers: headers_model(self.headers@),
            body: self.body@,
        }
    }
}

/// The request sent to the upstream target: the inbound request with its
/// authority rewritten to an absolute target URL.
pub struct OutboundRequest {
    pub method: Vec<u8>,
    pub uri: Vec<u8>,
    pub headers: Vec<Header>,
    pub body: Vec<u8>,
}

/// Mathematical image of an outbound request.
pub ghost struct OutboundModel {
    pub method: Seq<u8>,
    pub uri: Seq<u8>,
    pub headers: Seq<HeaderModel>,
    pub body: Seq<u8>,
}

impl View for OutboundRequest {
    type V = OutboundModel;

    open spec fn view(&self) -> OutboundModel {
        OutboundModel {
            method: self.method@,
            uri: self.uri@,
            headers: headers_model(self.headers@),
            body: self.body@,
        }
    }
}

/// A fully buffered response: what the upstream returned, and equally what
/// is written back to the client.
pub struct HttpResponse {
    pub status: u16,
    pub headers: Vec<Header>,
    pub body: Vec<u8>,
}

/// Mathematical image of a response.
pub ghost struct ResponseModel {
    pub status: u16,
    pub headers: Seq<HeaderModel>,
    pub body: Seq<u8>,
}

impl View for HttpResponse {
    type V = ResponseModel;

    open spec fn view(&self) -> ResponseModel {
        ResponseModel {
            status: self.status,
            headers: headers_model(self.headers@),
            body: self.body@,
        }
    }
}

/// Why one request/response cycle failed. Every failure is scoped to its
/// own request: none reaches past the connection it arose on.
#[derive(Clone, Copy, PartialEq, Eq, Structural, Debug)]
pub enum ProxyError {
    /// The upstream base and the inbound path+query do not combine into a
    /// valid URL; the upstream is never contacted.
    InvalidTargetUrl,
    /// The inbound request could not be decoded.
    RequestDecode,
    /// Connect failure, timeout, I/O error, or a malformed response on the
    /// upstream leg.
    UpstreamFailed,
}

} // verus!
