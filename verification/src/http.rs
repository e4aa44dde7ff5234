//! A plain model of one outbound HTTP request.
//!
//! The verified pipeline builds values of [`HttpRequest`]; a transport
//! driver translates them into whatever its HTTP library wants.

use vstd::prelude::*;

verus! {

/// The request methods the client issues.
#[derive(Clone, Copy, Debug, PartialEq, Eq, Structural)]
pub enum Method {
    Get,
    Post,
    Put,
    Delete,
    Patch,
}

/// One HTTP header: a name and a raw value.
pub struct Header {
    pub name: String,
    pub value: Vec<u8>,
}

/// The mathematical image of a [`Header`].
#[verifier::ext_equal]
pub struct HeaderView {
    pub name: Seq<char>,
    pub value: Seq<u8>,
}

impl View for Header {
    type V = HeaderView;

    open spec fn view(&self) -> HeaderView {
        HeaderView { name: self.name@, value: self.value@ }
    }
}

/// A complete outbound request: method, absolute URL, header set and an
/// optional body.
pub struct HttpRequest {
    pub method: Method,
    pub url: String,
    pub headers: Vec<Header>,
    pub body: Option<Vec<u8>>,
}

/// The mathematical image of an [`HttpRequest`].
#[verifier::ext_equal]
pub struct HttpRequestView {
    pub method: Method,
    pub url: Seq<char>,
    pub headers: Seq<HeaderView>,
    pub body: Option<Seq<u8>>,
}

impl View for HttpRequest {
    type V = HttpRequestView;

    open spec fn view(&self) -> HttpRequestView {
        HttpRequestView {
            method: self.method,
            url: self.url@,
            headers: self.headers@.map_values(|h: Header| h@),
            body: match self.body {
                Option::Some(b) => Option::Some(b@),
                Option::None => Option::None,
            },
        }
    }
}

} // verus!
