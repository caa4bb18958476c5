//! Plain descriptions of HTTP traffic: the method of a request, the outbound
//! request a handler wants made, and the class of a status code.

use vstd::prelude::*;

verus! {

/// The method of a request, of those that this service uses.
#[derive(Clone, Copy, Debug, PartialEq, Eq, Structural)]
pub enum Method {
    Get,
    Post,
}

/// The name of `method` as it stands in a request line.
pub open spec fn method_name(method: Method) -> Seq<char> {
    match method {
        Method::Get => "GET"@,
        Method::Post => "POST"@,
    }
}

impl Method {
    /// The name of the method as it stands in a request line.
    pub fn name(&self) -> (name: &'static str)
        ensures
            name@ == method_name(*self),
    {
        match self {
            Method::Get => "GET",
            Method::Post => "POST",
        }
    }
}

/// A named text value: a header, or a field of a form body.
#[derive(Clone, Debug, PartialEq, Eq)]
pub struct Pair {
    pub name: String,
    pub value: String,
}

/// What a [`Pair`] holds.
pub struct PairModel {
    pub name: Seq<char>,
    pub value: Seq<char>,
}

impl View for Pair {
    type V = PairModel;

    open spec fn view(&self) -> PairModel {
        PairModel { name: self.name@, value: self.value@ }
    }
}

impl DeepView for Pair {
    type V = PairModel;

    open spec fn deep_view(&self) -> PairModel {
        self@
    }
}

impl Pair {
    /// The pair `name`, `value`.
    pub fn new(name: &str, value: &str) -> (pair: Pair)
        ensures
            pair@ == (PairModel { name: name@, value: value@ }),
    {
        Pair { name: String::from_str(name), value: String::from_str(value) }
    }
}

/// A request that a handler wants sent to an upstream service. The caller
/// sends it as it stands and hands the outcome back to the handler.
#[derive(Clone, Debug, PartialEq, Eq)]
pub struct OutboundRequest {
    pub method: Method,
    pub url: String,
    /// Request headers, in the order in which they are to be set.
    pub headers: Vec<Pair>,
    /// Fields of a URL-encoded form body; empty where the request has no body.
    pub form: Vec<Pair>,
}

/// What an [`OutboundRequest`] holds.
pub struct OutboundRequestModel {
    pub method: Method,
    pub url: Seq<char>,
    pub headers: Seq<PairModel>,
    pub form: Seq<PairModel>,
}

impl View for OutboundRequest {
    type V = OutboundRequestModel;

    open spec fn view(&self) -> OutboundRequestModel {
        OutboundRequestModel {
            method: self.method,
            url: self.url@,
            headers: self.headers.deep_view(),
            form: self.form.deep_view(),
        }
    }
}

/// Whether `status` is in the success class, 200 to 299.
pub open spec fn success_status(status: u16) -> bool {
    200 <= status < 300
}

/// Whether `status` is in the success class, 200 to 299.
pub fn is_success(status: u16) -> (ok: bool)
    ensures
        ok == success_status(status),
{
    200 <= status && status < 300
}

/// The status of a response that has no body.
pub const NO_CONTENT: u16 = 204;

} // verus!
