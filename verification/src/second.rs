//! The second function of the deployment, which answers every request with
//! one fixed message.

use vstd::prelude::*;
use crate::http::{Pair, PairModel};

verus! {

/// A complete response: status, headers and body.
#[derive(Clone, Debug, PartialEq, Eq)]
pub struct FixedResponse {
    pub status: u16,
    /// Response headers, in the order in which they are set.
    pub headers: Vec<Pair>,
    pub body: String,
}

/// What a [`FixedResponse`] holds.
pub struct FixedResponseModel {
    pub status: u16,
    pub headers: Seq<PairModel>,
    pub body: Seq<char>,
}

impl View for FixedResponse {
    type V = FixedResponseModel;

    open spec fn view(&self) -> FixedResponseModel {
        FixedResponseModel {
            status: self.status,
            headers: self.headers.deep_view(),
            body: self.body@,
        }
    }
}

/// The response of the second function: status 200, a JSON content type,
/// and the message as a JSON object.
pub open spec fn second_response() -> FixedResponseModel {
    FixedResponseModel {
        status: 200,
        headers: seq![PairModel { name: "content-type"@, value: "application/json"@ }],
        body: "{\"message\": \"Seconda lambda\"}"@,
    }
}

/// Serves the second function. It reads nothing of the request.
pub fn second_handler() -> (response: FixedResponse)
    ensures
        response@ == second_response(),
{
    let mut headers: Vec<Pair> = Vec::new();
    headers.push(Pair::new("content-type", "application/json"));
    let response = FixedResponse {
        status: 200,
        headers,
        body: String::from_str("{\"message\": \"Seconda lambda\"}"),
    };
    proof {
        assert(response@.headers =~= second_response().headers);
    }
    response
}

} // verus!
