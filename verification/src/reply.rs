//! The HTTP shape of every answer the two endpoints give: a redirect that
//! preserves method and body for a successful start, a plain 200 for a
//! successful callback and for the health endpoint, and a 500 whose body is
//! the failure's fixed message for everything else.

use vstd::prelude::*;
use vstd::string::StringExecFns;
use crate::error::{message_spec, FlowError};

verus! {

/// A response as the front door sends it: a status code, an optional
/// `Location` header, and a plain-text body.
#[derive(Clone, Debug)]
pub struct HttpReply {
    pub status: u16,
    pub location: Option<String>,
    pub body: String,
}

/// How the start endpoint answers: a 307 redirect to the authorization URL
/// with an empty body, or a 500 carrying the failure's message.
pub fn reply_for_start(outcome: Result<String, FlowError>) -> (r: HttpReply)
    ensures
        match outcome {
            Ok(url) => r.status == 307 && (r.location matches Some(l) && l@ == url@) && r.body@
                == Seq::<char>::empty(),
            Err(e) => r.status == 500 && r.location is None && r.body@ == message_spec(e),
        },
{
    match outcome {
        Ok(url) => HttpReply { status: 307, location: Some(url), body: String::new() },
        Err(e) => HttpReply { status: 500, location: None, body: e.message() },
    }
}

/// How the callback endpoint answers: a 200 whose body is the signed-in
/// user's display name, or a 500 carrying the failure's message.
pub fn reply_for_callback(outcome: Result<String, FlowError>) -> (r: HttpReply)
    ensures
        match outcome {
            Ok(name) => r.status == 200 && r.location is None && r.body@ == name@,
            Err(e) => r.status == 500 && r.location is None && r.body@ == message_spec(e),
        },
{
    match outcome {
        Ok(name) => HttpReply { status: 200, location: None, body: name },
        Err(e) => HttpReply { status: 500, location: None, body: e.message() },
    }
}

/// How the health endpoint answers, unconditionally.
pub fn index_reply() -> (r: HttpReply)
    ensures
        r.status == 200,
        r.location is None,
        r.body@ == "Hello world!"@,
{
    HttpReply { status: 200, location: None, body: String::from_str("Hello world!") }
}

} // verus!
