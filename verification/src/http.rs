//! The replies that the HTTP layer sends, as plain values.

use vstd::prelude::*;

verus! {

/// What an [`HttpReply`] holds.
pub struct HttpReplyView {
    pub status: u16,
    pub body: Seq<char>,
    pub location: Option<Seq<char>>,
}

/// A reply to an HTTP request: the status code, the body, and the target
/// of the redirect where the reply is one.
#[derive(Debug, Clone)]
pub struct HttpReply {
    pub status: u16,
    pub body: String,
    pub location: Option<String>,
}

impl View for HttpReply {
    type V = HttpReplyView;

    open spec fn view(&self) -> HttpReplyView {
        HttpReplyView {
            status: self.status,
            body: self.body@,
            location: match self.location {
                Some(url) => Some(url@),
                None => None,
            },
        }
    }
}

/// A reply with a status and a short text, and no redirect.
pub open spec fn plain_reply(status: u16, body: Seq<char>) -> HttpReplyView {
    HttpReplyView { status, body, location: None }
}

/// The redirect to `url`: status 302 and an empty body.
pub open spec fn redirect_reply(url: Seq<char>) -> HttpReplyView {
    HttpReplyView { status: 302, body: Seq::empty(), location: Some(url) }
}

/// The reply of the liveness probe.
pub open spec fn health_reply() -> HttpReplyView {
    plain_reply(200, "OK"@)
}

impl HttpReply {
    /// A reply with a status and a short text.
    pub fn plain(status: u16, body: &str) -> (reply: HttpReply)
        ensures
            reply@ == plain_reply(status, body@),
    {
        HttpReply { status, body: body.to_owned(), location: None }
    }

    /// The redirect to `url`.
    pub fn redirect(url: &str) -> (reply: HttpReply)
        ensures
            reply@ == redirect_reply(url@),
    {
        HttpReply { status: 302, body: String::new(), location: Some(url.to_owned()) }
    }
}

/// The liveness probe. It takes no state and checks no dependency, so
/// its reply is the same whatever the token store and the notifier hold.
pub fn health_check() -> (reply: HttpReply)
    ensures
        reply@ == health_reply(),
        reply@.status == 200,
{
    HttpReply::plain(200, "OK")
}

} // verus!
