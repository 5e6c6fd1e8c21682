//! The answer to a handshake: the upgrade that `ws` builds for a request, and the
//! refusal that a connection without a role gets in its place.

use crate::role::Role;
use vstd::prelude::*;
use vstd::string::StringExecFns;
use vstd::utf8::encode_utf8;

verus! {

/// The handshake request of `ws`, carried through unread.
#[verifier::external_type_specification]
#[verifier::external_body]
pub struct ExRequest(ws::Request);

/// The error of `ws`, carried through unread.
#[verifier::external_type_specification]
#[verifier::external_body]
pub struct ExError(ws::Error);

/// The status of the answer to a path that nothing serves.
pub const NOT_FOUND_STATUS: u16 = 404;

/// The reason phrase of the answer to a path that nothing serves.
pub const NOT_FOUND_REASON: &'static str = "Not Found";

/// The status of the answer to a request on a served path that cannot be
/// upgraded.
pub const BAD_REQUEST_STATUS: u16 = 400;

/// The reason phrase of the answer to a request on a served path that cannot be
/// upgraded.
pub const BAD_REQUEST_REASON: &'static str = "Bad Request";

/// A handshake response: status line, headers in order, body.
#[derive(Clone, Debug, PartialEq, Eq)]
pub struct Response {
    pub status: u16,
    pub reason: String,
    pub headers: Vec<(String, Vec<u8>)>,
    pub body: Vec<u8>,
}

/// What a response holds.
pub struct ResponseView {
    pub status: u16,
    pub reason: Seq<char>,
    pub headers: Seq<(Seq<char>, Seq<u8>)>,
    pub body: Seq<u8>,
}

impl View for Response {
    type V = ResponseView;

    open spec fn view(&self) -> ResponseView {
        ResponseView {
            status: self.status,
            reason: self.reason@,
            headers: self.headers@.map_values(|h: (String, Vec<u8>)| (h.0@, h.1@)),
            body: self.body@,
        }
    }
}

/// The error in the signature of the handshake handlers, which have the shape
/// of the transport's own. Every request is answered, so no handler returns it.
#[derive(Debug)]
pub enum HandshakeError {
    /// `ws` could not build the upgrade for the request; it says why.
    Upgrade(ws::Error),
}

impl HandshakeError {
    /// The error of `ws` behind this one.
    pub fn into_cause(self) -> (cause: ws::Error)
        ensures
            self == HandshakeError::Upgrade(cause),
    {
        match self {
            HandshakeError::Upgrade(cause) => cause,
        }
    }
}

/// Whether `res` is an upgrade as `ws` builds it: `101 Switching Protocols`, the
/// three upgrade headers in their order, no body. The accept token is left open.
pub open spec fn is_upgrade(res: ResponseView) -> bool {
    &&& res.status == 101
    &&& res.reason == "Switching Protocols"@
    &&& res.headers.len() == 3
    &&& res.headers[0] == ("Connection"@, encode_utf8("Upgrade"@))
    &&& res.headers[1].0 == "Sec-WebSocket-Accept"@
    &&& res.headers[2] == ("Upgrade"@, encode_utf8("websocket"@))
    &&& res.body.len() == 0
}

/// A response that is a status line and nothing more.
pub open spec fn bare(status: u16, reason: Seq<char>) -> ResponseView {
    ResponseView { status, reason, headers: Seq::empty(), body: Seq::empty() }
}

/// What a connection with the role `role` answers, given the upgrade that was
/// built for its request, if one was.
///
/// A receiver and a sender answer with the upgrade, and with a bare
/// `400 Bad Request` where there is none. A connection without a role answers
/// `404 Not Found` either way: on the upgrade's headers where there is one, bare
/// where there is none.
pub open spec fn reply_of(role: Role, upgraded: Option<ResponseView>) -> ResponseView {
    match upgraded {
        Some(up) => if role is NotFound {
            ResponseView { status: NOT_FOUND_STATUS, reason: NOT_FOUND_REASON@, ..up }
        } else {
            up
        },
        None => if role is NotFound {
            bare(NOT_FOUND_STATUS, NOT_FOUND_REASON@)
        } else {
            bare(BAD_REQUEST_STATUS, BAD_REQUEST_REASON@)
        },
    }
}

/// What `ws` built, as far as the answer goes: the upgrade, or none.
pub open spec fn built(upgraded: Result<Response, ws::Error>) -> Option<ResponseView> {
    match upgraded {
        Ok(up) => Some(up@),
        Err(_) => None,
    }
}

/// The path that the request `req` asks for.
pub uninterp spec fn resource_of(req: ws::Request) -> Seq<char>;

/// The upgrade that `ws` builds for the request `req`, or `None` where it
/// builds none.
pub uninterp spec fn upgrade_of(req: ws::Request) -> Option<ResponseView>;

/// `ws::Request::resource`: the path that the request asks for.
///
/// Trusted: the path depends on the request alone.
#[verifier::external_body]
pub(crate) fn requested_resource(req: &ws::Request) -> (path: String)
    ensures
        path@ == resource_of(*req),
{
    req.resource().to_string()
}

/// `ws::Response::from_request`: the upgrade response for a request, or the
/// error of `ws` where the request has no key to answer.
///
/// Trusted: whether a response is built, and which, depends on the request
/// alone. A response that is built has status 101, the reason
/// "Switching Protocols", the headers `Connection: Upgrade`,
/// `Sec-WebSocket-Accept` and `Upgrade: websocket` in this order, and no body.
#[verifier::external_body]
pub(crate) fn upgrade(req: &ws::Request) -> (r: Result<Response, ws::Error>)
    ensures
        match r {
            Ok(res) => upgrade_of(*req) == Some(res@) && is_upgrade(res@),
            Err(_) => upgrade_of(*req) is None,
        },
{
    let res = ws::Response::from_request(req)?;
    Ok(
        Response {
            status: res.status(),
            reason: res.reason().to_string(),
            headers: res.headers().clone(),
            body: res.body().to_vec(),
        },
    )
}

impl Response {
    /// A response that is a status line and nothing more.
    pub fn bare(status: u16, reason: &str) -> (res: Response)
        ensures
            res@ == bare(status, reason@),
    {
        let res = Response {
            status,
            reason: String::from_str(reason),
            headers: Vec::new(),
            body: Vec::new(),
        };
        assert(res@.headers =~= Seq::empty());
        res
    }

    /// Replaces the status code.
    pub fn set_status(&mut self, status: u16)
        ensures
            final(self)@ == (ResponseView { status, ..old(self)@ }),
    {
        self.status = status;
    }

    /// Replaces the reason phrase.
    pub fn set_reason(&mut self, reason: &str)
        ensures
            final(self)@ == (ResponseView { reason: reason@, ..old(self)@ }),
    {
        self.reason = String::from_str(reason);
    }
}

impl Role {
    /// The answer of a connection with this role, from what `ws` built for its
    /// request. There always is one: a receiver and a sender pass the upgrade on,
    /// and answer `400 Bad Request` where `ws` built none; a connection without a
    /// role answers `404 Not Found` whatever `ws` built.
    pub fn answer(&self, upgraded: Result<Response, ws::Error>) -> (r: Result<
        Response,
        HandshakeError,
    >)
        ensures
            r matches Ok(res) && res@ == reply_of(*self, built(upgraded)),
    {
        match upgraded {
            Ok(up) => {
                let mut res = up;
                match self {
                    Role::NotFound => {
                        res.set_status(NOT_FOUND_STATUS);
                        res.set_reason(NOT_FOUND_REASON);
                    },
                    _ => {},
                }
                Ok(res)
            },
            Err(_) => match self {
                Role::NotFound => Ok(Response::bare(NOT_FOUND_STATUS, NOT_FOUND_REASON)),
                _ => Ok(Response::bare(BAD_REQUEST_STATUS, BAD_REQUEST_REASON)),
            },
        }
    }

    /// Answers the handshake request `req` for a connection with this role.
    ///
    /// Every request is answered. A receiver and a sender answer with the
    /// upgrade that `ws` builds for the request, and with `400 Bad Request` where
    /// it builds none; a connection without a role answers `404 Not Found`.
    pub fn on_request(&self, req: &ws::Request) -> (r: Result<Response, HandshakeError>)
        ensures
            r matches Ok(res) && res@ == reply_of(*self, upgrade_of(*req)),
            upgrade_of(*req) matches Some(up) ==> is_upgrade(up),
    {
        let upgraded = upgrade(req);
        self.answer(upgraded)
    }
}

} // verus!
