//! Where the bridge listens, and what it says of itself when it starts.

use crate::log::{Record, RecordView, RECEIVER_NAME, SENDER_NAME, SYSTEM_LABEL};
use crate::role::SENDER_PATH;
use vstd::prelude::*;
use vstd::string::StringExecFns;

verus! {

/// The port that is used where none is set.
pub const DEFAULT_PORT: &'static str = "3012";

/// The address and the port on which the bridge listens.
#[derive(Clone, Debug, PartialEq, Eq)]
pub struct Endpoint {
    pub ip: String,
    pub port: String,
}

/// What an endpoint holds.
pub struct EndpointView {
    pub ip: Seq<char>,
    pub port: Seq<char>,
}

impl View for Endpoint {
    type V = EndpointView;

    open spec fn view(&self) -> EndpointView {
        EndpointView { ip: self.ip@, port: self.port@ }
    }
}

/// The endpoint for the settings that were found: a set address wins over the
/// machine's own, and a set port over the default one.
pub open spec fn resolved(
    set_ip: Option<Seq<char>>,
    local_ip: Seq<char>,
    set_port: Option<Seq<char>>,
) -> EndpointView {
    EndpointView {
        ip: match set_ip {
            Some(ip) => ip,
            None => local_ip,
        },
        port: match set_port {
            Some(port) => port,
            None => DEFAULT_PORT@,
        },
    }
}

/// The socket address: address, colon, port.
pub open spec fn address_of(at: EndpointView) -> Seq<char> {
    at.ip + ":"@ + at.port
}

/// The URL at which receivers connect.
pub open spec fn url_of(at: EndpointView) -> Seq<char> {
    "ws://"@ + at.ip + ":"@ + at.port
}

/// The entry that announces the bridge: that it has started, and the URL for
/// each role, one per line.
pub open spec fn banner_of(at: EndpointView) -> RecordView {
    RecordView {
        label: SYSTEM_LABEL@,
        body: "Bridge server started\r\n"@ + RECEIVER_NAME@ + " please connect to: "@ + url_of(at)
            + "\r\n"@ + SENDER_NAME@ + " please connect to: "@ + url_of(at) + SENDER_PATH@,
    }
}

impl Endpoint {
    /// The endpoint for the settings that were found: `set_ip` and `set_port`
    /// are what the configuration holds, `local_ip` is the machine's own address.
    pub fn resolve(set_ip: Option<String>, local_ip: String, set_port: Option<String>) -> (at:
        Endpoint)
        ensures
            at@ == resolved(
                match set_ip {
                    Some(ip) => Some(ip@),
                    None => None,
                },
                local_ip@,
                match set_port {
                    Some(port) => Some(port@),
                    None => None,
                },
            ),
    {
        let ip = match set_ip {
            Some(ip) => ip,
            None => local_ip,
        };
        let port = match set_port {
            Some(port) => port,
            None => String::from_str(DEFAULT_PORT),
        };
        Endpoint { ip, port }
    }

    /// The socket address to listen on.
    pub fn address(&self) -> (address: String)
        ensures
            address@ == address_of(self@),
    {
        let mut address = self.ip.clone();
        address.append(":");
        address.append(self.port.as_str());
        address
    }

    /// The URL at which receivers connect; senders add the sender path.
    pub fn url(&self) -> (url: String)
        ensures
            url@ == url_of(self@),
    {
        let mut url = String::from_str("ws://");
        url.append(self.ip.as_str());
        url.append(":");
        url.append(self.port.as_str());
        url
    }

    /// The entry that announces the bridge.
    pub fn banner(&self) -> (record: Record)
        ensures
            record@ == banner_of(self@),
    {
        let url = self.url();
        let mut body = String::from_str("Bridge server started\r\n");
        body.append(RECEIVER_NAME);
        body.append(" please connect to: ");
        body.append(url.as_str());
        body.append("\r\n");
        body.append(SENDER_NAME);
        body.append(" please connect to: ");
        body.append(url.as_str());
        body.append(SENDER_PATH);
        Record { label: String::from_str(SYSTEM_LABEL), body }
    }
}

} // verus!
