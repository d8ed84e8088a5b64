//! Config resolver: reads the protocol identifier out of a configuration
//! document and selects which protocol engine variant to construct.

use vstd::prelude::*;

verus! {

/// Which protocol engine variant a configuration document selects.
#[derive(Clone, Copy, Debug, PartialEq, Eq, Structural)]
pub enum ProtocolKind {
    V2RayFamily,
    Trojan,
    Shadowsocks,
    Unsupported,
}

/// The variant a protocol identifier selects: `vless` and `vmess` name the
/// V2Ray family, `trojan` and `shadowsocks` their own variants, and any other
/// identifier is unsupported.
pub open spec fn kind_of_protocol(name: Seq<char>) -> ProtocolKind {
    if name == "vless"@ || name == "vmess"@ {
        ProtocolKind::V2RayFamily
    } else if name == "trojan"@ {
        ProtocolKind::Trojan
    } else if name == "shadowsocks"@ {
        ProtocolKind::Shadowsocks
    } else {
        ProtocolKind::Unsupported
    }
}

/// Maps a protocol identifier to the engine variant it selects.
pub fn resolve_protocol_name(protocol: &str) -> (kind: ProtocolKind)
    ensures
        kind == kind_of_protocol(protocol@),
{
    let name = protocol.to_owned();
    if name == String::from_str("vless") || name == String::from_str("vmess") {
        ProtocolKind::V2RayFamily
    } else if name == String::from_str("trojan") {
        ProtocolKind::Trojan
    } else if name == String::from_str("shadowsocks") {
        ProtocolKind::Shadowsocks
    } else {
        ProtocolKind::Unsupported
    }
}

/// What a scan of a configuration document found.
pub enum ConfigScan {
    /// The text is not a well-formed document.
    Unparseable,
    /// The text parsed, but its first outbound carries no protocol string.
    NoProtocol,
    /// The protocol string of the first outbound.
    Protocol(String),
}

impl ConfigScan {
    /// The scan as a plain value: `None` when the text did not parse,
    /// `Some(None)` when it parsed without a protocol string at the expected
    /// place, and `Some(Some(name))` for the first outbound's protocol.
    pub open spec fn scan(&self) -> Option<Option<Seq<char>>> {
        match self {
            ConfigScan::Unparseable => None,
            ConfigScan::NoProtocol => Some(None),
            ConfigScan::Protocol(name) => Some(Some(name@)),
        }
    }
}

/// What scanning a configuration text yields: `None` when the text is not a
/// well-formed document; otherwise the protocol string of the first entry of
/// its "outbounds" array, if there is one.
pub uninterp spec fn config_protocol(text: Seq<char>) -> Option<Option<Seq<char>>>;

/// Relies on serde_json::from_str::<serde_json::Value> and on
/// serde_json::Value::{get, as_array, as_str}: whether the text parses as a
/// JSON document, and which string the path outbounds[0].protocol holds in it,
/// depend on the characters of the text alone.
#[verifier::external_body]
pub(crate) fn scan_config_text(text: &str) -> (r: ConfigScan)
    ensures
        r.scan() == config_protocol(text@),
{
    match serde_json::from_str::<serde_json::Value>(text) {
        Err(_) => ConfigScan::Unparseable,
        Ok(document) => {
            let protocol = document
                .get("outbounds")
                .and_then(serde_json::Value::as_array)
                .and_then(|outbounds| outbounds.first())
                .and_then(|first| first.get("protocol"))
                .and_then(serde_json::Value::as_str);
            match protocol {
                Some(name) => ConfigScan::Protocol(name.to_owned()),
                None => ConfigScan::NoProtocol,
            }
        },
    }
}

} // verus!
