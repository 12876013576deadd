//! The configuration file of the XRay client that carries an XRay hop.
use vstd::prelude::*;
use crate::multihop::config::XRayConfig;
use crate::text::{decimal, decimal_string};

verus! {

/// The security setting of the stream: `tls` or `none`.
pub open spec fn security_text(tls: bool) -> Seq<char> {
    if tls { "tls"@ } else { "none"@ }
}

/// The stream settings: WebSocket on `ws_path`, or plain TCP.
pub open spec fn stream_settings(c: XRayConfig) -> Seq<char> {
    if c.websocket {
        "\n                \"streamSettings\": {\n                    \"network\": \"ws\",\n                    \"security\": \""@ + security_text(c.tls) + "\",\n                    \"wsSettings\": {\n                        \"path\": \""@ + c.ws_path@ + "\"\n                    }\n                }"@
    } else {
        "\n                \"streamSettings\": {\n                    \"network\": \"tcp\",\n                    \"security\": \""@ + security_text(c.tls) + "\"\n                }"@
    }
}

/// The configuration: a SOCKS inbound on `local_port`, and a VLESS outbound to
/// `remote_ip` (as text) and `remote_port` with the hop's user id and stream settings.
pub open spec fn xray_config_text(c: XRayConfig, local_port: u16, remote_ip: Seq<char>, remote_port: u16) -> Seq<char> {
    "{\n            \"log\": {\n                \"loglevel\": \"warning\"\n            },\n            \"inbounds\": [{\n                \"port\": "@ + decimal(local_port as nat) + ",\n                \"protocol\": \"socks\",\n                \"settings\": {\n                    \"udp\": true\n                }\n            }],\n            \"outbounds\": [{\n                \"protocol\": \"vless\",\n                \"settings\": {\n                    \"vnext\": [{\n                        \"address\": \""@ + remote_ip + "\",\n                        \"port\": "@
        + decimal(remote_port as nat) + ",\n                        \"users\": [{\n                            \"id\": \""@ + c.uuid@ + "\",\n                            \"encryption\": \"none\"\n                        }]\n                    }]\n                },\n                "@ + stream_settings(c)
        + "\n            }]\n        }"@
}

/// The configuration of the XRay client of the hop `c` (see `xray_config_text`).
pub fn generate_xray_config(c: &XRayConfig, local_port: u16, remote_ip: &str, remote_port: u16) -> (r: String)
    ensures
        r@ == xray_config_text(*c, local_port, remote_ip@, remote_port),
{
    let security = if c.tls { "tls" } else { "none" };
    let t = if c.websocket {
        let mut t = String::from_str("\n                \"streamSettings\": {\n                    \"network\": \"ws\",\n                    \"security\": \"");
        t.append(security);
        t.append("\",\n                    \"wsSettings\": {\n                        \"path\": \"");
        t.append(c.ws_path.as_str());
        t.append("\"\n                    }\n                }");
        t
    } else {
        let mut t = String::from_str("\n                \"streamSettings\": {\n                    \"network\": \"tcp\",\n                    \"security\": \"");
        t.append(security);
        t.append("\"\n                }");
        t
    };
    let transport = t;
    let mut s = String::from_str("{\n            \"log\": {\n                \"loglevel\": \"warning\"\n            },\n            \"inbounds\": [{\n                \"port\": ");
    let lp = decimal_string(local_port as u64);
    s.append(lp.as_str());
    s.append(",\n                \"protocol\": \"socks\",\n                \"settings\": {\n                    \"udp\": true\n                }\n            }],\n            \"outbounds\": [{\n                \"protocol\": \"vless\",\n                \"settings\": {\n                    \"vnext\": [{\n                        \"address\": \"");
    s.append(remote_ip);
    s.append("\",\n                        \"port\": ");
    let rp = decimal_string(remote_port as u64);
    s.append(rp.as_str());
    s.append(",\n                        \"users\": [{\n                            \"id\": \"");
    s.append(c.uuid.as_str());
    s.append("\",\n                            \"encryption\": \"none\"\n                        }]\n                    }]\n                },\n                ");
    s.append(transport.as_str());
    s.append("\n            }]\n        }");
    s
}

} // verus!
