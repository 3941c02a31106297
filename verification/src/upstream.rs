//! The upstream caller's decision logic: resolving the configured upstream
//! host, selecting the outbound transport, and classifying what an attempted
//! call produced. Issuing the call itself is network I/O and is driven by
//! the surrounding process against these contracts.

use vstd::prelude::*;

use crate::config::NetworkConfig;
use crate::data::{HttpReply, HttpReplyV};
use crate::json::{dec_text, dec_text_exec};

verus! {

/// Overall deadline for one upstream call, in milliseconds: just under the
/// common sixty-second client-side timeout, so the proxy fails first with a
/// structured error.
pub const DEFAULT_TIMEOUT_MILLIS: u64 = 59000;

/// A recoverable failure of one upstream call attempt: the call produced no
/// response at all.
#[derive(Clone, Copy, PartialEq, Eq, Structural, Debug)]
pub enum UpstreamError {
    /// The corporate-proxy URL did not parse.
    ProxyUrlParse,
    /// The tunneling connector could not be built.
    ConnectorBuild,
    /// The transport failed while the request was in flight.
    Network,
    /// No response arrived within the deadline, in milliseconds.
    Timeout(u64),
}

/// The error text of a failed call attempt.
pub open spec fn error_message_spec(e: UpstreamError) -> Seq<char> {
    match e {
        UpstreamError::ProxyUrlParse => "Cannot parse upstream proxy URL"@,
        UpstreamError::ConnectorBuild => "Failed to create proxy connector"@,
        UpstreamError::Network => "Network error"@,
        UpstreamError::Timeout(ms) => "Timeout - no response received in "@ + dec_text(ms)
            + " milliseconds"@,
    }
}

/// The full client-visible text for a failed call attempt.
pub open spec fn failure_message(e: UpstreamError) -> Seq<char> {
    "Failed to get a response from COPS: "@ + error_message_spec(e)
}

impl UpstreamError {
    /// Renders the error text of this failure.
    pub fn error_message(&self) -> (r: String)
        ensures
            r@ == error_message_spec(*self),
    {
        match self {
            UpstreamError::ProxyUrlParse => "Cannot parse upstream proxy URL".to_owned(),
            UpstreamError::ConnectorBuild => "Failed to create proxy connector".to_owned(),
            UpstreamError::Network => "Network error".to_owned(),
            UpstreamError::Timeout(ms) => {
                let mut r: String = "Timeout - no response received in ".to_owned();
                let digits = dec_text_exec(*ms);
                r.append(digits.as_str());
                r.append(" milliseconds");
                proof {
                    assert(r@ =~= error_message_spec(*self));
                }
                r
            },
        }
    }
}

/// The authoritative result of one upstream call: exactly one of a received
/// response (success or failure status alike) or a transport-level error.
pub enum UpstreamOutcome {
    Reply(HttpReply),
    Failed(UpstreamError),
}

pub enum UpstreamOutcomeV {
    Reply(HttpReplyV),
    Failed(UpstreamError),
}

impl View for UpstreamOutcome {
    type V = UpstreamOutcomeV;

    open spec fn view(&self) -> UpstreamOutcomeV {
        match self {
            UpstreamOutcome::Reply(r) => UpstreamOutcomeV::Reply(r@),
            UpstreamOutcome::Failed(e) => UpstreamOutcomeV::Failed(*e),
        }
    }
}

/// What hyper's URI parser extracts from the configured host string: its
/// scheme, host and port, a function of the string alone. `None` stands for
/// a string with no parse or no host.
pub uninterp spec fn uri_parts_of(s: Seq<char>) -> Option<
    (Option<Seq<char>>, Seq<char>, Option<u16>),
>;

/// View of extracted URI parts as plain sequences.
pub open spec fn uri_parts_view(r: Option<(Option<String>, String, Option<u16>)>) -> Option<
    (Option<Seq<char>>, Seq<char>, Option<u16>),
> {
    match r {
        None => None,
        Some((scheme, host, port)) => Some(
            (
                match scheme {
                    None => None,
                    Some(s) => Some(s@),
                },
                host@,
                port,
            ),
        ),
    }
}

/// Relies on hyper::Uri (http::Uri): parsing a URI string and reading its
/// scheme, host and port, all functions of the string alone.
#[verifier::external_body]
fn parse_uri_parts(s: &str) -> (r: Option<(Option<String>, String, Option<u16>)>)
    ensures
        uri_parts_view(r) == uri_parts_of(s@),
{
    match s.parse::<hyper::Uri>() {
        Err(_) => None,
        Ok(uri) => match uri.host() {
            None => None,
            Some(h) => {
                let scheme = match uri.scheme_str() {
                    None => None,
                    Some(sch) => Some(sch.to_string()),
                };
                Some((scheme, h.to_string(), uri.port_u16()))
            },
        },
    }
}

/// How the upstream base address is resolved from extracted URI parts: the
/// call is secure exactly when the explicit scheme is `https` (any other or
/// missing scheme defaults to plain HTTP), and the host keeps its explicit
/// port. `None` is a fatal configuration error.
pub open spec fn host_resolution(parts: Option<(Option<Seq<char>>, Seq<char>, Option<u16>)>) -> Option<
    (bool, Seq<char>),
> {
    match parts {
        None => None,
        Some((scheme, host, port)) => {
            let secure = scheme == Some("https"@);
            let authority = match port {
                None => host,
                Some(p) => host + ":"@ + dec_text(p as u64),
            };
            Some((secure, authority))
        },
    }
}

/// Resolves the configured upstream host string to whether the call is
/// secure and to the host (with its explicit port, if any) the outbound
/// request is addressed at. `None` means the static host string is
/// unusable, which the caller must treat as fatal.
pub fn resolve_remote_host(remote_host: &str) -> (r: Option<(bool, String)>)
    ensures
        (match r {
            None => None,
            Some((secure, authority)) => Some((secure, authority@)),
        }) == host_resolution(uri_parts_of(remote_host@)),
{
    match parse_uri_parts(remote_host) {
        None => None,
        Some((scheme, host, port)) => {
            let https: String = "https".to_owned();
            let secure = match &scheme {
                None => false,
                Some(s) => *s == https,
            };
            let authority = match port {
                None => host,
                Some(p) => {
                    let mut a = host;
                    a.append(":");
                    let digits = dec_text_exec(p as u64);
                    a.append(digits.as_str());
                    a
                },
            };
            proof {
                assert((match uri_parts_of(remote_host@) {
                    Some((sch, h, pt)) => sch == Some("https"@),
                    None => false,
                }) == secure);
            }
            Some((secure, authority))
        },
    }
}

/// The address one outbound request is sent to: the resolved scheme, the
/// resolved host, and the request's own path.
pub open spec fn upstream_uri_spec(secure: bool, authority: Seq<char>, path: Seq<char>) -> Seq<
    char,
> {
    (if secure {
        "https://"@
    } else {
        "http://"@
    }) + authority + path
}

/// Builds the address the outbound request for `path` is sent to.
pub fn upstream_uri(secure: bool, authority: &str, path: &str) -> (r: String)
    ensures
        r@ == upstream_uri_spec(secure, authority@, path@),
{
    let mut r: String = if secure {
        "https://".to_owned()
    } else {
        "http://".to_owned()
    };
    r.append(authority);
    r.append(path);
    proof {
        assert(r@ =~= upstream_uri_spec(secure, authority@, path@));
    }
    r
}

/// The outbound transport for one upstream call, selected once per call
/// from static configuration.
pub enum Transport {
    /// Direct plain connection.
    Direct,
    /// Direct TLS-capable connection.
    DirectSecure,
    /// Tunneled through the corporate proxy, with optional basic-auth
    /// credentials.
    ViaCorporateProxy { proxy_host: String, proxy_port: u16, auth: Option<(String, String)> },
}

pub enum TransportV {
    Direct,
    DirectSecure,
    ViaCorporateProxy { proxy_host: Seq<char>, proxy_port: u16, auth: Option<(Seq<char>, Seq<char>)> },
}

impl View for Transport {
    type V = TransportV;

    open spec fn view(&self) -> TransportV {
        match self {
            Transport::Direct => TransportV::Direct,
            Transport::DirectSecure => TransportV::DirectSecure,
            Transport::ViaCorporateProxy { proxy_host, proxy_port, auth } => TransportV::ViaCorporateProxy {
                proxy_host: proxy_host@,
                proxy_port: *proxy_port,
                auth: match auth {
                    None => None,
                    Some((user, password)) => Some((user@, password@)),
                },
            },
        }
    }
}

/// Which transport a configuration selects: the corporate proxy whenever its
/// use is enabled (with credentials exactly when basic auth is enabled),
/// otherwise a direct connection, TLS-capable exactly when the resolved
/// scheme is secure.
pub open spec fn selected_transport(
    use_proxy: bool,
    proxy_host: Seq<char>,
    proxy_port: u16,
    use_basic_auth: bool,
    proxy_username: Seq<char>,
    proxy_password: Seq<char>,
    secure: bool,
) -> TransportV {
    if use_proxy {
        TransportV::ViaCorporateProxy {
            proxy_host,
            proxy_port,
            auth: if use_basic_auth {
                Some((proxy_username, proxy_password))
            } else {
                None
            },
        }
    } else if secure {
        TransportV::DirectSecure
    } else {
        TransportV::Direct
    }
}

/// Selects the transport for one upstream call from the corporate-proxy
/// configuration and the resolved scheme.
pub fn select_transport(net: &NetworkConfig, secure: bool) -> (t: Transport)
    ensures
        t@ == selected_transport(
            net.use_corporate_proxy,
            net.corporate_proxy_host@,
            net.corporate_proxy_port,
            net.use_basic_auth,
            net.corporate_proxy_username@,
            net.corporate_proxy_password@,
            secure,
        ),
{
    if net.use_corporate_proxy {
        let auth = if net.use_basic_auth {
            Some((net.corporate_proxy_username.clone(), net.corporate_proxy_password.clone()))
        } else {
            None
        };
        Transport::ViaCorporateProxy {
            proxy_host: net.corporate_proxy_host.clone(),
            proxy_port: net.corporate_proxy_port,
            auth,
        }
    } else if secure {
        Transport::DirectSecure
    } else {
        Transport::Direct
    }
}

/// The tunnel target of the corporate-proxy transport, always plain HTTP.
pub open spec fn proxy_url_spec(t: TransportV) -> Option<Seq<char>> {
    match t {
        TransportV::ViaCorporateProxy { proxy_host, proxy_port, .. } => Some(
            "http://"@ + proxy_host + ":"@ + dec_text(proxy_port as u64),
        ),
        _ => None,
    }
}

impl Transport {
    /// The URL of the corporate-proxy tunnel target; `None` for the direct
    /// transports.
    pub fn proxy_url(&self) -> (r: Option<String>)
        ensures
            (match r {
                None => None,
                Some(url) => Some(url@),
            }) == proxy_url_spec(self@),
    {
        match self {
            Transport::ViaCorporateProxy { proxy_host, proxy_port, .. } => {
                let mut url: String = "http://".to_owned();
                url.append(proxy_host.as_str());
                url.append(":");
                let digits = dec_text_exec(*proxy_port as u64);
                url.append(digits.as_str());
                proof {
                    assert(Some(url@) =~~= proxy_url_spec(self@));
                }
                Some(url)
            },
            _ => None,
        }
    }
}

} // verus!
