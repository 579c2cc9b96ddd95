//! Start-up decisions: which address and port to bind, which URLs to show
//! to the people who are to join, and whether a host name can stand for the
//! machine's address.

use vstd::prelude::*;
use crate::text::{decimal, push_decimal, push_text, strip_trailing, trim_end_matches_char, contains_char};
use crate::messages::opt_text;

verus! {

/// An IP address: four octets, or eight 16-bit groups.
#[derive(Debug, Clone, Copy, PartialEq, Eq, Structural)]
pub enum IpAddress {
    V4(u8, u8, u8, u8),
    V6(u16, u16, u16, u16, u16, u16, u16, u16),
}

/// An IP address with a port.
#[derive(Debug, Clone, Copy, PartialEq, Eq, Structural)]
pub struct SocketAddress {
    pub ip: IpAddress,
    pub port: u16,
}

/// The command-line options of the server.
#[derive(Debug, Clone, Copy)]
pub struct Args {
    /// Address to bind; overrides `localhost_only`.
    pub bind: Option<IpAddress>,
    /// Port to bind unless `random_port` is set.
    pub port: u16,
    /// Let the system pick the port.
    pub random_port: bool,
    /// Serve the host machine only.
    pub localhost_only: bool,
    /// Log every HTTP request and response.
    pub http_access_log: bool,
}

/// The port that the server listens on by default.
pub const DEFAULT_PORT: u16 = 8787;

/// The IPv4 loopback address, 127.0.0.1.
pub open spec fn loopback() -> IpAddress {
    IpAddress::V4(127, 0, 0, 1)
}

/// The IPv4 wildcard address, 0.0.0.0.
pub open spec fn unspecified() -> IpAddress {
    IpAddress::V4(0, 0, 0, 0)
}

/// The address to bind: the explicit one if given, else loopback when the
/// server is for the host machine only, else every interface.
pub fn resolve_bind_ip(args: &Args) -> (ip: IpAddress)
    ensures
        ip == (match args.bind {
            Some(b) => b,
            None => if args.localhost_only {
                loopback()
            } else {
                unspecified()
            },
        }),
{
    if let Some(bind) = args.bind {
        return bind;
    }
    if args.localhost_only {
        return IpAddress::V4(127, 0, 0, 1);
    }
    IpAddress::V4(0, 0, 0, 0)
}

/// The port to bind: 0 (any free port) when a random port is asked for,
/// else the configured port.
pub fn bind_port(args: &Args) -> (port: u16)
    ensures
        port == (if args.random_port {
            0
        } else {
            args.port
        }),
{
    if args.random_port {
        0
    } else {
        args.port
    }
}

/// `http://<host>:<port>`.
pub open spec fn http_url(host: Seq<char>, port: u16) -> Seq<char> {
    "http://"@ + host + seq![':'] + decimal(port as nat)
}

/// `http://localhost:<port>`.
pub open spec fn localhost_url(port: u16) -> Seq<char> {
    http_url("localhost"@, port)
}

pub open spec fn msg_no_local_ip() -> Seq<char> {
    "local IP unavailable"@
}

/// Builds `http://<host>:<port>`.
pub fn http_url_for(host: &str, port: u16) -> (url: String)
    ensures
        url@ == http_url(host@, port),
{
    let mut url = "http://".to_owned();
    push_text(&mut url, host);
    url.push(':');
    push_decimal(&mut url, port as u64);
    url
}

/// The URL to share with the team and, unless the server is for the host
/// machine only, the URL that works on the host machine itself. The shared
/// URL names the machine by its confirmed host name when there is one, else
/// by its detected IP address (given as text); with neither there is no URL
/// to share.
pub fn build_share_urls(
    local_addr: SocketAddress,
    localhost_only: bool,
    detected_ip: Option<&str>,
    detected_fqdn: Option<&str>,
) -> (r: Result<(String, Option<String>), String>)
    ensures
        match r {
            Ok((share, local)) => if localhost_only {
                share@ == localhost_url(local_addr.port) && local is None
            } else {
                &&& opt_text(local) == Some(localhost_url(local_addr.port))
                &&& match detected_fqdn {
                    Some(host) => share@ == http_url(host@, local_addr.port),
                    None => detected_ip matches Some(ip) && share@ == http_url(
                        ip@,
                        local_addr.port,
                    ),
                }
            },
            Err(e) => {
                &&& !localhost_only && detected_fqdn is None && detected_ip is None
                &&& e@ == msg_no_local_ip()
            },
        },
{
    let port = local_addr.port;
    let localhost = http_url_for("localhost", port);
    if localhost_only {
        return Ok((localhost, None));
    }
    if let Some(host) = detected_fqdn {
        return Ok((http_url_for(host, port), Some(localhost)));
    }
    match detected_ip {
        Some(ip) => Ok((http_url_for(ip, port), Some(localhost))),
        None => Err("local IP unavailable".to_owned()),
    }
}

/// What the server announces at start-up: the lines to print and, when no
/// URL could be built for the team, the warning to log. The fallback shares
/// the localhost URL.
pub fn share_announcement(
    local_addr: SocketAddress,
    localhost_only: bool,
    detected_ip: Option<&str>,
    detected_fqdn: Option<&str>,
) -> (r: (Vec<String>, Option<String>))
    ensures
        ({
            let (lines, warning) = r;
            let (share, local) = match build_share_urls_spec(
                local_addr,
                localhost_only,
                detected_ip,
                detected_fqdn,
            ) {
                Some(urls) => urls,
                None => (localhost_url(local_addr.port), Some(localhost_url(local_addr.port))),
            };
            &&& lines@.len() >= 2
            &&& lines@[0]@ == "StoryVote ready"@
            &&& lines@[1]@ == "Share URL: "@ + share
            &&& lines@.len() == (if local matches Some(l) && l != share {
                3int
            } else {
                2int
            })
            &&& (lines@.len() == 3 ==> lines@[2]@ == "Local URL: "@ + local->0)
            &&& (build_share_urls_spec(local_addr, localhost_only, detected_ip, detected_fqdn)
                is None <==> warning is Some)
            &&& (warning matches Some(w) ==> w@ == "Share URL fallback used: "@
                + msg_no_local_ip())
        }),
        announces(r.0@, r.1, local_addr.port, localhost_only, detected_ip, detected_fqdn),
{
    let (share, local, warning) = match build_share_urls(
        local_addr,
        localhost_only,
        detected_ip,
        detected_fqdn,
    ) {
        Ok((share, local)) => (share, local, None),
        Err(error) => {
            let mut w = "Share URL fallback used: ".to_owned();
            push_text(&mut w, error.as_str());
            let localhost = http_url_for("localhost", local_addr.port);
            (localhost.clone(), Some(localhost), Some(w))
        },
    };
    let mut lines: Vec<String> = Vec::new();
    lines.push("StoryVote ready".to_owned());
    let mut share_line = "Share URL: ".to_owned();
    push_text(&mut share_line, share.as_str());
    lines.push(share_line);
    if let Some(l) = &local {
        if !crate::text::str_eq(l.as_str(), share.as_str()) {
            let mut local_line = "Local URL: ".to_owned();
            push_text(&mut local_line, l.as_str());
            lines.push(local_line);
        }
    }
    (lines, warning)
}

/// What the start-up announcement says, case by case: on the host machine
/// only, the localhost URL; otherwise the URL naming the detected host name,
/// else the detected IP address, followed by the localhost URL; with neither,
/// the localhost URL and a warning.
pub open spec fn announces(
    lines: Seq<String>,
    warning: Option<String>,
    port: u16,
    localhost_only: bool,
    detected_ip: Option<&str>,
    detected_fqdn: Option<&str>,
) -> bool {
    &&& lines.len() >= 2
    &&& lines[0]@ == "StoryVote ready"@
    &&& if localhost_only {
        &&& lines.len() == 2
        &&& lines[1]@ == "Share URL: "@ + localhost_url(port)
        &&& warning is None
    } else if detected_fqdn is Some || detected_ip is Some {
        let host: Seq<char> = if detected_fqdn is Some {
            detected_fqdn->0@
        } else {
            detected_ip->0@
        };
        &&& lines[1]@ == "Share URL: "@ + http_url(host, port)
        &&& warning is None
        &&& (lines.len() == 3 <==> http_url(host, port) != localhost_url(port))
        &&& lines.len() <= 3
        &&& (lines.len() == 3 ==> lines[2]@ == "Local URL: "@ + localhost_url(port))
    } else {
        &&& lines.len() == 2
        &&& lines[1]@ == "Share URL: "@ + localhost_url(port)
        &&& warning is Some
    }
}

/// The URL shared with the team names the machine by its detected host name
/// whenever there is one and the server is not for the host machine only,
/// whether or not an IP address was detected too, and comes with the
/// localhost URL.
pub proof fn lemma_share_url_prefers_host_name(
    local_addr: SocketAddress,
    detected_ip: Option<&str>,
    host: &str,
)
    ensures
        build_share_urls_spec(local_addr, false, detected_ip, Some(host)) == Some(
            (http_url(host@, local_addr.port), Some(localhost_url(local_addr.port))),
        ),
        build_share_urls_spec(local_addr, true, detected_ip, Some(host)) == Some(
            (localhost_url(local_addr.port), None::<Seq<char>>),
        ),
{
}

/// The URLs that `build_share_urls` gives, as texts; `None` where it fails.
pub open spec fn build_share_urls_spec(
    local_addr: SocketAddress,
    localhost_only: bool,
    detected_ip: Option<&str>,
    detected_fqdn: Option<&str>,
) -> Option<(Seq<char>, Option<Seq<char>>)> {
    let port = local_addr.port;
    if localhost_only {
        Some((localhost_url(port), None))
    } else if detected_fqdn is Some {
        Some((http_url(detected_fqdn->0@, port), Some(localhost_url(port))))
    } else if detected_ip is Some {
        Some((http_url(detected_ip->0@, port), Some(localhost_url(port))))
    } else {
        None
    }
}

/// The host name that a reverse lookup gave, without trailing dots, when it
/// is a qualified name (it holds a dot); a bare machine name is not shared.
pub fn fqdn_candidate(raw_host: &str) -> (r: Option<String>)
    ensures
        match r {
            Some(h) => h@ == strip_trailing(raw_host@, '.') && h@.contains('.'),
            None => !strip_trailing(raw_host@, '.').contains('.'),
        },
{
    let hostname = trim_end_matches_char(raw_host, '.');
    if !contains_char(hostname.as_str(), '.') {
        return None;
    }
    Some(hostname)
}

/// The host name, kept only when resolving it forward gives back the
/// machine's address `ip`; `resolved` is `None` when the forward lookup
/// failed.
pub fn confirm_fqdn(hostname: String, ip: IpAddress, resolved: Option<Vec<IpAddress>>) -> (r:
    Option<String>)
    ensures
        match r {
            Some(h) => h@ == hostname@ && (resolved matches Some(v) && v@.contains(ip)),
            None => !(resolved matches Some(v) && v@.contains(ip)),
        },
{
    let forward_matches = match &resolved {
        Some(v) => {
            let n = v.len();
            let mut found = false;
            let mut k: usize = 0;
            while k < n
                invariant
                    k <= n == v.len(),
                    found == (exists|m: int| 0 <= m < k && v@[m] == ip),
                decreases n - k,
            {
                if v[k] == ip {
                    found = true;
                }
                k = k + 1;
            }
            found
        },
        None => false,
    };
    if forward_matches {
        Some(hostname)
    } else {
        None
    }
}

} // verus!
