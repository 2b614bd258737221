//! Where the control-plane WebSocket connects: a plain `ws://` address
//! reduced to the `host:port` a TCP connection needs.

use vstd::prelude::*;
use crate::text::{decimal, owned, push_char, push_decimal, push_str, str_eq};

verus! {

#[verifier::external_type_specification]
#[verifier::external_body]
pub struct ExUrlParseError(url::ParseError);

/// What `url::Url::parse` makes of `input`, taken apart into its scheme, its
/// host and its port (the explicit one, or the scheme's default); `None` when
/// it does not parse.
pub uninterp spec fn parsed_endpoint(input: Seq<char>) -> Option<(Seq<char>, Option<Seq<char>>, Option<u16>)>;

/// `url::Url::parse`, with the parsed URL taken apart into `scheme()`,
/// `host_str()` and `port_or_known_default()`. The result depends on the
/// input alone and is named `parsed_endpoint`.
#[verifier::external_body]
fn parse_endpoint(input: &str) -> (r: Result<(String, Option<String>, Option<u16>), url::ParseError>)
    ensures
        match parsed_endpoint(input@) {
            None => r is Err,
            Some((scheme, host, port)) => r matches Ok((s, h, p)) && s@ == scheme && p == port
                && match host {
                None => h is None,
                Some(hv) => h matches Some(x) && x@ == hv,
            },
        },
{
    match url::Url::parse(input) {
        Ok(u) => Ok(
            (
                u.scheme().to_string(),
                match u.host_str() {
                    Some(h) => Some(h.to_string()),
                    None => None,
                },
                u.port_or_known_default(),
            ),
        ),
        Err(e) => Err(e),
    }
}

/// Why the control-plane address is unusable.
#[derive(Debug, PartialEq, Eq)]
pub enum EndpointError {
    /// Not a URL.
    InvalidUrl,
    /// Anything but plain `ws://`.
    UnsupportedScheme,
    MissingHost,
    MissingPort,
}

/// The `host:port` for a parsed address, or why there is none: the scheme is
/// checked first, then the host, then the port.
pub open spec fn address_for(scheme: Seq<char>, host: Option<Seq<char>>, port: Option<u16>) -> Result<
    Seq<char>,
    EndpointError,
> {
    if scheme != "ws"@ {
        Err(EndpointError::UnsupportedScheme)
    } else {
        match host {
            None => Err(EndpointError::MissingHost),
            Some(h) => match port {
                None => Err(EndpointError::MissingPort),
                Some(p) => Ok(h + ":"@ + decimal(p as nat)),
            },
        }
    }
}

/// The `host:port` for an address already taken apart.
pub fn control_plane_address(scheme: &str, host: Option<&str>, port: Option<u16>) -> (r: Result<
    String,
    EndpointError,
>)
    ensures
        match address_for(
            scheme@,
            match host {
                Some(h) => Some(h@),
                None => None,
            },
            port,
        ) {
            Ok(a) => r matches Ok(s) && s@ == a,
            Err(e) => r == Err::<String, _>(e),
        },
{
    if !str_eq(scheme, "ws") {
        return Err(EndpointError::UnsupportedScheme);
    }
    let h = match host {
        Some(h) => h,
        None => {
            return Err(EndpointError::MissingHost);
        },
    };
    let p = match port {
        Some(p) => p,
        None => {
            return Err(EndpointError::MissingPort);
        },
    };
    let mut s = owned(h);
    push_char(&mut s, ':');
    push_decimal(&mut s, p as u64);
    assert(s@ =~= h@ + ":"@ + decimal(p as nat)) by {
        reveal_strlit(":");
    }
    Ok(s)
}

/// The `host:port` the control plane's TCP connection goes to.
pub fn endpoint_address(endpoint: &str) -> (r: Result<String, EndpointError>)
    ensures
        match parsed_endpoint(endpoint@) {
            None => r == Err::<String, _>(EndpointError::InvalidUrl),
            Some((scheme, host, port)) => match address_for(scheme, host, port) {
                Ok(a) => r matches Ok(s) && s@ == a,
                Err(e) => r == Err::<String, _>(e),
            },
        },
{
    match parse_endpoint(endpoint) {
        Err(_) => Err(EndpointError::InvalidUrl),
        Ok((scheme, host, port)) => {
            let h: Option<&str> = match &host {
                Some(x) => Some(x.as_str()),
                None => None,
            };
            control_plane_address(scheme.as_str(), h, port)
        },
    }
}

} // verus!
