//! Where the probes connect: URLs and their parts, default ports of HTTP,
//! TLS, DNS and SNMP targets, and the lifetime of server certificates.
use vstd::prelude::*;

use crate::http_wire::WireError;
use crate::text::{
    chars_of, contains, contains_exec, count_char, count_char_exec, starts_with,
    starts_with_exec, string_from_chars,
};

verus! {

broadcast use vstd::string::group_string_axioms;

/// The parts of a parsed URL that the probes use.
#[derive(Debug, Clone, PartialEq, Eq)]
pub struct UrlParts {
    /// The scheme, such as `http`.
    pub scheme: String,
    /// The host, when the URL has one.
    pub host: Option<String>,
    /// The port, when the URL gives one that is not the scheme's default.
    pub port: Option<u16>,
    /// The path.
    pub path: String,
}

/// The view of `UrlParts`.
pub struct UrlView {
    pub scheme: Seq<char>,
    pub host: Option<Seq<char>>,
    pub port: Option<u16>,
    pub path: Seq<char>,
}

/// An optional text by its characters.
pub open spec fn opt_view(o: Option<String>) -> Option<Seq<char>> {
    match o {
        Some(s) => Some(s@),
        None => None,
    }
}

impl View for UrlParts {
    type V = UrlView;

    open spec fn view(&self) -> UrlView {
        UrlView { scheme: self.scheme@, host: opt_view(self.host), port: self.port, path: self.path@ }
    }
}

/// What `url::Url::parse` gives for a text: the parts of the URL, or the
/// parser's message when the text is no absolute URL.
pub uninterp spec fn url_parse(input: Seq<char>) -> Result<UrlView, Seq<char>>;

/// A parse outcome with the parts and the message by their views.
pub open spec fn parse_view(r: Result<UrlParts, String>) -> Result<UrlView, Seq<char>> {
    match r {
        Ok(p) => Ok(p@),
        Err(e) => Err(e@),
    }
}

/// Parses an absolute URL with `url::Url::parse` and takes its scheme, host
/// (`host_str`), port (`port`) and path; a failure gives the error's display
/// text. Claimed: the outcome is `url_parse` of the text.
#[verifier::external_body]
fn url_parse_call(input: &str) -> (r: Result<UrlParts, String>)
    ensures
        parse_view(r) == url_parse(input@),
{
    match url::Url::parse(input) {
        Ok(u) => Ok(UrlParts {
            scheme: u.scheme().to_string(),
            host: u.host_str().map(|h| h.to_string()),
            port: u.port(),
            path: u.path().to_string(),
        }),
        Err(e) => Err(e.to_string()),
    }
}

/// Parses an absolute URL; a text that is none gives the parser's message.
pub fn parse_url(input: &str) -> (r: Result<UrlParts, WireError>)
    ensures
        match url_parse(input@) {
            Ok(v) => (r matches Ok(p) && p@ == v),
            Err(m) => (r matches Err(WireError::InvalidUrl(t)) && t@ == m),
        },
{
    match url_parse_call(input) {
        Ok(p) => Ok(p),
        Err(e) => Err(WireError::InvalidUrl(e)),
    }
}

/// The URL that the HTTP probe requests: the text itself when it starts with
/// `http://` or `https://`, else the text behind `https://`.
pub open spec fn http_url_text(url: Seq<char>) -> Seq<char> {
    if !starts_with(url, "http://"@) && !starts_with(url, "https://"@) {
        "https://"@ + url
    } else {
        url
    }
}

/// A URL that names `http://` or `https://` is requested unchanged, one
/// without a scheme gets `https://` in front; so the requested URL always
/// has an HTTP scheme, and preparing it again changes nothing.
pub proof fn lemma_http_url_scheme(url: Seq<char>)
    ensures
        starts_with(url, "http://"@) ==> http_url_text(url) == url,
        starts_with(url, "https://"@) ==> http_url_text(url) == url,
        !starts_with(url, "http://"@) && !starts_with(url, "https://"@) ==> http_url_text(url)
            == "https://"@ + url,
        starts_with(http_url_text(url), "http://"@) || starts_with(http_url_text(url), "https://"@),
        http_url_text(http_url_text(url)) == http_url_text(url),
{
    reveal_strlit("https://");
    let p = "https://"@;
    let u = p + url;
    assert(u.take(p.len() as int) =~= p);
    assert(starts_with(u, p));
}

/// The URL requested for a task's URL text.
pub fn http_url(url: &str) -> (r: String)
    ensures
        r@ == http_url_text(url@),
{
    let c = chars_of(url);
    let a = chars_of("http://");
    let b = chars_of("https://");
    if !starts_with_exec(&c, &a) && !starts_with_exec(&c, &b) {
        let mut r = String::new();
        r.append("https://");
        r.append(url);
        r
    } else {
        string_from_chars(&c)
    }
}

/// The URL that the TLS probe connects to: the host as given when it holds
/// `://`, else the host behind `https://`.
pub open spec fn tls_url_text(host: Seq<char>) -> Seq<char> {
    if contains(host, "://"@) {
        host
    } else {
        "https://"@ + host
    }
}

/// The URL connected to for a TLS task's host.
pub fn tls_url(host: &str) -> (r: String)
    ensures
        r@ == tls_url_text(host@),
{
    let c = chars_of(host);
    let p = chars_of("://");
    if contains_exec(&c, &p) {
        string_from_chars(&c)
    } else {
        let mut r = String::new();
        r.append("https://");
        r.append(host);
        r
    }
}

/// The port for a scheme that gives none: 80 for `http`, 443 for `https`.
pub open spec fn default_port(scheme: Seq<char>) -> Option<u16> {
    if scheme == "http"@ {
        Some(80)
    } else if scheme == "https"@ {
        Some(443)
    } else {
        None
    }
}

/// The host and port that a URL is reached at: a URL without a host, or of
/// a scheme other than `http` and `https` (whatever port it gives), is
/// refused; without a port the scheme's default is taken.
pub open spec fn connect_target_of(u: UrlView) -> Result<(Seq<char>, u16), WireError> {
    match u.host {
        None => Err(WireError::InvalidHost),
        Some(h) => match default_port(u.scheme) {
            None => Err(WireError::InvalidScheme),
            Some(d) => match u.port {
                Some(p) => Ok((h, p)),
                None => Ok((h, d)),
            },
        },
    }
}

/// The host and port to connect to for a URL.
pub fn connect_target(u: &UrlParts) -> (r: Result<(String, u16), WireError>)
    ensures
        match connect_target_of(u@) {
            Ok((h, p)) => r matches Ok((hh, pp)) && hh@ == h && pp == p,
            Err(e) => r == Err::<(String, u16), WireError>(e),
        },
{
    match &u.host {
        None => Err(WireError::InvalidHost),
        Some(h) => {
            let s = chars_of(u.scheme.as_str());
            let http = chars_of("http");
            let https = chars_of("https");
            let d: u16 = if crate::text::chars_eq(&s, &http) {
                80
            } else if crate::text::chars_eq(&s, &https) {
                443
            } else {
                return Err(WireError::InvalidScheme);
            };
            match u.port {
                Some(p) => Ok((h.clone(), p)),
                None => Ok((h.clone(), d)),
            }
        },
    }
}

/// Whether a URL is fetched over TLS.
pub fn is_https(u: &UrlParts) -> (r: bool)
    ensures
        r == (u@.scheme == "https"@),
{
    let s = chars_of(u.scheme.as_str());
    let https = chars_of("https");
    crate::text::chars_eq(&s, &https)
}

/// The DNS server address: as given when it holds a colon (a port), else
/// with port 53.
pub open spec fn dns_server_text(server: Seq<char>) -> Seq<char> {
    if contains(server, ":"@) {
        server
    } else {
        server + ":53"@
    }
}

/// The address of a DNS task's server.
pub fn dns_server_address(server: &str) -> (r: String)
    ensures
        r@ == dns_server_text(server@),
{
    let c = chars_of(server);
    let colon = chars_of(":");
    if contains_exec(&c, &colon) {
        string_from_chars(&c)
    } else {
        let mut r = String::new();
        r.append(server);
        r.append(":53");
        r
    }
}

/// The SNMP agent address: with port 161 when none is given; a bare IPv6
/// address (more than one colon, no bracket) is put in brackets first.
pub open spec fn snmp_host_text(host: Seq<char>) -> Seq<char> {
    if contains(host, ":"@) {
        if count_char(host, ':') > 1 && !contains(host, "["@) {
            "["@ + host + "]:161"@
        } else {
            host
        }
    } else {
        host + ":161"@
    }
}

/// The address of an SNMP task's agent.
pub fn snmp_host_address(host: &str) -> (r: String)
    ensures
        r@ == snmp_host_text(host@),
{
    let c = chars_of(host);
    let colon = chars_of(":");
    let bracket = chars_of("[");
    proof {
        reveal_strlit(":");
        assert(colon@ =~= seq![':']);
    }
    if contains_exec(&c, &colon) {
        if count_char_exec(&c, ':') > 1 && !contains_exec(&c, &bracket) {
            let mut r = String::new();
            r.append("[");
            r.append(host);
            r.append("]:161");
            r
        } else {
            string_from_chars(&c)
        }
    } else {
        let mut r = String::new();
        r.append(host);
        r.append(":161");
        r
    }
}

/// Whole days until a certificate expires, negative once it has expired:
/// `(expiry - now) / 86400` seconds while it is valid, else
/// `-((now - expiry) / 86400)`.
pub open spec fn days_until_expiry_of(expires_at: u64, now: u64) -> int {
    if expires_at >= now {
        (expires_at - now) / 86400
    } else {
        -((now - expires_at) / 86400)
    }
}

/// Whole days until a certificate expires.
pub fn days_until_expiry(expires_at: u64, now: u64) -> (d: i64)
    ensures
        d as int == days_until_expiry_of(expires_at, now),
{
    if expires_at >= now {
        ((expires_at - now) / 86400) as i64
    } else {
        -(((now - expires_at) / 86400) as i64)
    }
}

/// A certificate is active while its expiry lies after now.
pub fn certificate_active(expires_at: u64, now: u64) -> (r: bool)
    ensures
        r == (expires_at > now),
{
    expires_at > now
}

} // verus!
