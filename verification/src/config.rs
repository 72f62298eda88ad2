//! The bridge's configuration, and the upstream proxy that is built from it.

use vstd::prelude::*;
use vstd::string::{StrSliceExecFns, StringExecFns};
use crate::text::{decimal, port_text};

verus! {

/// `reqwest::Proxy`: a rule that sends outbound requests through a proxy.
#[verifier::external_type_specification]
#[verifier::external_body]
pub struct ExProxy(reqwest::Proxy);

/// `reqwest::Error`: why the HTTP client refused something.
#[verifier::external_type_specification]
#[verifier::external_body]
pub struct ExClientError(reqwest::Error);

/// Whether `reqwest::Proxy::http` takes a text as the URL of a proxy. The
/// client is built without SOCKS support, so the answer rests on the text
/// alone: it is parsed, never resolved.
pub uninterp spec fn proxy_url_accepted(url: Seq<char>) -> bool;

/// `reqwest::Proxy::http`: parses the URL of a proxy for plain HTTP traffic,
/// and fails on a text that is no such URL. Nothing is claimed of which
/// texts those are.
#[verifier::external_body]
fn proxy_http(url: &str) -> (r: Result<reqwest::Proxy, reqwest::Error>)
    ensures
        r is Ok == proxy_url_accepted(url@),
{
    reqwest::Proxy::http(url)
}

/// Why the bridge cannot be set up.
pub enum ConfigError {
    /// The HTTP client does not take this text as the URL of a proxy.
    MalformedProxyUrl { url: String },
}

/// What the bridge is started with. It does not change afterwards.
pub struct BridgeConfig {
    /// The base URL of the one destination.
    pub target_base_url: String,
    /// The loopback port that the bridge listens on.
    pub local_port: u16,
    /// The loopback port of the upstream HTTP proxy.
    pub upstream_proxy_port: u16,
}

/// The first colon of `url` stands at `i`.
pub open spec fn first_colon_at(url: Seq<char>, i: int) -> bool {
    &&& 0 <= i < url.len()
    &&& url[i] == ':'
    &&& forall|j: int| 0 <= j < i ==> url[j] != ':'
}

/// A character with which the host of a URL cannot begin: it would end the
/// authority before it began.
pub open spec fn ends_authority(c: char) -> bool {
    c == '/' || c == '?' || c == '#'
}

/// An absolute URL with a scheme and a host, as far as the bridge asks: some
/// characters without a colon, then `://`, then a character that begins a
/// host.
pub open spec fn has_scheme_and_host(url: Seq<char>) -> bool {
    exists|i: int|
        #![trigger first_colon_at(url, i)]
        first_colon_at(url, i) && 0 < i && i + 3 < url.len() && url[i + 1] == '/' && url[i + 2]
            == '/' && !ends_authority(url[i + 3])
}

/// Checks that a text is an absolute URL with a scheme and a host.
pub fn is_absolute_url(url: &str) -> (r: bool)
    ensures
        r == has_scheme_and_host(url@),
{
    let n = url.unicode_len();
    let mut i: usize = 0;
    let mut found = false;
    while i < n && !found
        invariant
            n == url@.len(),
            i <= n,
            !found ==> forall|j: int| 0 <= j < i ==> url@[j] != ':',
            found ==> first_colon_at(url@, i as int),
        decreases n - i + (if found { 0int } else { 1int }),
    {
        if url.get_char(i) == ':' {
            found = true;
        } else {
            i = i + 1;
        }
    }
    if !found {
        assert(!has_scheme_and_host(url@));
        return false;
    }
    assert forall|k: int| first_colon_at(url@, k) implies k == i by {
        if k < i {
            assert(url@[k] != ':');
        } else if k > i {
            assert(url@[i as int] == ':');
        }
    }
    if i == 0 || n - i <= 3 {
        return false;
    }
    let slash_one = url.get_char(i + 1);
    let slash_two = url.get_char(i + 2);
    let first = url.get_char(i + 3);
    slash_one == '/' && slash_two == '/' && first != '/' && first != '?' && first != '#'
}

/// The URL of a port on the loopback interface.
pub open spec fn loopback_url(port: u16) -> Seq<char> {
    "http://127.0.0.1:"@ + decimal(port as nat)
}

/// Writes the URL of a port on the loopback interface.
pub fn loopback_url_text(port: u16) -> (r: String)
    ensures
        r@ == loopback_url(port),
{
    let digits = port_text(port);
    String::from_str("http://127.0.0.1:").concat(digits.as_str())
}

/// Settles what the client's answer to a proxy URL means for the bridge: a
/// proxy is kept, a refusal becomes the configuration error that names the
/// URL.
pub fn proxy_or_error(
    answer: Result<reqwest::Proxy, reqwest::Error>,
    url: String,
) -> (r: Result<reqwest::Proxy, ConfigError>)
    ensures
        answer is Ok ==> r == Ok::<reqwest::Proxy, ConfigError>(answer->Ok_0),
        answer is Err ==> r == Err::<reqwest::Proxy, ConfigError>(
            ConfigError::MalformedProxyUrl { url },
        ),
{
    match answer {
        Ok(proxy) => Ok(proxy),
        Err(_) => Err(ConfigError::MalformedProxyUrl { url }),
    }
}

impl BridgeConfig {
    /// The destination is an absolute URL with a scheme and a host, both
    /// ports are set, and they differ: the bridge cannot listen where its
    /// upstream does.
    pub open spec fn well_formed(&self) -> bool {
        &&& has_scheme_and_host(self.target_base_url@)
        &&& self.local_port != 0
        &&& self.upstream_proxy_port != 0
        &&& self.local_port != self.upstream_proxy_port
    }

    /// Checks the destination and the ports.
    pub fn is_well_formed(&self) -> (r: bool)
        ensures
            r == self.well_formed(),
    {
        is_absolute_url(self.target_base_url.as_str()) && self.local_port != 0
            && self.upstream_proxy_port != 0 && self.local_port != self.upstream_proxy_port
    }

    /// The configuration used when nothing is chosen: the project site of
    /// the network as destination, the bridge on port 8790, the upstream on
    /// port 4444.
    pub fn standard() -> (r: BridgeConfig)
        ensures
            r.target_base_url@ == "http://i2p-projekt.i2p"@,
            r.local_port == 8790,
            r.upstream_proxy_port == 4444,
            r.well_formed(),
    {
        proof {
            reveal_strlit("http://i2p-projekt.i2p");
            assert(first_colon_at("http://i2p-projekt.i2p"@, 4));
        }
        BridgeConfig {
            target_base_url: String::from_str("http://i2p-projekt.i2p"),
            local_port: 8790,
            upstream_proxy_port: 4444,
        }
    }

    /// The URL under which the bridge is reached.
    pub fn local_url(&self) -> (r: String)
        ensures
            r@ == loopback_url(self.local_port),
    {
        loopback_url_text(self.local_port)
    }

    /// The URL of the upstream proxy.
    pub fn proxy_url(&self) -> (r: String)
        ensures
            r@ == loopback_url(self.upstream_proxy_port),
    {
        loopback_url_text(self.upstream_proxy_port)
    }

    /// Builds the proxy rule through which every outbound request goes: all
    /// HTTP traffic through the upstream proxy on the loopback interface. It
    /// fails exactly when the client refuses the proxy's URL, with the error
    /// that names that URL.
    pub fn upstream_proxy(&self) -> (r: Result<reqwest::Proxy, ConfigError>)
        ensures
            r is Ok <==> proxy_url_accepted(loopback_url(self.upstream_proxy_port)),
            r is Err ==> r->Err_0->url@ == loopback_url(self.upstream_proxy_port),
    {
        let url = self.proxy_url();
        let answer = proxy_http(url.as_str());
        proxy_or_error(answer, url)
    }
}

} // verus!
