//! Indexer addresses.

use vstd::prelude::*;
use vstd::string::*;

verus! {

broadcast use vstd::string::group_string_axioms;

/// Whether `http::Uri` parses a text, named.
pub uninterp spec fn is_uri(s: Seq<char>) -> bool;

/// `<http::Uri as FromStr>::from_str`, asked only whether it succeeds: that is a
/// function of the text alone.
#[verifier::external_body]
pub(crate) fn parses(s: &str) -> (r: bool)
    ensures
        r == is_uri(s@),
{
    s.parse::<http::Uri>().is_ok()
}

/// The host `http::Uri::host` finds in the URI that a text parses as, named.
pub uninterp spec fn host_in(s: Seq<char>) -> Option<Seq<char>>;

/// `http::Uri::host` of the parsed text: a function of the text alone, and `None`
/// where the text is no URI.
#[verifier::external_body]
fn host(s: &str) -> (r: Option<String>)
    ensures
        match r {
            Some(h) => host_in(s@) == Some(h@) && is_uri(s@),
            None => host_in(s@) is None,
        },
{
    s.parse::<http::Uri>().ok().and_then(|u| u.host().map(|h| h.to_string()))
}

/// What an unreachable Indexer is called: its host, where its address has one.
pub open spec fn host_or_indexer(host: Option<Seq<char>>) -> Seq<char> {
    match host {
        Some(host) => host,
        None => "your Indexer"@,
    }
}

/// What an unreachable Indexer is called, from the host that its address has.
pub fn shown_host(host: Option<String>) -> (r: String)
    ensures
        r@ == host_or_indexer(
            match host {
                Some(h) => Some(h@),
                None => None,
            },
        ),
{
    match host {
        Some(host) => host,
        None => "your Indexer".to_string(),
    }
}

/// What the Indexer at an address is called when it cannot be reached.
pub fn indexer_name(uri: &str) -> (r: String)
    ensures
        r@ == host_or_indexer(host_in(uri@)),
{
    shown_host(host(uri))
}

/// The address to connect to: the one given, or a default where it is no URI.
pub open spec fn uri_or_default(valid: bool, uri: Seq<char>, default_uri: Seq<char>) -> Seq<char> {
    if valid {
        uri
    } else {
        default_uri
    }
}

/// The address to connect to, given whether the one at hand is a URI.
pub fn pick_uri(valid: bool, uri: &str, default_uri: &str) -> (r: String)
    ensures
        r@ == uri_or_default(valid, uri@, default_uri@),
{
    if valid {
        uri.to_string()
    } else {
        default_uri.to_string()
    }
}

/// The address to connect to: the one given, or the default where it is no URI.
pub fn connect_uri(uri: &str, default_uri: &str) -> (r: String)
    ensures
        r@ == uri_or_default(is_uri(uri@), uri@, default_uri@),
{
    pick_uri(parses(uri), uri, default_uri)
}

/// An address that is a URI is kept as it is, and only one that is none gives way to the
/// default; a server is called by its host wherever its address has one.
pub proof fn a_good_address_is_kept(
    uri: Seq<char>,
    default_uri: Seq<char>,
    host: Seq<char>,
)
    ensures
        uri_or_default(true, uri, default_uri) == uri,
        uri_or_default(false, uri, default_uri) == default_uri,
        host_or_indexer(Some(host)) == host,
        host_or_indexer(None) == "your Indexer"@,
{
}

/// An Indexer is called by the host that its address has, and connected to at its address
/// wherever that is one.
pub proof fn an_indexer_goes_by_its_address(
    address: &str,
    name: String,
    default_uri: &str,
    connected: String,
)
    requires
        call_ensures(indexer_name, (address,), name),
        call_ensures(connect_uri, (address, default_uri), connected),
    ensures
        host_in(address@) matches Some(host) ==> name@ == host,
        host_in(address@) is None ==> name@ == "your Indexer"@,
        is_uri(address@) ==> connected@ == address@,
        !is_uri(address@) ==> connected@ == default_uri@,
{
}

} // verus!
