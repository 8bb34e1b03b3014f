//! Relay addresses: the host that the WebSocket upgrade names.
use vstd::prelude::*;
use crate::connection::ConnectionError;

verus! {

#[verifier::external_type_specification]
#[verifier::external_body]
pub struct ExUri(http::Uri);

/// The authority that `http` parses out of an address: `None` where the
/// address is not a URI, `Some(None)` where it has no authority.
pub uninterp spec fn uri_authority(url: Seq<char>) -> Option<Option<Seq<char>>>;

/// Relies on `http::Uri`'s `FromStr` and on `Uri::authority`: the parsed URI
/// and its authority text, which depend on the address alone.
#[verifier::external_body]
fn parse_uri(url: &str) -> (r: Option<(http::Uri, Option<String>)>)
    ensures
        r is None <==> uri_authority(url@) is None,
        r matches Some((_, None)) ==> uri_authority(url@) == Some(None::<Seq<char>>),
        r matches Some((_, Some(a))) ==> uri_authority(url@) == Some(Some(a@)),
{
    let uri = url.parse::<http::Uri>().ok()?;
    let authority = uri.authority().map(|a| a.as_str().to_owned());
    Some((uri, authority))
}

/// Whether `i` is the position of the first `@` of `s`.
pub open spec fn first_at(s: Seq<char>, i: int) -> bool {
    0 <= i < s.len() && s[i] == '@' && forall|j: int| 0 <= j < i ==> s[j] != '@'
}

/// The host of an authority: what follows its first `@` (the user
/// information ends there), or the whole authority where it has none.
pub open spec fn host_of(authority: Seq<char>) -> Seq<char> {
    if exists|i: int| first_at(authority, i) {
        let i = choose|i: int| first_at(authority, i);
        authority.subrange(i + 1, authority.len() as int)
    } else {
        authority
    }
}

/// The host of an authority, as [`host_of`] defines it.
pub fn host_of_authority(authority: &str) -> (r: String)
    ensures
        r@ == host_of(authority@),
{
    let n = authority.unicode_len();
    let mut i: usize = 0;
    while i < n
        invariant
            n == authority@.len(),
            i <= n,
            forall|j: int| 0 <= j < i ==> authority@[j] != '@',
        decreases n - i,
    {
        if authority.get_char(i) == '@' {
            assert(first_at(authority@, i as int));
            proof {
                let k = choose|k: int| first_at(authority@, k);
                assert(k == i) by {
                    if k < i {
                        assert(authority@[k] != '@');
                    } else if k > i {
                        assert(authority@[i as int] != '@');
                    }
                }
            }
            return String::from_str(authority.substring_char(i + 1, n));
        }
        i = i + 1;
    }
    assert(!exists|k: int| first_at(authority@, k));
    String::from_str(authority)
}

/// Splits a relay address into the host for the upgrade request and the
/// parsed URI. An address that is no URI, has no authority, or whose host is
/// empty is refused with `AddressError`.
pub fn url_to_host_and_uri(url: &str) -> (r: Result<(String, http::Uri), ConnectionError>)
    ensures
        r is Ok <==> (uri_authority(url@) matches Some(Some(a)) && host_of(a).len() > 0),
        r matches Ok((h, _)) ==> (uri_authority(url@) matches Some(Some(a)) && h@ == host_of(a)),
        r matches Err(e) ==> e == ConnectionError::AddressError,
{
    match parse_uri(url) {
        None => Err(ConnectionError::AddressError),
        Some((_, None)) => Err(ConnectionError::AddressError),
        Some((uri, Some(authority))) => {
            let host = host_of_authority(authority.as_str());
            if host.unicode_len() == 0 {
                Err(ConnectionError::AddressError)
            } else {
                Ok((host, uri))
            }
        },
    }
}

} // verus!
