//! The naming convention: extracting a URL from an item key and deriving
//! the names of the objects that belong to that URL.

use vstd::prelude::*;
use vstd::string::*;

verus! {

/// The fixed prefix of an item key that follows the convention.
pub open spec fn key_prefix() -> Seq<char> {
    "vhost.item["@
}

/// The fixed suffix of an item key that follows the convention.
pub open spec fn key_suffix() -> Seq<char> {
    "]"@
}

/// The key that the convention assigns to a URL: `vhost.item[<url>]`.
pub open spec fn key_of_url(url: Seq<char>) -> Seq<char> {
    key_prefix() + url + key_suffix()
}

/// Whether an item key follows the convention: it starts with
/// `vhost.item[`, ends with `]`, and is long enough to hold both.
pub open spec fn key_matches(key: Seq<char>) -> bool {
    &&& key.len() >= 12
    &&& key.subrange(0, 11) == key_prefix()
    &&& key[key.len() - 1] == ']'
}

/// The URL captured by a matching key: everything strictly between the
/// prefix and the closing bracket.
pub open spec fn url_of_key(key: Seq<char>) -> Seq<char> {
    key.subrange(11, key.len() - 1)
}

/// Extracts the URL from an item key, or reports that the key does not
/// follow the convention.
pub fn extract_url(key: &str) -> (r: Option<String>)
    ensures
        r is Some <==> key_matches(key@),
        r matches Some(url) ==> url@ == url_of_key(key@),
{
    proof {
        reveal_strlit("vhost.item[");
        reveal_strlit("]");
    }
    let prefix = "vhost.item[";
    let n = key.unicode_len();
    if n < 12 {
        return None;
    }
    let mut i: usize = 0;
    while i < 11
        invariant
            0 <= i <= 11,
            n == key@.len(),
            n >= 12,
            prefix@ == key_prefix(),
            prefix@.len() == 11,
            forall|j: int| 0 <= j < i ==> key@[j] == prefix@[j],
        decreases 11 - i,
    {
        if key.get_char(i) != prefix.get_char(i) {
            proof {
                assert(key@.subrange(0, 11)[i as int] != key_prefix()[i as int]);
            }
            return None;
        }
        i += 1;
    }
    assert(key@.subrange(0, 11) =~= key_prefix());
    if key.get_char(n - 1) != ']' {
        proof {
            assert(key_suffix()[0] == ']');
        }
        return None;
    }
    let url = key.substring_char(11, n - 1);
    Some(url.to_owned())
}

/// The naming convention round trip: the key formed from any URL matches
/// the convention, and extraction returns exactly that URL, with nothing
/// of the surrounding prefix or brackets leaking into it.
pub proof fn lemma_url_round_trip(url: Seq<char>)
    ensures
        key_matches(key_of_url(url)),
        url_of_key(key_of_url(url)) == url,
{
    reveal_strlit("vhost.item[");
    reveal_strlit("]");
    let key = key_of_url(url);
    assert(key.len() == url.len() + 12);
    assert(key.subrange(0, 11) =~= key_prefix());
    assert(key[key.len() - 1] == ']');
    assert(url_of_key(key) =~= url);
}

/// The name of the web scenario derived for a URL: `Check index page '<url>'`.
pub open spec fn scenario_name_of(url: Seq<char>) -> Seq<char> {
    "Check index page '"@ + url + "'"@
}

/// Builds the derived web-scenario name for a URL.
pub fn scenario_name(url: &str) -> (r: String)
    ensures
        r@ == scenario_name_of(url@),
{
    let mut s = String::from_str("Check index page '");
    s.append(url);
    s.append("'");
    proof {
        assert(s@ =~= scenario_name_of(url@));
    }
    s
}

/// The description of the trigger derived for a URL.
pub open spec fn trigger_description_of(url: Seq<char>) -> Seq<char> {
    "Site '"@ + url + "' is unavailable"@
}

/// Builds the derived trigger description for a URL.
pub fn trigger_description(url: &str) -> (r: String)
    ensures
        r@ == trigger_description_of(url@),
{
    let mut s = String::from_str("Site '");
    s.append(url);
    s.append("' is unavailable");
    proof {
        assert(s@ =~= trigger_description_of(url@));
    }
    s
}

/// The alerting expression of the trigger derived for a host and URL: it
/// fires when the derived web scenario reports a failed step on that host.
pub open spec fn trigger_expression_of(host: Seq<char>, url: Seq<char>) -> Seq<char> {
    "{"@ + host + ":web.test.fail["@ + scenario_name_of(url) + "].last()}<>0"@
}

/// Builds the derived trigger expression for a host and URL.
pub fn trigger_expression(host: &str, url: &str) -> (r: String)
    ensures
        r@ == trigger_expression_of(host@, url@),
{
    let mut s = String::from_str("{");
    s.append(host);
    s.append(":web.test.fail[");
    let name = scenario_name(url);
    s.append(name.as_str());
    s.append("].last()}<>0");
    proof {
        assert(s@ =~= trigger_expression_of(host@, url@));
    }
    s
}

} // verus!
