//! Construction of the request URL, and its syntactic validity: a URL
//! built from URL-safe pieces starts with the https scheme and holds
//! only characters that a URL may contain.

use vstd::prelude::*;
use crate::location::{joined_with_commas, views_of, LocationQuery};

verus! {

/// A character that may stand in a URL: the unreserved, reserved and
/// percent characters of the generic URI syntax.
pub open spec fn is_url_char(c: char) -> bool {
    ||| 'a' <= c <= 'z'
    ||| 'A' <= c <= 'Z'
    ||| '0' <= c <= '9'
    ||| c == '-' || c == '.' || c == '_' || c == '~'
    ||| c == ':' || c == '/' || c == '?' || c == '#'
    ||| c == '[' || c == ']' || c == '@'
    ||| c == '!' || c == '$' || c == '&' || c == '\'' || c == '(' || c == ')'
    ||| c == '*' || c == '+' || c == ',' || c == ';' || c == '=' || c == '%'
}

/// Every character of the sequence may stand in a URL.
pub open spec fn all_url_chars(s: Seq<char>) -> bool {
    forall|i: int| 0 <= i < s.len() ==> is_url_char(#[trigger] s[i])
}

/// A sequence is a syntactically well-formed URL for our purposes when
/// it starts with the https scheme, has something after it, and holds
/// only URL-permitted characters.
pub open spec fn valid_url(s: Seq<char>) -> bool {
    &&& s.len() > "https://"@.len()
    &&& s.subrange(0, "https://"@.len() as int) == "https://"@
    &&& all_url_chars(s)
}

/// The exact request URL for a given API key and location parts: the
/// fixed endpoint, the `appid` parameter, the comma-joined `q`
/// parameter, and `units=imperial`.
pub open spec fn weather_url(key: Seq<char>, parts: Seq<Seq<char>>) -> Seq<char> {
    "https://api.openweathermap.org/data/2.5/weather"@ + "?appid="@ + key + "&q="@
        + joined_with_commas(parts) + "&units=imperial"@
}

/// Build the request URL for the given API key and location query.
pub fn build_url(api_key: &str, query: &LocationQuery) -> (r: String)
    ensures
        r@ == weather_url(api_key@, views_of(query.parts@)),
{
    let mut url = String::from_str("https://api.openweathermap.org/data/2.5/weather");
    url.append("?appid=");
    url.append(api_key);
    url.append("&q=");
    let joined = query.joined();
    url.append(joined.as_str());
    url.append("&units=imperial");
    url
}

proof fn lemma_all_url_chars_concat(a: Seq<char>, b: Seq<char>)
    requires
        all_url_chars(a),
        all_url_chars(b),
    ensures
        all_url_chars(a + b),
{
    assert forall|i: int| 0 <= i < (a + b).len() implies is_url_char((a + b)[i]) by {
        if i < a.len() {
            assert((a + b)[i] == a[i]);
        } else {
            assert((a + b)[i] == b[i - a.len()]);
        }
    }
}

proof fn lemma_all_url_chars_join(parts: Seq<Seq<char>>)
    requires
        forall|i: int| 0 <= i < parts.len() ==> all_url_chars(#[trigger] parts[i]),
    ensures
        all_url_chars(joined_with_commas(parts)),
    decreases parts.len(),
{
    if parts.len() <= 1 {
    } else {
        assert(forall|i: int| 0 <= i < parts.drop_first().len()
            ==> all_url_chars(#[trigger] parts.drop_first()[i]));
        lemma_all_url_chars_join(parts.drop_first());
        assert(all_url_chars(seq![',']));
        lemma_all_url_chars_concat(parts[0], seq![',']);
        lemma_all_url_chars_concat(parts[0] + seq![','], joined_with_commas(parts.drop_first()));
    }
}

/// Law: the URL built from a URL-safe API key and URL-safe location
/// parts is a syntactically valid URL, whatever the number of parts.
pub proof fn lemma_built_url_is_valid(key: Seq<char>, parts: Seq<Seq<char>>)
    requires
        all_url_chars(key),
        forall|i: int| 0 <= i < parts.len() ==> all_url_chars(#[trigger] parts[i]),
    ensures
        valid_url(weather_url(key, parts)),
{
    reveal_strlit("https://");
    reveal_strlit("https://api.openweathermap.org/data/2.5/weather");
    reveal_strlit("?appid=");
    reveal_strlit("&q=");
    reveal_strlit("&units=imperial");
    let base = "https://api.openweathermap.org/data/2.5/weather"@;
    assert(all_url_chars(base));
    assert(all_url_chars("?appid="@));
    assert(all_url_chars("&q="@));
    assert(all_url_chars("&units=imperial"@));
    lemma_all_url_chars_join(parts);
    lemma_all_url_chars_concat(base, "?appid="@);
    lemma_all_url_chars_concat(base + "?appid="@, key);
    lemma_all_url_chars_concat(base + "?appid="@ + key, "&q="@);
    lemma_all_url_chars_concat(base + "?appid="@ + key + "&q="@, joined_with_commas(parts));
    lemma_all_url_chars_concat(
        base + "?appid="@ + key + "&q="@ + joined_with_commas(parts),
        "&units=imperial"@,
    );
    let u = weather_url(key, parts);
    assert(u.subrange(0, 8) =~= "https://"@);
}

/// Exec check of the same syntactic validity, for callers that hold a
/// URL as a string.
pub fn is_valid_url_str(s: &str) -> (b: bool)
    ensures
        b == valid_url(s@),
{
    proof {
        reveal_strlit("https://");
    }
    let scheme = "https://";
    let n = s.unicode_len();
    if n <= 8 {
        return false;
    }
    for i in 0..8
        invariant
            n == s@.len() > 8,
            scheme@ == "https://"@,
            scheme@.len() == 8,
            forall|j: int| 0 <= j < i ==> s@[j] == scheme@[j],
    {
        if s.get_char(i) != scheme.get_char(i) {
            proof {
                assert(s@.subrange(0, 8)[i as int] == s@[i as int]);
            }
            return false;
        }
    }
    proof {
        assert(s@.subrange(0, 8) =~= "https://"@);
    }
    for i in 0..n
        invariant
            n == s@.len() > 8,
            s@.subrange(0, 8) == "https://"@,
            forall|j: int| 0 <= j < i ==> is_url_char(#[trigger] s@[j]),
    {
        if !is_url_char_exec(s.get_char(i)) {
            return false;
        }
    }
    true
}

/// Exec form of `is_url_char`.
fn is_url_char_exec(c: char) -> (b: bool)
    ensures
        b == is_url_char(c),
{
    ('a' <= c && c <= 'z') || ('A' <= c && c <= 'Z') || ('0' <= c && c <= '9') || c == '-'
        || c == '.' || c == '_' || c == '~' || c == ':' || c == '/' || c == '?' || c == '#'
        || c == '[' || c == ']' || c == '@' || c == '!' || c == '$' || c == '&' || c == '\''
        || c == '(' || c == ')' || c == '*' || c == '+' || c == ',' || c == ';' || c == '='
        || c == '%'
}

} // verus!
