//! Encoding of project references for use in URL paths.
//!
//! A project is addressed either by a numeric ID or by a slash-separated
//! path such as `owner/name`.  Before such a reference enters a URL path
//! segment, each `/` must become `%2F` while every other character passes
//! through untouched.  Full percent-encoding (for the delete endpoint) is
//! delegated to an outside encoder with an exact contract.

use crate::numfmt::digit_char;
use vstd::prelude::*;
use vstd::string::StringSliceAdditionalSpecFns;

verus! {

/// What a single character of a project reference becomes in a URL path:
/// `/` becomes `%2F`; every other character is kept as it is.
pub open spec fn encode_ref_char(c: char) -> Seq<char> {
    if c == '/' {
        seq!['%', '2', 'F']
    } else {
        seq![c]
    }
}

/// The encoded form of a whole project reference.
pub open spec fn spec_encode_project_ref(s: Seq<char>) -> Seq<char>
    decreases s.len(),
{
    if s.len() == 0 {
        Seq::empty()
    } else {
        spec_encode_project_ref(s.drop_last()) + encode_ref_char(s.last())
    }
}

/// Encodes a project reference for a URL path segment: exactly the `/`
/// characters are replaced by `%2F`, and nothing else is changed.
/// A numeric ID contains no `/` and passes through unmodified.
pub fn encode_project_id(project: &str) -> (r: String)
    ensures
        r@ == spec_encode_project_ref(project@),
{
    let n = project.unicode_len();
    let mut out = String::new();
    let mut i: usize = 0;
    while i < n
        invariant
            i <= n,
            n == project@.len(),
            out@ == spec_encode_project_ref(project@.take(i as int)),
        decreases n - i,
    {
        let c = project.get_char(i);
        if c == '/' {
            proof {
                reveal_strlit("%2F");
            }
            out.append("%2F");
            assert("%2F"@ =~= encode_ref_char(c));
        } else {
            let piece = project.substring_char(i, i + 1);
            assert(piece@ =~= encode_ref_char(c));
            out.append(piece);
        }
        proof {
            let t = project@.take(i + 1 as int);
            assert(t.drop_last() =~= project@.take(i as int));
            assert(t.last() == project@[i as int]);
            assert(out@ =~= spec_encode_project_ref(t));
        }
        i = i + 1;
    }
    proof {
        assert(project@.take(n as int) =~= project@);
    }
    out
}

/// A reference without `/` is left exactly as it was by the encoding.
pub proof fn lemma_encode_without_slash_is_identity(s: Seq<char>)
    requires
        forall|i: int| 0 <= i < s.len() ==> s[i] != '/',
    ensures
        spec_encode_project_ref(s) == s,
    decreases s.len(),
{
    if s.len() == 0 {
        assert(spec_encode_project_ref(s) =~= s);
    } else {
        lemma_encode_without_slash_is_identity(s.drop_last());
        assert(spec_encode_project_ref(s) =~= s);
    }
}

/// The encoded form of a reference is fit for one URL path segment:
/// no `/` survives the encoding.
pub proof fn lemma_encoded_ref_has_no_slash(s: Seq<char>)
    ensures
        forall|i: int|
            0 <= i < spec_encode_project_ref(s).len() ==> spec_encode_project_ref(s)[i] != '/',
    decreases s.len(),
{
    if s.len() > 0 {
        lemma_encoded_ref_has_no_slash(s.drop_last());
        let e = spec_encode_project_ref(s);
        let p = spec_encode_project_ref(s.drop_last());
        let t = encode_ref_char(s.last());
        assert forall|i: int| 0 <= i < e.len() implies e[i] != '/' by {
            if i < p.len() {
                assert(e[i] == p[i]);
            } else {
                assert(e[i] == t[i - p.len()]);
            }
        }
    }
}

/// A byte that percent-encoding leaves unchanged: ASCII alphanumerics
/// and `-`, `.`, `_`, `~`.
pub open spec fn is_url_unreserved_byte(b: u8) -> bool {
    (48 <= b <= 57) || (65 <= b <= 90) || (97 <= b <= 122) || b == 45 || b == 46 || b == 95
        || b == 126
}

/// The uppercase hexadecimal digit character for a value below sixteen.
pub open spec fn upper_hex_char(d: nat) -> char {
    if d < 10 {
        digit_char(d)
    } else if d == 10 {
        'A'
    } else if d == 11 {
        'B'
    } else if d == 12 {
        'C'
    } else if d == 13 {
        'D'
    } else if d == 14 {
        'E'
    } else {
        'F'
    }
}

/// What one byte becomes under percent-encoding.
pub open spec fn percent_byte(b: u8) -> Seq<char> {
    if is_url_unreserved_byte(b) {
        seq![b as char]
    } else {
        seq!['%', upper_hex_char((b / 16) as nat), upper_hex_char((b % 16) as nat)]
    }
}

/// The percent-encoded form of a byte string.
pub open spec fn percent_encoded(bs: Seq<u8>) -> Seq<char>
    decreases bs.len(),
{
    if bs.len() == 0 {
        Seq::empty()
    } else {
        percent_encoded(bs.drop_last()) + percent_byte(bs.last())
    }
}

/// Relies on `urlencoding::encode`: percent-encodes every byte of the
/// UTF-8 form of `s` except ASCII alphanumerics and `-`, `_`, `.`, `~`,
/// writing two uppercase hexadecimal digits after each `%`.
#[verifier::external_body]
pub(crate) fn urlencode(s: &str) -> (r: String)
    ensures
        r@ == percent_encoded(s.spec_bytes()),
{
    urlencoding::encode(s).into_owned()
}

/// The separator standing before the query pair at position `i`.
pub open spec fn query_separator(i: int) -> Seq<char> {
    if i == 0 {
        seq!['?']
    } else {
        seq!['&']
    }
}

/// The query string of a list of key/value pairs, each side
/// percent-encoded: empty for no pairs, else
/// `?k0=v0&k1=v1&...` over the pairs' UTF-8 bytes.
pub open spec fn spec_query_string(pairs: Seq<(Seq<u8>, Seq<u8>)>) -> Seq<char>
    decreases pairs.len(),
{
    if pairs.len() == 0 {
        Seq::empty()
    } else {
        spec_query_string(pairs.drop_last()) + query_separator(pairs.len() - 1)
            + percent_encoded(pairs.last().0) + seq!['='] + percent_encoded(pairs.last().1)
    }
}

/// The UTF-8 byte views of a list of key/value string pairs.
pub open spec fn pairs_bytes_view(v: Seq<(String, String)>) -> Seq<(Seq<u8>, Seq<u8>)> {
    Seq::new(
        v.len(),
        |i: int| (vstd::utf8::encode_utf8(v[i].0@), vstd::utf8::encode_utf8(v[i].1@)),
    )
}

/// Renders a query parameter list as the query string appended to a
/// request URL: nothing for an empty list, else `?` before the first
/// pair, `&` before each further pair, both sides percent-encoded.
pub fn query_string(query: &Vec<(String, String)>) -> (r: String)
    ensures
        r@ == spec_query_string(pairs_bytes_view(query@)),
{
    let ghost pview = pairs_bytes_view(query@);
    let mut out = String::new();
    let mut i: usize = 0;
    proof {
        assert(pview.take(0) =~= Seq::<(Seq<u8>, Seq<u8>)>::empty());
    }
    while i < query.len()
        invariant
            i <= query.len(),
            pview == pairs_bytes_view(query@),
            out@ == spec_query_string(pview.take(i as int)),
        decreases query.len() - i,
    {
        if i == 0 {
            out.append("?");
            proof {
                reveal_strlit("?");
                assert("?"@ =~= query_separator(i as int));
            }
        } else {
            out.append("&");
            proof {
                reveal_strlit("&");
                assert("&"@ =~= query_separator(i as int));
            }
        }
        let key = urlencode(query[i].0.as_str());
        out.append(key.as_str());
        out.append("=");
        proof {
            reveal_strlit("=");
            assert("="@ =~= seq!['=']);
        }
        let value = urlencode(query[i].1.as_str());
        out.append(value.as_str());
        proof {
            let t = pview.take(i + 1 as int);
            assert(t.drop_last() =~= pview.take(i as int));
            assert(t.last() == pview[i as int]);
            assert(out@ =~= spec_query_string(t));
        }
        i = i + 1;
    }
    proof {
        assert(pview.take(query@.len() as int) =~= pview);
    }
    out
}

} // verus!
