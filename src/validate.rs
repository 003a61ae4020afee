use vstd::prelude::*;
use crate::error::AppError;

verus! {

#[verifier::external_type_specification]
#[verifier::external_body]
pub struct ExParseError(url::ParseError);

/// What the URL parser makes of a string: `None` where it is no absolute URL,
/// else its normalized serialization.
pub uninterp spec fn url_parse_of(s: Seq<char>) -> Option<Seq<char>>;

/// Relies on `url::Url::parse`, and on `From<Url> for String` for the
/// serialization of what it parsed.
#[verifier::external_body]
fn parse_url(s: &str) -> (r: Result<String, url::ParseError>)
    ensures
        r is Ok <==> url_parse_of(s@) is Some,
        r is Ok ==> r->Ok_0@ == url_parse_of(s@)->Some_0,
{
    url::Url::parse(s).map(String::from)
}

/// A control character or a space, which the parser trims from the start.
pub open spec fn is_leading_blank(c: char) -> bool {
    (c as u32) <= 32
}

/// A character that may begin a scheme: an ASCII letter.
pub open spec fn is_scheme_start(c: char) -> bool {
    let v = c as u32;
    (65 <= v && v <= 90) || (97 <= v && v <= 122)
}

/// A character that may continue a scheme: an ASCII letter or digit, `+`, `-`
/// or `.`.
pub open spec fn is_scheme_char(c: char) -> bool {
    let v = c as u32;
    is_scheme_start(c) || (48 <= v && v <= 57) || v == 43 || v == 45 || v == 46
}

/// `s` holds, after blanks at `0..a`, a scheme at `a..b`, then `://`.
pub open spec fn scheme_then_authority(s: Seq<char>, a: int, b: int) -> bool {
    &&& 0 <= a < b
    &&& b + 3 <= s.len()
    &&& forall|i: int| 0 <= i < a ==> #[trigger] is_leading_blank(s[i])
    &&& is_scheme_start(s[a])
    &&& forall|i: int| a < i < b ==> #[trigger] is_scheme_char(s[i])
    &&& s[b] == ':'
    &&& s[b + 1] == '/'
    &&& s[b + 2] == '/'
}

/// `s` names a scheme followed by an authority (`scheme://...`).
pub open spec fn has_authority(s: Seq<char>) -> bool {
    exists|a: int, b: int| scheme_then_authority(s, a, b)
}

/// Tells whether `s` names a scheme followed by an authority.
pub fn check_authority(s: &str) -> (r: bool)
    ensures
        r == has_authority(s@),
{
    let n = s.unicode_len();
    let mut a: usize = 0;
    while a < n && (s.get_char(a) as u32) <= 32
        invariant
            n == s@.len(),
            a <= n,
            forall|i: int| 0 <= i < a ==> #[trigger] is_leading_blank(s@[i]),
        decreases n - a,
    {
        a = a + 1;
    }
    if a >= n || !scheme_start(s.get_char(a)) {
        proof {
            assert forall|x: int, y: int| !scheme_then_authority(s@, x, y) by {
                if scheme_then_authority(s@, x, y) {
                    if x < a {
                        assert(is_leading_blank(s@[x]));
                    } else if x > a {
                        assert(is_leading_blank(s@[a as int]));
                    }
                }
            }
        }
        return false;
    }
    let mut b: usize = a + 1;
    while b < n && scheme_char(s.get_char(b))
        invariant
            n == s@.len(),
            a < b <= n,
            forall|i: int| a < i < b ==> #[trigger] is_scheme_char(s@[i]),
        decreases n - b,
    {
        b = b + 1;
    }
    let found = n - b >= 3 && s.get_char(b) == ':' && s.get_char(b + 1) == '/' && s.get_char(b + 2)
        == '/';
    proof {
        if found {
            assert(scheme_then_authority(s@, a as int, b as int));
        } else {
            assert forall|x: int, y: int| !scheme_then_authority(s@, x, y) by {
                if scheme_then_authority(s@, x, y) {
                    if x < a {
                        assert(is_leading_blank(s@[x]));
                    } else if x > a {
                        assert(is_leading_blank(s@[a as int]));
                    } else if y < b {
                        assert(is_scheme_char(s@[y]));
                    } else if y > b {
                        assert(is_scheme_char(s@[b as int]));
                    }
                }
            }
        }
    }
    found
}

fn scheme_start(c: char) -> (r: bool)
    ensures
        r == is_scheme_start(c),
{
    let v = c as u32;
    (65 <= v && v <= 90) || (97 <= v && v <= 122)
}

fn scheme_char(c: char) -> (r: bool)
    ensures
        r == is_scheme_char(c),
{
    let v = c as u32;
    scheme_start(c) || (48 <= v && v <= 57) || v == 43 || v == 45 || v == 46
}

/// The normalized form of `s` where it is an absolute URL with a scheme and
/// an authority; `None` where it is not.
pub open spec fn normalized_url(s: Seq<char>) -> Option<Seq<char>> {
    if has_authority(s) {
        url_parse_of(s)
    } else {
        None
    }
}

/// Checks that `input` is an absolute URL with a scheme and an authority, and
/// returns its normalized form.
pub fn validate_url(input: &str) -> (r: Result<String, AppError>)
    ensures
        r is Ok <==> normalized_url(input@) is Some,
        r is Ok ==> r->Ok_0@ == normalized_url(input@)->Some_0,
        r is Err ==> r->Err_0 is URLParseError,
{
    if !check_authority(input) {
        return Err(AppError::URLParseError);
    }
    match parse_url(input) {
        Ok(normalized) => Ok(normalized),
        Err(_) => Err(AppError::URLParseError),
    }
}

} // verus!
