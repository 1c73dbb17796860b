//! Which URLs from terminal content may be handed to the system opener.

use vstd::prelude::*;

verus! {

/// `s` begins with `p`.
pub open spec fn starts_with(s: Seq<char>, p: Seq<char>) -> bool {
    p.len() <= s.len() && s.subrange(0, p.len() as int) == p
}

/// Unicode general category Cc: U+0000–U+001F and U+007F–U+009F.
pub open spec fn spec_is_control(c: char) -> bool {
    (c as u32) <= 0x1F || (0x7F <= (c as u32) && (c as u32) <= 0x9F)
}

/// The Unicode White_Space property.
pub open spec fn spec_is_whitespace(c: char) -> bool {
    let u = c as u32;
    (0x09 <= u && u <= 0x0D) || u == 0x20 || u == 0x85 || u == 0xA0 || u == 0x1680 || (0x2000 <= u
        && u <= 0x200A) || u == 0x2028 || u == 0x2029 || u == 0x202F || u == 0x205F || u == 0x3000
}

/// Characters with a meaning to shells and `cmd`.
pub open spec fn is_shell_meta(c: char) -> bool {
    c == '"' || c == '\'' || c == '&' || c == '|' || c == '<' || c == '>' || c == '^' || c == '`'
        || c == '$' || c == '(' || c == ')' || c == ';'
}

/// The URL uses one of the schemes that are safe to open.
pub open spec fn has_allowed_scheme(s: Seq<char>) -> bool {
    starts_with(s, "http://"@) || starts_with(s, "https://"@) || starts_with(s, "file://"@)
        || starts_with(s, "ftp://"@) || starts_with(s, "ssh://"@) || starts_with(s, "mailto:"@)
}

/// A character that may appear in an openable URL.
pub open spec fn url_char_ok(c: char) -> bool {
    !spec_is_control(c) && !spec_is_whitespace(c) && !is_shell_meta(c)
}

/// An allowed scheme, and no control, whitespace or shell
/// metacharacter anywhere.
pub open spec fn spec_is_openable_url(s: Seq<char>) -> bool {
    has_allowed_scheme(s) && forall|i: int| 0 <= i < s.len() ==> url_char_ok(#[trigger] s[i])
}

fn has_prefix(s: &str, p: &str) -> (r: bool)
    ensures
        r == starts_with(s@, p@),
{
    let n = s.unicode_len();
    let m = p.unicode_len();
    if m > n {
        return false;
    }
    let mut i: usize = 0;
    while i < m
        invariant
            m == p@.len(),
            n == s@.len(),
            m <= n,
            i <= m,
            forall|j: int| 0 <= j < i ==> s@[j] == p@[j],
        decreases m - i,
    {
        if s.get_char(i) != p.get_char(i) {
            assert(s@.subrange(0, m as int)[i as int] != p@[i as int]);
            return false;
        }
        i = i + 1;
    }
    assert(s@.subrange(0, m as int) =~= p@);
    true
}

fn char_ok(c: char) -> (r: bool)
    ensures
        r == url_char_ok(c),
{
    let u = c as u32;
    let control = u <= 0x1F || (0x7F <= u && u <= 0x9F);
    let space = (0x09 <= u && u <= 0x0D) || u == 0x20 || u == 0x85 || u == 0xA0 || u == 0x1680
        || (0x2000 <= u && u <= 0x200A) || u == 0x2028 || u == 0x2029 || u == 0x202F || u == 0x205F
        || u == 0x3000;
    let meta = c == '"' || c == '\'' || c == '&' || c == '|' || c == '<' || c == '>' || c == '^'
        || c == '`' || c == '$' || c == '(' || c == ')' || c == ';';
    !control && !space && !meta
}

/// Whether a string looks like a URL we are willing to open.
///
/// Besides a known scheme, this rejects whitespace, control characters and
/// shell metacharacters, which could otherwise inject commands through the
/// Windows opener when the URL comes from untrusted terminal output.
pub fn is_openable_url(s: &str) -> (r: bool)
    ensures
        r == spec_is_openable_url(s@),
{
    if !(has_prefix(s, "http://") || has_prefix(s, "https://") || has_prefix(s, "file://")
        || has_prefix(s, "ftp://") || has_prefix(s, "ssh://") || has_prefix(s, "mailto:")) {
        return false;
    }
    let n = s.unicode_len();
    let mut i: usize = 0;
    while i < n
        invariant
            n == s@.len(),
            i <= n,
            forall|j: int| 0 <= j < i ==> url_char_ok(#[trigger] s@[j]),
        decreases n - i,
    {
        if !char_ok(s.get_char(i)) {
            return false;
        }
        i = i + 1;
    }
    true
}

/// A character of an ordinary URL: an ASCII letter or digit, or one of
/// `- . _ ~ / : ? # = % @ + , ! *`.
pub open spec fn plain_url_char(c: char) -> bool {
    ('a' <= c && c <= 'z') || ('A' <= c && c <= 'Z') || ('0' <= c && c <= '9') || c == '-' || c == '.'
        || c == '_' || c == '~' || c == '/' || c == ':' || c == '?' || c == '#' || c == '=' || c == '%'
        || c == '@' || c == '+' || c == ',' || c == '!' || c == '*'
}

/// Every URL with one of the schemes `http://`, `https://`, `file://`,
/// `ftp://`, `ssh://` or `mailto:` whose characters are all ordinary URL
/// characters may be opened.
pub proof fn law_known_schemes_open(s: Seq<char>)
    requires
        forall|i: int| 0 <= i < s.len() ==> plain_url_char(#[trigger] s[i]),
    ensures
        starts_with(s, "http://"@) ==> spec_is_openable_url(s),
        starts_with(s, "https://"@) ==> spec_is_openable_url(s),
        starts_with(s, "file://"@) ==> spec_is_openable_url(s),
        starts_with(s, "ftp://"@) ==> spec_is_openable_url(s),
        starts_with(s, "ssh://"@) ==> spec_is_openable_url(s),
        starts_with(s, "mailto:"@) ==> spec_is_openable_url(s),
{
    assert forall|i: int| 0 <= i < s.len() implies url_char_ok(#[trigger] s[i]) by {
        assert(plain_url_char(s[i]));
    }
}

/// A URL that may be opened starts with one of those six schemes and
/// holds no control character (below U+0020 or DEL), no space or tab, and
/// none of `" ' & | < > ^ ` $ ( ) ;`.
pub proof fn law_openable_urls_are_safe(s: Seq<char>)
    requires
        spec_is_openable_url(s),
    ensures
        starts_with(s, "http://"@) || starts_with(s, "https://"@) || starts_with(s, "file://"@)
            || starts_with(s, "ftp://"@) || starts_with(s, "ssh://"@) || starts_with(s, "mailto:"@),
        forall|i: int|
            0 <= i < s.len() ==> {
                let c = #[trigger] s[i];
                &&& (c as u32) >= 0x20
                &&& c != '\x7f'
                &&& c != ' '
                &&& c != '\t'
                &&& c != '"' && c != '\'' && c != '&' && c != '|' && c != '<' && c != '>'
                &&& c != '^' && c != '`' && c != '$' && c != '(' && c != ')' && c != ';'
            },
{
    assert forall|i: int| 0 <= i < s.len() implies url_char_ok(#[trigger] s[i]) by {}
}

} // verus!
