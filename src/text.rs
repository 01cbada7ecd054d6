//! Turning a raw chunk of client input into a trimmed line of text, and
//! comparing text against literals.
use vstd::prelude::*;
use vstd::string::*;

verus! {

/// The text that `bytes` decode to, each invalid sequence replaced by U+FFFD.
pub uninterp spec fn lossy_text_of(bytes: Seq<u8>) -> Seq<char>;

/// `s` with leading and trailing Unicode whitespace removed.
pub uninterp spec fn trimmed_of(s: Seq<char>) -> Seq<char>;

/// Relies on `String::from_utf8_lossy`: decoding depends on the bytes alone.
#[verifier::external_body]
fn decode_lossy(bytes: &[u8]) -> (r: String)
    ensures
        r@ == lossy_text_of(bytes@),
{
    String::from_utf8_lossy(bytes).into_owned()
}

/// Relies on `str::trim`: the result depends on the text alone.
#[verifier::external_body]
fn trim_text(s: &str) -> (r: &str)
    ensures
        r@ == trimmed_of(s@),
{
    s.trim()
}

/// The line a chunk of client input carries: decoded leniently, then trimmed.
pub open spec fn line_of(chunk: Seq<u8>) -> Seq<char> {
    trimmed_of(lossy_text_of(chunk))
}

/// Decodes `chunk` leniently and trims it.
pub fn line_from_chunk(chunk: &[u8]) -> (r: String)
    ensures
        r@ == line_of(chunk@),
{
    let text = decode_lossy(chunk);
    let line = trim_text(text.as_str());
    line.to_string()
}

/// Whether two texts hold the same characters.
pub fn text_equal(a: &str, b: &str) -> (r: bool)
    ensures
        r == (a@ == b@),
{
    let n = a.unicode_len();
    if n != b.unicode_len() {
        return false;
    }
    let mut i: usize = 0;
    while i < n
        invariant
            n == a@.len(),
            n == b@.len(),
            i <= n,
            forall|j: int| 0 <= j < i ==> a@[j] == b@[j],
        decreases n - i,
    {
        if a.get_char(i) != b.get_char(i) {
            return false;
        }
        i = i + 1;
    }
    assert(a@ =~= b@);
    true
}

/// Whether `s` is one or more copies of `token` and nothing else.
pub open spec fn is_repeated(s: Seq<char>, token: char) -> bool {
    s.len() > 0 && forall|i: int| 0 <= i < s.len() ==> s[i] == token
}

/// Whether `s` is one or more copies of `token` and nothing else.
pub fn is_repeated_exec(s: &str, token: char) -> (r: bool)
    ensures
        r == is_repeated(s@, token),
{
    let n = s.unicode_len();
    if n == 0 {
        return false;
    }
    let mut i: usize = 0;
    while i < n
        invariant
            n == s@.len(),
            i <= n,
            forall|j: int| 0 <= j < i ==> s@[j] == token,
        decreases n - i,
    {
        if s.get_char(i) != token {
            return false;
        }
        i = i + 1;
    }
    true
}

} // verus!
