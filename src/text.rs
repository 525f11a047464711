//! Turning the build tool's captured output into text and an artifact path.
use vstd::prelude::*;
use vstd::utf8::*;
use crate::error::{ErrorView, WrapError};

verus! {

/// The characters with the Unicode White_Space property.
pub open spec fn is_white(c: char) -> bool {
    let u = c as u32;
    ||| 0x09 <= u <= 0x0d
    ||| u == 0x20
    ||| u == 0x85
    ||| u == 0xa0
    ||| u == 0x1680
    ||| 0x2000 <= u <= 0x200a
    ||| u == 0x2028
    ||| u == 0x2029
    ||| u == 0x202f
    ||| u == 0x205f
    ||| u == 0x3000
}

/// True when every character of `s` is whitespace (also when `s` is empty).
pub open spec fn all_white(s: Seq<char>) -> bool {
    forall|i: int| 0 <= i < s.len() ==> is_white(#[trigger] s[i])
}

/// `s` without its leading whitespace.
pub open spec fn trim_start_ws(s: Seq<char>) -> Seq<char>
    decreases s.len(),
{
    if s.len() > 0 && is_white(s[0]) {
        trim_start_ws(s.drop_first())
    } else {
        s
    }
}

/// `s` without its trailing whitespace.
pub open spec fn trim_end_ws(s: Seq<char>) -> Seq<char>
    decreases s.len(),
{
    if s.len() > 0 && is_white(s.last()) {
        trim_end_ws(s.drop_last())
    } else {
        s
    }
}

/// `s` without its leading and trailing whitespace.
pub open spec fn trim_ws(s: Seq<char>) -> Seq<char> {
    trim_end_ws(trim_start_ws(s))
}

/// What stands in for output that is not valid UTF-8.
pub open spec fn invalid_text() -> Seq<char> {
    "<invalid UTF-8>"@
}

/// The output decoded as UTF-8, or the placeholder when it is not valid.
pub open spec fn lossy_spec(b: Seq<u8>) -> Seq<char> {
    if valid_utf8(b) {
        decode_utf8(b)
    } else {
        invalid_text()
    }
}

/// The artifact path that the build tool's output reports: its text with
/// surrounding whitespace removed. It fails when the output is not valid
/// UTF-8 or holds only whitespace.
pub open spec fn artifact_spec(b: Seq<u8>) -> Result<Seq<char>, ErrorView> {
    if !valid_utf8(b) {
        Err(ErrorView::OutputDecoding)
    } else if trim_ws(decode_utf8(b)).len() == 0 {
        Err(ErrorView::ArtifactMissing)
    } else {
        Ok(trim_ws(decode_utf8(b)))
    }
}

proof fn lemma_trim_start_empty(s: Seq<char>)
    ensures
        trim_start_ws(s).len() == 0 <==> all_white(s),
        trim_start_ws(s).len() > 0 ==> !is_white(trim_start_ws(s)[0]),
    decreases s.len(),
{
    if s.len() > 0 && is_white(s[0]) {
        lemma_trim_start_empty(s.drop_first());
        if all_white(s.drop_first()) {
            assert forall|i: int| 0 <= i < s.len() implies is_white(#[trigger] s[i]) by {
                if i > 0 {
                    assert(s[i] == s.drop_first()[i - 1]);
                }
            }
        } else {
            let i = choose|i: int| 0 <= i < s.drop_first().len() && !is_white(#[trigger] s.drop_first()[i]);
            assert(s[i + 1] == s.drop_first()[i]);
        }
    } else if s.len() > 0 {
        assert(!is_white(s[0]));
    }
}

proof fn lemma_trim_end_nonempty(s: Seq<char>)
    requires
        s.len() > 0,
        !is_white(s[0]),
    ensures
        trim_end_ws(s).len() > 0,
    decreases s.len(),
{
    if is_white(s.last()) {
        assert(s.len() > 1);
        assert(s.drop_last()[0] == s[0]);
        lemma_trim_end_nonempty(s.drop_last());
    }
}

/// The trimmed text is empty exactly when the text is all whitespace.
pub proof fn lemma_trim_empty(s: Seq<char>)
    ensures
        trim_ws(s).len() == 0 <==> all_white(s),
{
    lemma_trim_start_empty(s);
    if trim_start_ws(s).len() > 0 {
        lemma_trim_end_nonempty(trim_start_ws(s));
    }
}

/// Relies on std::str::from_utf8: it accepts exactly the well-formed UTF-8
/// byte sequences and yields the characters they encode.
#[verifier::external_body]
fn utf8_text(b: &[u8]) -> (r: Option<&str>)
    ensures
        r is Some <==> valid_utf8(b@),
        r is Some ==> r->0@ == decode_utf8(b@),
{
    std::str::from_utf8(b).ok()
}

/// Relies on str::trim: it removes the leading and trailing characters that
/// have the Unicode White_Space property.
#[verifier::external_body]
fn trim_text(s: &str) -> (r: &str)
    ensures
        r@ == trim_ws(s@),
{
    s.trim()
}

/// The output as text for a diagnostic: decoded when it is valid UTF-8, else
/// a fixed placeholder.
pub fn decode_lossy(b: &Vec<u8>) -> (r: String)
    ensures
        r@ == lossy_spec(b@),
{
    match utf8_text(b.as_slice()) {
        Some(t) => t.to_string(),
        None => String::from_str("<invalid UTF-8>"),
    }
}

/// The artifact path reported by a successful build tool's output.
pub fn artifact_path(b: &Vec<u8>) -> (r: Result<String, WrapError>)
    ensures
        match r {
            Ok(p) => artifact_spec(b@) == Ok::<Seq<char>, ErrorView>(p@),
            Err(e) => artifact_spec(b@) == Err::<Seq<char>, ErrorView>(e@),
        },
{
    match utf8_text(b.as_slice()) {
        None => Err(WrapError::OutputDecoding),
        Some(t) => {
            let p = trim_text(t);
            if p.unicode_len() == 0 {
                Err(WrapError::ArtifactMissing)
            } else {
                Ok(p.to_string())
            }
        },
    }
}

} // verus!
