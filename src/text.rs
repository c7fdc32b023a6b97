//! Text helpers: trimming, comparison, and the filter that decides whether a
//! transcription is worth answering.
use vstd::prelude::*;

verus! {

/// Marker the recognizer emits for a clip without speech.
pub const BLANK_AUDIO_MARKER: &'static str = "[BLANK_AUDIO]";

/// Characters with the Unicode `White_Space` property.
pub open spec fn is_white_space(c: char) -> bool {
    let v = c as u32;
    ||| 0x09 <= v <= 0x0d
    ||| v == 0x20
    ||| v == 0x85
    ||| v == 0xa0
    ||| v == 0x1680
    ||| 0x2000 <= v <= 0x200a
    ||| v == 0x2028
    ||| v == 0x2029
    ||| v == 0x202f
    ||| v == 0x205f
    ||| v == 0x3000
}

/// `s` without its leading white space.
pub open spec fn trim_start(s: Seq<char>) -> Seq<char>
    decreases s.len(),
{
    if s.len() > 0 && is_white_space(s[0]) {
        trim_start(s.drop_first())
    } else {
        s
    }
}

/// `s` without its trailing white space.
pub open spec fn trim_end(s: Seq<char>) -> Seq<char>
    decreases s.len(),
{
    if s.len() > 0 && is_white_space(s.last()) {
        trim_end(s.drop_last())
    } else {
        s
    }
}

/// `s` without its leading and trailing white space.
pub open spec fn trimmed(s: Seq<char>) -> Seq<char> {
    trim_end(trim_start(s))
}

/// Relies on `str::trim`: documented to remove the leading and trailing
/// characters with the `White_Space` property.
#[verifier::external_body]
pub(crate) fn trim_text(s: &str) -> (r: &str)
    ensures
        r@ == trimmed(s@),
{
    s.trim()
}

/// Whether the two texts hold the same characters.
pub fn same_text(a: &str, b: &str) -> (r: bool)
    ensures
        r == (a@ == b@),
{
    let n = a.unicode_len();
    if n != b.unicode_len() {
        return false;
    }
    let mut i: usize = 0;
    while i < n
        invariant
            n == a@.len(),
            n == b@.len(),
            i <= n,
            forall|j: int| 0 <= j < i ==> a@[j] == b@[j],
        decreases n - i,
    {
        if a.get_char(i) != b.get_char(i) {
            return false;
        }
        i = i + 1;
    }
    assert(a@ =~= b@);
    true
}

/// A trimmed transcription is answered when it has more than one character
/// and is not the blank-audio marker.
pub open spec fn is_usable_transcript(t: Seq<char>) -> bool {
    t.len() > 1 && t != BLANK_AUDIO_MARKER@
}

/// Decides on text that is already trimmed.
pub fn transcript_is_usable(trimmed_text: &str) -> (r: bool)
    ensures
        r == is_usable_transcript(trimmed_text@),
{
    if trimmed_text.unicode_len() <= 1 {
        return false;
    }
    !same_text(trimmed_text, BLANK_AUDIO_MARKER)
}

/// The trimmed transcription if it is worth answering.
pub fn usable_transcript(text: &str) -> (r: Option<String>)
    ensures
        r.is_some() == is_usable_transcript(trimmed(text@)),
        r.is_some() ==> r.unwrap()@ == trimmed(text@),
{
    let t = trim_text(text);
    if transcript_is_usable(t) {
        Some(t.to_owned())
    } else {
        None
    }
}

/// Whether the text is empty or white space only.
pub fn is_blank(text: &str) -> (r: bool)
    ensures
        r == (trimmed(text@).len() == 0),
{
    trim_text(text).unicode_len() == 0
}

} // verus!
