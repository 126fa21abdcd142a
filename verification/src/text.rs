//! Text handling for dictionary files: UTF-8 decoding and splitting into
//! whitespace-separated tokens.

use vstd::prelude::*;
use vstd::std_specs::iter::IteratorSpec;
use vstd::string::StrSliceExecFns;
use vstd::string::StringSliceAdditionalSpecFns;
use vstd::utf8::*;

verus! {

/// Whether `c` separates tokens: the code points that Unicode gives the
/// property White_Space.
pub open spec fn is_separator(c: char) -> bool {
    let u = c as u32;
    ||| 0x09 <= u <= 0x0D
    ||| u == 0x20
    ||| u == 0x85
    ||| u == 0xA0
    ||| u == 0x1680
    ||| 0x2000 <= u <= 0x200A
    ||| u == 0x2028
    ||| u == 0x2029
    ||| u == 0x202F
    ||| u == 0x205F
    ||| u == 0x3000
}

/// Tells whether `c` separates tokens.
pub fn is_whitespace(c: char) -> (sep: bool)
    ensures
        sep == is_separator(c),
{
    let u: u32 = c as u32;
    (0x09 <= u && u <= 0x0D) || u == 0x20 || u == 0x85 || u == 0xA0 || u == 0x1680 || (0x2000 <= u
        && u <= 0x200A) || u == 0x2028 || u == 0x2029 || u == 0x202F || u == 0x205F || u == 0x3000
}

/// The state of a left-to-right scan over `text`: the tokens that a separator
/// has closed so far, and the separator-free run that is still open.
pub open spec fn scan(text: Seq<char>) -> (Seq<Seq<char>>, Seq<char>)
    decreases text.len(),
{
    if text.len() == 0 {
        (Seq::empty(), Seq::empty())
    } else {
        let (closed, run) = scan(text.drop_last());
        if !is_separator(text.last()) {
            (closed, run.push(text.last()))
        } else if run.len() > 0 {
            (closed.push(run), Seq::empty())
        } else {
            (closed, run)
        }
    }
}

/// The tokens of `text`: its maximal runs of characters that are not
/// separators, from left to right. No token is empty.
pub open spec fn tokens(text: Seq<char>) -> Seq<Seq<char>> {
    let (closed, run) = scan(text);
    if run.len() > 0 {
        closed.push(run)
    } else {
        closed
    }
}

/// `run` holds no separator.
pub open spec fn separator_free(run: Seq<char>) -> bool {
    forall|j: int| 0 <= j < run.len() ==> !is_separator(#[trigger] run[j])
}

/// What a scan has collected is clean: no closed token is empty or holds a
/// separator, and the open run holds no separator.
pub proof fn lemma_scan_clean(text: Seq<char>)
    ensures
        forall|k: int|
            0 <= k < scan(text).0.len() ==> (#[trigger] scan(text).0[k]).len() > 0
                && separator_free(scan(text).0[k]),
        separator_free(scan(text).1),
    decreases text.len(),
{
    if text.len() > 0 {
        lemma_scan_clean(text.drop_last());
        let (closed, run) = scan(text.drop_last());
        if !is_separator(text.last()) {
            assert forall|j: int| 0 <= j < run.push(text.last()).len() implies !is_separator(
                #[trigger] run.push(text.last())[j],
            ) by {}
        } else if run.len() > 0 {
            assert forall|k: int| 0 <= k < closed.push(run).len() implies (#[trigger] closed.push(
                run,
            )[k]).len() > 0 && separator_free(closed.push(run)[k]) by {}
        }
    }
}

/// No token is empty, and no token holds a separator.
pub proof fn lemma_tokens_clean(text: Seq<char>, k: int)
    requires
        0 <= k < tokens(text).len(),
    ensures
        tokens(text)[k].len() > 0,
        separator_free(tokens(text)[k]),
{
    lemma_scan_clean(text);
}

/// The characters of `words`, one word after the other with nothing between
/// them.
pub open spec fn token_chars(words: Seq<Seq<char>>) -> Seq<char>
    decreases words.len(),
{
    if words.len() == 0 {
        Seq::empty()
    } else {
        token_chars(words.drop_last()) + words.last()
    }
}

/// `text` without its separators.
pub open spec fn without_separators(text: Seq<char>) -> Seq<char> {
    text.filter(|c: char| !is_separator(c))
}

/// A scan loses no character but the separators: the closed tokens and the
/// open run together hold the text without its separators.
pub proof fn lemma_scan_holds_the_text(text: Seq<char>)
    ensures
        token_chars(scan(text).0) + scan(text).1 == without_separators(text),
    decreases text.len(),
{
    reveal(Seq::filter);
    if text.len() > 0 {
        lemma_scan_holds_the_text(text.drop_last());
        let (closed, run) = scan(text.drop_last());
        if is_separator(text.last()) && run.len() > 0 {
            assert(closed.push(run).drop_last() =~= closed);
        }
    }
}

/// The tokens hold the text without its separators: splitting drops the
/// separators and nothing else, and keeps the order of what is left.
pub proof fn lemma_tokens_hold_the_text(text: Seq<char>)
    ensures
        token_chars(tokens(text)) == without_separators(text),
{
    lemma_scan_holds_the_text(text);
    let (closed, run) = scan(text);
    if run.len() > 0 {
        assert(closed.push(run).drop_last() =~= closed);
    }
}

/// The UTF-8 bytes of `words`, one word after the other with nothing between
/// them.
pub open spec fn token_bytes(words: Seq<Seq<char>>) -> Seq<u8>
    decreases words.len(),
{
    if words.len() == 0 {
        Seq::empty()
    } else {
        token_bytes(words.drop_last()) + encode_utf8(words.last())
    }
}

/// Calls `String::from_utf8` of std. Trusted: the call succeeds exactly on
/// well-formed UTF-8, and the string it gives then holds the same bytes.
#[verifier::external_body]
pub(crate) fn string_from_utf8(bytes: Vec<u8>) -> (text: Option<String>)
    ensures
        match text {
            Some(s) => valid_utf8(bytes@) && encode_utf8(s@) == bytes@,
            None => !valid_utf8(bytes@),
        },
{
    String::from_utf8(bytes).ok()
}

/// Calls `str::starts_with` of std with a string as the pattern. Trusted: the
/// result tells whether `text` begins with the characters of `prefix`.
#[verifier::external_body]
pub(crate) fn str_starts_with(text: &str, prefix: &str) -> (yes: bool)
    ensures
        yes == prefix@.is_prefix_of(text@),
{
    text.starts_with(prefix)
}

/// Decodes `bytes` as UTF-8 text, or gives `None` if they are not.
pub fn decode_text(bytes: Vec<u8>) -> (text: Option<String>)
    ensures
        match text {
            Some(s) => valid_utf8(bytes@) && s@ == decode_utf8(bytes@),
            None => !valid_utf8(bytes@),
        },
{
    let text = string_from_utf8(bytes);
    proof {
        if let Some(s) = &text {
            encode_utf8_decode_utf8(s@);
        }
    }
    text
}

/// Splits `text` into its tokens.
pub fn split_whitespace(text: &str) -> (words: Vec<String>)
    ensures
        words.deep_view() == tokens(text@),
{
    broadcast use vstd::string::group_string_axioms;

    let total = text.unicode_len();
    let mut words: Vec<String> = Vec::new();
    let mut start: usize = 0;
    let mut at: usize = 0;
    let mut chars = text.chars();
    while at < total
        invariant
            total == text@.len(),
            start <= at <= total,
            chars.obeys_prophetic_iter_laws(),
            chars.remaining() == text@.skip(at as int),
            words.deep_view() == scan(text@.take(at as int)).0,
            text@.subrange(start as int, at as int) == scan(text@.take(at as int)).1,
        decreases total - at,
    {
        let c = chars.next().unwrap();
        assert(text@.take(at + 1).drop_last() =~= text@.take(at as int));
        if is_whitespace(c) {
            if start < at {
                words.push(text.substring_char(start, at).to_owned());
            }
            start = at + 1;
        }
        at = at + 1;
    }
    assert(text@.take(at as int) =~= text@);
    if start < at {
        words.push(text.substring_char(start, at).to_owned());
    }
    words
}

/// Lays the UTF-8 bytes of `words` end to end.
pub fn concat_bytes(words: &Vec<String>) -> (bytes: Vec<u8>)
    ensures
        bytes@ == token_bytes(words.deep_view()),
{
    let mut bytes: Vec<u8> = Vec::new();
    let mut i: usize = 0;
    while i < words.len()
        invariant
            i <= words.len(),
            bytes@ == token_bytes(words.deep_view().take(i as int)),
        decreases words.len() - i,
    {
        bytes.extend_from_slice(words[i].as_str().as_bytes());
        assert(words.deep_view().take(i + 1).drop_last() =~= words.deep_view().take(i as int));
        i = i + 1;
    }
    assert(words.deep_view().take(i as int) =~= words.deep_view());
    bytes
}

} // verus!
