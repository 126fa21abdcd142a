//! The compiled-in English dictionary, as `mnemonic_external` holds it.

use mnemonic_external::regular::InternalWordList;
use mnemonic_external::AsWordList;
use crate::wordlist::{only_at, prefix_matches};
use vstd::prelude::*;

verus! {

/// Number of words in a dictionary.
pub const TOTAL_WORDS: usize = 2048;

/// The word that the compiled-in dictionary of `mnemonic_external` holds at
/// `index`. Only indices below [`TOTAL_WORDS`] are meaningful.
pub uninterp spec fn builtin_word(index: u16) -> Seq<char>;

/// The compiled-in dictionary as a sequence of [`TOTAL_WORDS`] words.
pub open spec fn builtin_words() -> Seq<Seq<char>> {
    Seq::new(TOTAL_WORDS as nat, |i: int| builtin_word(i as u16))
}

/// Calls `InternalWordList::get_word` of `mnemonic_external`. Trusted: for an
/// index below 2048 the call succeeds and hands back the table's entry at that
/// index; a larger index is refused when the outside `Bits11` is made.
#[verifier::external_body]
pub(crate) fn builtin_get_word(index: u16) -> (found: Option<String>)
    ensures
        match found {
            Some(word) => index < TOTAL_WORDS && word@ == builtin_word(index),
            None => index >= TOTAL_WORDS,
        },
{
    let bits = mnemonic_external::Bits11::from(index).ok()?;
    let word = InternalWordList.get_word(bits).ok()?;
    Some(String::from(word))
}

/// One entry of the compiled-in dictionary: a word and its index.
pub struct BuiltinEntry {
    pub word: String,
    pub index: u16,
}

/// What a list of entries stands for in contracts.
pub open spec fn entry_views(list: Seq<BuiltinEntry>) -> Seq<(Seq<char>, int)> {
    list.map_values(|e: BuiltinEntry| (e.word@, e.index as int))
}

/// Calls `InternalWordList::get_words_by_prefix` of `mnemonic_external`.
/// Trusted: the call walks the table from its first entry to its last and
/// hands back, in that order, each entry that starts with `prefix` together
/// with its index; it fails on no input.
#[verifier::external_body]
pub(crate) fn builtin_words_by_prefix(prefix: &str) -> (found: Option<Vec<BuiltinEntry>>)
    ensures
        found is Some,
        entry_views(found.unwrap()@) == prefix_matches(builtin_words(), prefix@),
{
    let found = InternalWordList.get_words_by_prefix(prefix).ok()?;
    Some(
        found.into_iter().map(
            |e| BuiltinEntry { word: String::from(e.word), index: e.bits11.bits() },
        ).collect(),
    )
}

/// Calls `InternalWordList::bits11_for_word` of `mnemonic_external`. Trusted:
/// the call gives the index of the table's entry that equals `word`, and
/// fails when there is none. The table holds no word twice, so a match is
/// the only one.
#[verifier::external_body]
pub(crate) fn builtin_bits11_for_word(word: &str) -> (found: Option<u16>)
    ensures
        match found {
            Some(index) => only_at(builtin_words(), word@, index as int),
            None => !builtin_words().contains(word@),
        },
{
    InternalWordList.bits11_for_word(word).ok().map(|bits| bits.bits())
}

} // verus!
