//! The dictionary codec: 11-bit index to word and back, prefix search, and
//! the checksummed load of a dictionary from a byte buffer.

use crate::checksum::{crc32, crc32_ieee};
use crate::english::{
    builtin_bits11_for_word, builtin_get_word, builtin_words, builtin_words_by_prefix,
    entry_views, TOTAL_WORDS,
};
use crate::text::{
    concat_bytes, decode_text, split_whitespace, str_starts_with, token_bytes, tokens,
};
use vstd::prelude::*;
use vstd::utf8::{decode_utf8, valid_utf8};

verus! {

/// CRC32 of the canonical dictionary's words laid end to end.
pub const EXPECTED_CHECKSUM: u32 = 0x81b9dda4;

/// Why a lookup in a dictionary failed.
#[derive(Clone, Copy, Debug, PartialEq, Eq, Structural)]
pub enum ErrorWordList {
    /// The index is not below the number of words.
    IndexOutOfRange,
    /// The dictionary does not hold the word.
    NoWord,
}

/// Why a buffer was refused as a dictionary.
#[derive(Clone, Copy, Debug, PartialEq, Eq, Structural)]
pub enum LoadError {
    /// The buffer is not UTF-8 text.
    NotUtf8,
    /// The buffer holds `count` words where 2048 are due.
    WordCount { count: usize },
    /// The words' checksum is `checksum`, not the expected one.
    ChecksumMismatch { checksum: u32 },
}

/// The index of one word of a dictionary: a number below 2048.
#[derive(Clone, Copy, Debug)]
pub struct Bits11(u16);

impl View for Bits11 {
    type V = int;

    closed spec fn view(&self) -> int {
        self.0 as int
    }
}

impl Bits11 {
    #[verifier::type_invariant]
    spec fn in_range(self) -> bool {
        self.0 < TOTAL_WORDS
    }

    /// The index as a number.
    pub fn bits(self) -> (index: u16)
        ensures
            index == self@,
            index < TOTAL_WORDS,
    {
        proof {
            use_type_invariant(&self);
        }
        self.0
    }

    /// Makes an index of `i`, which must be below 2048.
    pub fn from(i: u16) -> (made: Result<Self, ErrorWordList>)
        ensures
            match made {
                Ok(bits) => i < TOTAL_WORDS && bits@ == i,
                Err(e) => i >= TOTAL_WORDS && e == ErrorWordList::IndexOutOfRange,
            },
    {
        if (i as usize) < TOTAL_WORDS {
            Ok(Bits11(i))
        } else {
            Err(ErrorWordList::IndexOutOfRange)
        }
    }
}

/// `index` is a place of `word` in `words`, and no earlier place holds it.
pub open spec fn first_at(words: Seq<Seq<char>>, word: Seq<char>, index: int) -> bool {
    &&& 0 <= index < words.len()
    &&& words[index] == word
    &&& forall|j: int| 0 <= j < index ==> words[j] != word
}

/// `index` is the one place of `word` in `words`.
pub open spec fn only_at(words: Seq<Seq<char>>, word: Seq<char>, index: int) -> bool {
    &&& 0 <= index < words.len()
    &&& words[index] == word
    &&& forall|j: int| 0 <= j < words.len() && words[j] == word ==> j == index
}

/// What a scan of `words` from first to last collects: each word that starts
/// with `prefix`, with its index.
pub open spec fn prefix_matches(words: Seq<Seq<char>>, prefix: Seq<char>) -> Seq<(Seq<char>, int)>
    decreases words.len(),
{
    if words.len() == 0 {
        Seq::empty()
    } else {
        let earlier = prefix_matches(words.drop_last(), prefix);
        if prefix.is_prefix_of(words.last()) {
            earlier.push((words.last(), words.len() - 1))
        } else {
            earlier
        }
    }
}

/// The verdict on a buffer that holds `count` words whose bytes, laid end to
/// end, have the checksum `checksum`: the count is judged first.
pub open spec fn acceptance(count: nat, checksum: u32) -> Result<(), LoadError> {
    if count != TOTAL_WORDS {
        Err(LoadError::WordCount { count: count as usize })
    } else if checksum != EXPECTED_CHECKSUM {
        Err(LoadError::ChecksumMismatch { checksum })
    } else {
        Ok(())
    }
}

/// What loading `bytes` comes to: the dictionary they hold, or the reason they
/// are refused. The words are the tokens of the text, split at whitespace.
pub open spec fn parse_words(bytes: Seq<u8>) -> Result<Seq<Seq<char>>, LoadError> {
    if !valid_utf8(bytes) {
        Err(LoadError::NotUtf8)
    } else {
        let words = tokens(decode_utf8(bytes));
        match acceptance(words.len(), crc32_ieee(token_bytes(words))) {
            Ok(()) => Ok(words),
            Err(e) => Err(e),
        }
    }
}

/// Judges a buffer by the number of its words and the checksum of their bytes.
pub fn accept(count: usize, checksum: u32) -> (verdict: Result<(), LoadError>)
    ensures
        verdict == acceptance(count as nat, checksum),
{
    if count != TOTAL_WORDS {
        Err(LoadError::WordCount { count })
    } else if checksum != EXPECTED_CHECKSUM {
        Err(LoadError::ChecksumMismatch { checksum })
    } else {
        Ok(())
    }
}

/// One entry of a dictionary, as a lookup or a search hands it out.
#[derive(Clone, Debug)]
pub struct WordListElement {
    pub word: String,
    pub bits11: Bits11,
}

impl DeepView for WordListElement {
    type V = (Seq<char>, int);

    open spec fn deep_view(&self) -> (Seq<char>, int) {
        (self.word@, self.bits11@)
    }
}

/// A dictionary of 2048 words. It is the compiled-in English one until a
/// dictionary has been loaded from a buffer, and the loaded one from then on.
#[derive(Debug)]
pub struct InfernalWordList {
    words: Option<Vec<String>>,
}

impl View for InfernalWordList {
    type V = Seq<Seq<char>>;

    /// The active dictionary: the word at each index.
    closed spec fn view(&self) -> Seq<Seq<char>> {
        match self.words {
            Some(words) => words.deep_view(),
            None => builtin_words(),
        }
    }
}

impl InfernalWordList {
    #[verifier::type_invariant]
    spec fn complete(self) -> bool {
        self.words matches Some(words) ==> words@.len() == TOTAL_WORDS
    }

    /// Whether a dictionary has been loaded.
    pub closed spec fn is_loaded(&self) -> bool {
        self.words is Some
    }

    /// A dictionary that has nothing loaded and so is the compiled-in one.
    pub fn new() -> (list: Self)
        ensures
            !list.is_loaded(),
            list@ == builtin_words(),
    {
        Self { words: None }
    }

    /// Tells whether a dictionary has been loaded.
    pub fn loaded(&self) -> (yes: bool)
        ensures
            yes == self.is_loaded(),
    {
        self.words.is_some()
    }

    /// Loads the dictionary that `buf` holds: UTF-8 text of exactly 2048
    /// words separated by whitespace, whose bytes without the separators have
    /// the expected CRC32. On success the loaded words become the active
    /// dictionary; on any failure the active dictionary stays as it was.
    pub fn load_words(&mut self, buf: Vec<u8>) -> (loaded: Result<(), LoadError>)
        ensures
            match parse_words(buf@) {
                Ok(words) => loaded is Ok && final(self).is_loaded() && final(self)@ == words,
                Err(e) => loaded == Err::<(), LoadError>(e) && *final(self) == *old(self),
            },
    {
        let text = match decode_text(buf) {
            Some(text) => text,
            None => {
                return Err(LoadError::NotUtf8);
            },
        };
        let words = split_whitespace(text.as_str());
        let bytes = concat_bytes(&words);
        let checksum = crc32(bytes.as_slice());
        match accept(words.len(), checksum) {
            Ok(()) => {
                self.words = Some(words);
                Ok(())
            },
            Err(e) => Err(e),
        }
    }

    /// The word at index `bits` of the active dictionary.
    pub fn get_word(&self, bits: Bits11) -> (found: Result<String, ErrorWordList>)
        ensures
            self@.len() == TOTAL_WORDS,
            0 <= bits@ < TOTAL_WORDS,
            found matches Ok(word) && word@ == self@[bits@],
    {
        proof {
            use_type_invariant(self);
        }
        let index = bits.bits();
        match &self.words {
            Some(words) => Ok(words[index as usize].clone()),
            None => match builtin_get_word(index) {
                Some(word) => Ok(word),
                None => Err(ErrorWordList::IndexOutOfRange),
            },
        }
    }

    /// The index of `word` in the active dictionary: the first place that
    /// holds it, which in the compiled-in dictionary is the only one.
    /// `NoWord` if no place holds it.
    pub fn bits11_for_word(&self, word: &str) -> (found: Result<Bits11, ErrorWordList>)
        ensures
            self@.len() == TOTAL_WORDS,
            match found {
                Ok(bits) => first_at(self@, word@, bits@) && (!self.is_loaded() ==> only_at(
                    self@,
                    word@,
                    bits@,
                )),
                Err(e) => e == ErrorWordList::NoWord && !self@.contains(word@),
            },
    {
        proof {
            use_type_invariant(self);
        }
        match &self.words {
            Some(words) => {
                let wanted = word.to_owned();
                let mut i: u16 = 0;
                while (i as usize) < TOTAL_WORDS
                    invariant
                        i <= TOTAL_WORDS,
                        words@.len() == TOTAL_WORDS,
                        wanted@ == word@,
                        self.is_loaded(),
                        self@ == words.deep_view(),
                        forall|j: int| 0 <= j < i ==> words.deep_view()[j] != word@,
                    decreases TOTAL_WORDS - i,
                {
                    if words[i as usize] == wanted {
                        return Bits11::from(i);
                    }
                    i = i + 1;
                }
                Err(ErrorWordList::NoWord)
            },
            None => match builtin_bits11_for_word(word) {
                Some(index) => Bits11::from(index),
                None => Err(ErrorWordList::NoWord),
            },
        }
    }

    /// Every entry of the active dictionary whose word starts with `prefix`,
    /// in ascending order of index.
    pub fn get_words_by_prefix(&self, prefix: &str) -> (found: Result<
        Vec<WordListElement>,
        ErrorWordList,
    >)
        ensures
            self@.len() == TOTAL_WORDS,
            found matches Ok(entries) && entries.deep_view() == prefix_matches(self@, prefix@),
    {
        proof {
            use_type_invariant(self);
        }
        let mut entries: Vec<WordListElement> = Vec::new();
        match &self.words {
            Some(words) => {
                let mut i: u16 = 0;
                while (i as usize) < TOTAL_WORDS
                    invariant
                        i <= TOTAL_WORDS,
                        words@.len() == TOTAL_WORDS,
                        entries.deep_view() == prefix_matches(
                            words.deep_view().take(i as int),
                            prefix@,
                        ),
                    decreases TOTAL_WORDS - i,
                {
                    assert(words.deep_view().take(i + 1).drop_last() =~= words.deep_view().take(
                        i as int,
                    ));
                    if str_starts_with(words[i as usize].as_str(), prefix) {
                        match Bits11::from(i) {
                            Ok(bits11) => {
                                let entry = WordListElement { word: words[i as usize].clone(), bits11 };
                                entries.push(entry);
                            },
                            Err(e) => {
                                return Err(e);
                            },
                        }
                    }
                    i = i + 1;
                }
                assert(words.deep_view().take(i as int) =~= words.deep_view());
                Ok(entries)
            },
            None => match builtin_words_by_prefix(prefix) {
                Some(list) => {
                    let mut k: usize = 0;
                    while k < list.len()
                        invariant
                            k <= list.len(),
                            entry_views(list@) == prefix_matches(builtin_words(), prefix@),
                            entries.deep_view() == entry_views(list@).take(k as int),
                        decreases list.len() - k,
                    {
                        let ghost before = entries.deep_view();
                        proof {
                            lemma_matches_in_range(builtin_words(), prefix@, k as int);
                        }
                        match Bits11::from(list[k].index) {
                            Ok(bits11) => {
                                let entry = WordListElement { word: list[k].word.clone(), bits11 };
                                entries.push(entry);
                                assert(entries.deep_view() =~= before.push(
                                    (list[k as int].word@, list[k as int].index as int),
                                ));
                            },
                            Err(e) => {
                                return Err(e);
                            },
                        }
                        k = k + 1;
                    }
                    Ok(entries)
                },
                None => Err(ErrorWordList::IndexOutOfRange),
            },
        }
    }
}

/// Round trip: where `found` is the first place of the word that stands at
/// `index`, and no earlier place than `index` holds that word, `found` is
/// `index`. So looking up the word that a dictionary gives for an index
/// leads back to the index, in every dictionary that holds no word twice.
pub proof fn lemma_round_trip(words: Seq<Seq<char>>, index: int, found: int)
    requires
        0 <= index < words.len(),
        forall|j: int| 0 <= j < index ==> words[j] != words[index],
        first_at(words, words[index], found),
    ensures
        found == index,
{
}

/// Round trip in a dictionary that promises one place per word, as the
/// compiled-in one does: where `found` is the only place of the word that
/// stands at `index`, it is `index`.
pub proof fn lemma_round_trip_only(words: Seq<Seq<char>>, index: int, found: int)
    requires
        0 <= index < words.len(),
        only_at(words, words[index], found),
    ensures
        found == index,
{
}

/// The entries of a prefix search stand in ascending order of index.
pub proof fn lemma_matches_ascending(words: Seq<Seq<char>>, prefix: Seq<char>, k: int, l: int)
    requires
        0 <= k < l < prefix_matches(words, prefix).len(),
    ensures
        prefix_matches(words, prefix)[k].1 < prefix_matches(words, prefix)[l].1,
    decreases words.len(),
{
    if words.len() > 0 {
        let earlier = prefix_matches(words.drop_last(), prefix);
        if l < earlier.len() {
            lemma_matches_ascending(words.drop_last(), prefix, k, l);
        } else {
            lemma_matches_in_range(words.drop_last(), prefix, k);
        }
    }
}

/// A prefix search misses nothing: each place whose word starts with
/// `prefix` is the index of one of its entries.
pub proof fn lemma_matches_complete(words: Seq<Seq<char>>, prefix: Seq<char>, index: int)
    requires
        0 <= index < words.len(),
        prefix.is_prefix_of(words[index]),
    ensures
        exists|k: int|
            0 <= k < prefix_matches(words, prefix).len() && #[trigger] prefix_matches(
                words,
                prefix,
            )[k].1 == index,
    decreases words.len(),
{
    let found = prefix_matches(words, prefix);
    let earlier = prefix_matches(words.drop_last(), prefix);
    if index == words.len() - 1 {
        assert(found[found.len() - 1].1 == index);
    } else {
        lemma_matches_complete(words.drop_last(), prefix, index);
        let k = choose|k: int| 0 <= k < earlier.len() && #[trigger] earlier[k].1 == index;
        assert(found[k].1 == index);
    }
}

/// A buffer is loaded only if it is UTF-8 text of exactly 2048 words whose
/// bytes have the expected checksum, and then its words are what is loaded.
/// A buffer with a word missing or a word too many is refused for its count.
pub proof fn lemma_load_verdict(bytes: Seq<u8>)
    ensures
        parse_words(bytes) is Ok <==> {
            &&& valid_utf8(bytes)
            &&& tokens(decode_utf8(bytes)).len() == TOTAL_WORDS
            &&& crc32_ieee(token_bytes(tokens(decode_utf8(bytes)))) == EXPECTED_CHECKSUM
        },
        parse_words(bytes) matches Ok(words) ==> words == tokens(decode_utf8(bytes)),
        valid_utf8(bytes) && tokens(decode_utf8(bytes)).len() != TOTAL_WORDS ==> parse_words(bytes)
            is Err && parse_words(bytes)->Err_0 is WordCount,
{
}

/// Each entry of a prefix search names a place of its word: the `k`-th entry
/// holds an index of `words` and the word at that index, which starts with
/// `prefix`.
pub proof fn lemma_matches_in_range(words: Seq<Seq<char>>, prefix: Seq<char>, k: int)
    requires
        0 <= k < prefix_matches(words, prefix).len(),
    ensures
        0 <= prefix_matches(words, prefix)[k].1 < words.len(),
        prefix_matches(words, prefix)[k].0 == words[prefix_matches(words, prefix)[k].1],
        prefix.is_prefix_of(prefix_matches(words, prefix)[k].0),
    decreases words.len(),
{
    if words.len() > 0 {
        let earlier = prefix_matches(words.drop_last(), prefix);
        if k < earlier.len() {
            lemma_matches_in_range(words.drop_last(), prefix, k);
        }
    }
}

} // verus!
