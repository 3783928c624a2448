//! The file list that the device's search prints, and the device-side path
//! of each file in it.

use vstd::prelude::*;
use vstd::std_specs::iter::IteratorSpec;
use vstd::string::*;

use crate::command::texts;

verus! {

/// Whether `c` has the Unicode property White_Space.
pub open spec fn is_whitespace(c: char) -> bool {
    let n = c as u32;
    ||| 0x09 <= n <= 0x0D
    ||| n == 0x20
    ||| n == 0x85
    ||| n == 0xA0
    ||| n == 0x1680
    ||| 0x2000 <= n <= 0x200A
    ||| n == 0x2028
    ||| n == 0x2029
    ||| n == 0x202F
    ||| n == 0x205F
    ||| n == 0x3000
}

/// `word`, if it is one: the empty text is no word.
pub open spec fn word_if_any(word: Seq<char>) -> Seq<Seq<char>> {
    if word.len() == 0 {
        Seq::empty()
    } else {
        seq![word]
    }
}

/// The words of `word` followed by `text`, where `word` holds no whitespace:
/// the characters read since the last whitespace.
pub open spec fn words_after(word: Seq<char>, text: Seq<char>) -> Seq<Seq<char>>
    decreases text.len(),
{
    if text.len() == 0 {
        word_if_any(word)
    } else if is_whitespace(text[0]) {
        word_if_any(word) + words_after(Seq::empty(), text.skip(1))
    } else {
        words_after(word.push(text[0]), text.skip(1))
    }
}

/// The maximal runs of characters of `text` that are not whitespace, in the
/// order in which they stand. Any amount of whitespace separates two words;
/// whitespace at either end yields no empty word.
pub open spec fn words(text: Seq<char>) -> Seq<Seq<char>> {
    words_after(Seq::empty(), text)
}

/// Whether `text` holds nothing but whitespace. The empty text does.
pub open spec fn is_blank(text: Seq<char>) -> bool {
    forall|i: int| 0 <= i < text.len() ==> is_whitespace(#[trigger] text[i])
}

/// The path that `std::path::Path::join` makes of `file` adjoined to `base`,
/// as text. It goes by the path rules of the platform the library is built
/// for.
pub uninterp spec fn joined_path(base: Seq<char>, file: Seq<char>) -> Seq<char>;

/// Calls `std::path::Path::join` on `base` with `file` and takes the result
/// as text. Trusted: the result is the join of exactly these two paths.
#[verifier::external_body]
pub(crate) fn join_path(base: &str, file: &str) -> (joined: String)
    ensures
        joined@ == joined_path(base@, file@),
{
    std::path::Path::new(base).join(file).to_string_lossy().into_owned()
}

/// Tells whether a character is whitespace.
pub fn whitespace(c: char) -> (b: bool)
    ensures
        b == is_whitespace(c),
{
    let n: u32 = c as u32;
    (0x09 <= n && n <= 0x0D) || n == 0x20 || n == 0x85 || n == 0xA0 || n == 0x1680 || (0x2000 <= n
        && n <= 0x200A) || n == 0x2028 || n == 0x2029 || n == 0x202F || n == 0x205F || n == 0x3000
}

/// `String::push` appends one character to the text and changes nothing else
/// of it.
pub assume_specification[ String::push ](text: &mut String, ch: char)
    ensures
        final(text)@ == old(text)@.push(ch),
;

/// Splits the output of the device's search into the paths it lists.
pub fn split_file_list(output: &str) -> (files: Vec<String>)
    ensures
        texts(files@) == words(output@),
{
    broadcast use vstd::string::group_string_axioms;

    let len: usize = output.unicode_len();
    let mut chars = output.chars();
    let mut files: Vec<String> = Vec::new();
    let mut word = String::new();
    let mut i: usize = 0;
    proof {
        assert(output@.skip(0) =~= output@);
        assert(texts(files@) + words(output@) =~= words(output@));
    }
    while i < len
        invariant
            len == output@.len(),
            i <= len,
            chars.remaining() == output@.skip(i as int),
            words(output@) == texts(files@) + words_after(word@, output@.skip(i as int)),
        decreases len - i,
    {
        let c = match chars.next() {
            Some(c) => c,
            None => vstd::pervasive::unreached(),
        };
        proof {
            let rest = output@.skip(i as int);
            assert(rest[0] == c);
            assert(rest.skip(1) =~= output@.skip(i + 1));
            assert(rest.drop_first() =~= output@.skip(i + 1));
        }
        let ghost before = texts(files@);
        let ghost read = word@;
        let ghost later = words_after(Seq::empty(), output@.skip(i + 1));
        let ghost due = words_after(read, output@.skip(i as int));
        if !whitespace(c) {
            word.push(c);
            assert(due == words_after(word@, output@.skip(i + 1)));
        } else if !word.as_str().is_empty() {
            files.push(word);
            word = String::new();
            assert(due == seq![read] + later);
            assert(texts(files@) =~= before + seq![read]);
            assert(before + (seq![read] + later) =~= (before + seq![read]) + later);
        } else {
            assert(word@ =~= Seq::<char>::empty());
            assert(due == Seq::<Seq<char>>::empty() + later);
            assert(Seq::<Seq<char>>::empty() + later =~= later);
        }
        i = i + 1;
    }
    if !word.as_str().is_empty() {
        let ghost before = texts(files@);
        let ghost read = word@;
        files.push(word);
        assert(texts(files@) =~= before + seq![read]);
    }
    files
}

/// Blank output lists no file.
pub proof fn blank_text_has_no_words(text: Seq<char>)
    requires
        is_blank(text),
    ensures
        words(text) == Seq::<Seq<char>>::empty(),
    decreases text.len(),
{
    if text.len() > 0 {
        assert(is_whitespace(text[0]));
        assert forall|i: int| 0 <= i < text.skip(1).len() implies is_whitespace(
            #[trigger] text.skip(1)[i],
        ) by {
            assert(text.skip(1)[i] == text[i + 1]);
        }
        blank_text_has_no_words(text.skip(1));
        assert(word_if_any(Seq::<char>::empty()) + words(text.skip(1)) =~= Seq::<
            Seq<char>,
        >::empty());
    }
}

/// Whether `text` holds no whitespace at all.
pub open spec fn is_solid(text: Seq<char>) -> bool {
    forall|i: int| 0 <= i < text.len() ==> !is_whitespace(#[trigger] text[i])
}

proof fn words_after_are_solid(word: Seq<char>, text: Seq<char>)
    requires
        is_solid(word),
    ensures
        forall|i: int|
            0 <= i < words_after(word, text).len() ==> (#[trigger] words_after(word, text)[i]).len()
                > 0 && is_solid(words_after(word, text)[i]),
    decreases text.len(),
{
    let all = words_after(word, text);
    if text.len() == 0 {
        assert forall|i: int| 0 <= i < all.len() implies (#[trigger] all[i]).len() > 0 && is_solid(
            all[i],
        ) by {
            assert(all[i] == word);
        }
    } else if is_whitespace(text[0]) {
        let later = words_after(Seq::empty(), text.skip(1));
        words_after_are_solid(Seq::empty(), text.skip(1));
        assert forall|i: int| 0 <= i < all.len() implies (#[trigger] all[i]).len() > 0 && is_solid(
            all[i],
        ) by {
            if word.len() == 0 {
                assert(all =~= later);
            } else if i == 0 {
                assert(all[0] == word);
            } else {
                assert(all[i] == later[i - 1]);
            }
        }
    } else {
        let longer = word.push(text[0]);
        assert forall|j: int| 0 <= j < longer.len() implies !is_whitespace(
            #[trigger] longer[j],
        ) by {
            if j < word.len() {
                assert(longer[j] == word[j]);
            }
        }
        words_after_are_solid(longer, text.skip(1));
        assert(all == words_after(longer, text.skip(1)));
    }
}

proof fn words_after_solid_text(word: Seq<char>, text: Seq<char>)
    requires
        is_solid(text),
    ensures
        words_after(word, text) == word_if_any(word + text),
    decreases text.len(),
{
    if text.len() == 0 {
        assert(word + text =~= word);
    } else {
        assert(!is_whitespace(text[0]));
        assert forall|i: int| 0 <= i < text.skip(1).len() implies !is_whitespace(
            #[trigger] text.skip(1)[i],
        ) by {
            assert(text.skip(1)[i] == text[i + 1]);
        }
        words_after_solid_text(word.push(text[0]), text.skip(1));
        assert(word.push(text[0]) + text.skip(1) =~= word + text);
    }
}

proof fn words_after_split(word: Seq<char>, before: Seq<char>, gap: char, after: Seq<char>)
    requires
        is_whitespace(gap),
    ensures
        words_after(word, before + seq![gap] + after) == words_after(word, before) + words(after),
    decreases before.len(),
{
    let text = before + seq![gap] + after;
    if before.len() == 0 {
        assert(text[0] == gap);
        assert(text.skip(1) =~= after);
    } else {
        assert(text[0] == before[0]);
        assert(text.skip(1) =~= before.skip(1) + seq![gap] + after);
        if is_whitespace(before[0]) {
            words_after_split(Seq::empty(), before.skip(1), gap, after);
            assert(word_if_any(word) + (words_after(Seq::empty(), before.skip(1)) + words(after))
                =~= (word_if_any(word) + words_after(Seq::empty(), before.skip(1))) + words(
                after,
            ));
        } else {
            words_after_split(word.push(before[0]), before.skip(1), gap, after);
        }
    }
}

/// No listed file is empty, and none holds whitespace.
pub proof fn words_are_solid(text: Seq<char>)
    ensures
        forall|i: int|
            0 <= i < words(text).len() ==> (#[trigger] words(text)[i]).len() > 0 && is_solid(
                words(text)[i],
            ),
{
    words_after_are_solid(Seq::empty(), text);
}

/// A text that is not empty and holds no whitespace is one word: itself.
pub proof fn solid_text_is_one_word(text: Seq<char>)
    requires
        text.len() > 0,
        is_solid(text),
    ensures
        words(text) == seq![text],
{
    words_after_solid_text(Seq::empty(), text);
    assert(Seq::<char>::empty() + text =~= text);
}

/// Whitespace separates: the words of two texts with a whitespace character
/// between them are the words of the first, then the words of the second.
pub proof fn words_split_at_whitespace(before: Seq<char>, gap: char, after: Seq<char>)
    requires
        is_whitespace(gap),
    ensures
        words(before + seq![gap] + after) == words(before) + words(after),
{
    words_after_split(Seq::empty(), before, gap, after);
}

} // verus!
