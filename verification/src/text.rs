//! The characters of a text.

use vstd::prelude::*;

verus! {

/// The characters of a text, in order.
pub fn chars_of(s: &str) -> (chars: Vec<char>)
    ensures
        chars@ == s@,
{
    let mut chars: Vec<char> = Vec::new();
    for c in it: s.chars()
        invariant
            it.seq() == s@,
            chars@ == s@.take(it.index() as int),
    {
        chars.push(c);
        assert(chars@ =~= s@.take(it.index() + 1));
    }
    assert(chars@ =~= s@);
    chars
}

/// The text begins with the prefix.
pub fn has_prefix(text: &Vec<char>, prefix: &Vec<char>) -> (yes: bool)
    ensures
        yes == prefix@.is_prefix_of(text@),
{
    if prefix.len() > text.len() {
        return false;
    }
    let mut i: usize = 0;
    while i < prefix.len()
        invariant
            i <= prefix@.len() <= text@.len(),
            forall|k: int| 0 <= k < i ==> prefix@[k] == text@[k],
        decreases prefix@.len() - i,
    {
        if prefix[i] != text[i] {
            assert(text@.subrange(0, prefix@.len() as int)[i as int] != prefix@[i as int]);
            return false;
        }
        i += 1;
    }
    assert(prefix@ =~= text@.subrange(0, prefix@.len() as int));
    true
}

/// The character is a letter of the Latin alphabet.
pub open spec fn is_letter(c: char) -> bool {
    (97 <= c as u32 <= 122) || (65 <= c as u32 <= 90)
}

/// The character is the given small letter, or the capital of it.
pub open spec fn same_letter(c: char, small: char) -> bool {
    c == small || c as u32 + 32 == small as u32
}

/// The letters of a text, in order; every other character is left out.
pub open spec fn letters_of(text: Seq<char>) -> Seq<char>
    decreases text.len(),
{
    if text.len() == 0 {
        Seq::empty()
    } else if is_letter(text.last()) {
        letters_of(text.drop_last()).push(text.last())
    } else {
        letters_of(text.drop_last())
    }
}

/// The word, written in small letters, stands in the text at the place,
/// in small letters or capitals.
pub open spec fn word_at(text: Seq<char>, word: Seq<char>, place: int) -> bool {
    &&& 0 <= place
    &&& place + word.len() <= text.len()
    &&& forall|k: int| 0 <= k < word.len() ==> same_letter(#[trigger] text[place + k], word[k])
}

/// The letters of the text are the word, in small letters or capitals, and
/// nothing more.
pub open spec fn spells(text: Seq<char>, word: Seq<char>) -> bool {
    letters_of(text).len() == word.len() && word_at(letters_of(text), word, 0)
}

/// The letters of a text.
pub fn letters(text: &Vec<char>) -> (found: Vec<char>)
    ensures
        found@ == letters_of(text@),
{
    let mut found: Vec<char> = Vec::new();
    let mut i: usize = 0;
    assert(text@.take(0) =~= Seq::<char>::empty());
    while i < text.len()
        invariant
            i <= text@.len(),
            found@ == letters_of(text@.take(i as int)),
        decreases text@.len() - i,
    {
        let c = text[i];
        let code = c as u32;
        proof {
            assert(text@.take(i + 1).drop_last() =~= text@.take(i as int));
            assert(text@.take(i + 1).last() == c);
        }
        if (97 <= code && code <= 122) || (65 <= code && code <= 90) {
            found.push(c);
        }
        i += 1;
    }
    assert(text@.take(i as int) =~= text@);
    found
}

/// The word stands in the text at the place.
fn stands_at(text: &Vec<char>, word: &Vec<char>, place: usize) -> (yes: bool)
    requires
        place + word@.len() <= text@.len(),
    ensures
        yes == word_at(text@, word@, place as int),
{
    let mut k: usize = 0;
    while k < word.len()
        invariant
            k <= word.len(),
            place + word.len() <= text.len(),
            forall|m: int| 0 <= m < k ==> same_letter(#[trigger] text@[place + m], word@[m]),
        decreases word.len() - k,
    {
        let c = text[place + k];
        let small = word[k];
        let code = c as u32;
        let wanted = small as u32;
        if !(c == small || (wanted >= 32 && code == wanted - 32)) {
            assert(!same_letter(text@[place + k], word@[k as int]));
            return false;
        }
        k += 1;
    }
    true
}

/// The letters of the text are the word and nothing more.
pub fn spells_word(text: &Vec<char>, word: &Vec<char>) -> (yes: bool)
    ensures
        yes == spells(text@, word@),
{
    let found = letters(text);
    if found.len() != word.len() {
        return false;
    }
    stands_at(&found, word, 0)
}

} // verus!
