//! Text as sequences of characters: copying a string's characters out,
//! finding a character, cutting a piece, and putting pieces together.

use vstd::prelude::*;
use vstd::string::StrSliceExecFns;
use vstd::string::StringExecFns;

verus! {

/// The place of the first `c` in `s` at or behind `from`, or the length of
/// `s` where there is none.
pub open spec fn find_char(s: Seq<char>, c: char, from: int) -> int
    decreases s.len() - from,
{
    if from < 0 || from >= s.len() {
        s.len() as int
    } else if s[from] == c {
        from
    } else {
        find_char(s, c, from + 1)
    }
}

/// The place of the last `c` in `s` before `end`, or `-1` where there is
/// none.
pub open spec fn find_last_char(s: Seq<char>, c: char, end: int) -> int
    decreases end,
{
    if end <= 0 || end > s.len() {
        -1
    } else if s[end - 1] == c {
        end - 1
    } else {
        find_last_char(s, c, end - 1)
    }
}

/// The characters of `text`, in order.
pub fn to_chars(text: &str) -> (chars: Vec<char>)
    ensures
        chars@ == text@,
{
    let mut chars: Vec<char> = Vec::new();
    for c in it: text.chars()
        invariant
            chars@ == it.seq().take(it.index() as int),
            it.seq() == text@,
    {
        chars.push(c);
    }
    chars
}

/// The place of the first `c` at or behind `from`, or the length of the
/// text where there is none.
pub fn find_char_from(chars: &Vec<char>, c: char, from: usize) -> (place: usize)
    requires
        from <= chars.len(),
    ensures
        place == find_char(chars@, c, from as int),
        from <= place <= chars.len(),
{
    let mut i: usize = from;
    while i < chars.len()
        invariant
            from <= i <= chars.len(),
            find_char(chars@, c, from as int) == find_char(chars@, c, i as int),
        decreases chars.len() - i,
    {
        if chars[i] == c {
            return i;
        }
        i += 1;
    }
    i
}

/// The place of the last `c` before `end`, or `None` where there is none.
pub fn find_last_char_before(chars: &Vec<char>, c: char, end: usize) -> (place: Option<usize>)
    requires
        end <= chars.len(),
    ensures
        match place {
            Some(i) => i == find_last_char(chars@, c, end as int) && i < end,
            None => find_last_char(chars@, c, end as int) == -1,
        },
{
    let mut i: usize = end;
    while i > 0
        invariant
            i <= end <= chars.len(),
            find_last_char(chars@, c, end as int) == find_last_char(chars@, c, i as int),
        decreases i,
    {
        if chars[i - 1] == c {
            return Some(i - 1);
        }
        i -= 1;
    }
    None
}

/// Whether the characters from `from` up to `to` spell `word`.
pub fn piece_is(chars: &Vec<char>, from: usize, to: usize, word: &Vec<char>) -> (same: bool)
    requires
        from <= to <= chars.len(),
    ensures
        same == (chars@.subrange(from as int, to as int) == word@),
{
    if to - from != word.len() {
        return false;
    }
    let mut i: usize = 0;
    while i < word.len()
        invariant
            i <= word.len(),
            from <= to <= chars.len(),
            to - from == word.len(),
            forall|k: int| 0 <= k < i ==> chars[from + k] == word[k],
        decreases word.len() - i,
    {
        if chars[from + i] != word[i] {
            return false;
        }
        i += 1;
    }
    assert(chars@.subrange(from as int, to as int) =~= word@);
    true
}

/// Whether the two texts are the same.
pub fn text_is(text: &str, word: &str) -> (same: bool)
    ensures
        same == (text@ == word@),
{
    let a: String = text.to_owned();
    let b: String = word.to_owned();
    a == b
}

/// The two texts, one behind the other.
pub fn concat2(first: &str, second: &str) -> (joined: String)
    ensures
        joined@ == first@ + second@,
{
    let mut joined = String::from_str(first);
    joined.append(second);
    joined
}

/// The three texts, one behind the other.
pub fn concat3(first: &str, second: &str, third: &str) -> (joined: String)
    ensures
        joined@ == first@ + second@ + third@,
{
    let mut joined = String::from_str(first);
    joined.append(second);
    joined.append(third);
    joined
}

/// The piece of `text` from `from` up to `to`, counted in characters.
pub fn piece(text: &str, from: usize, to: usize) -> (cut: String)
    requires
        from <= to <= text@.len(),
    ensures
        cut@ == text@.subrange(from as int, to as int),
{
    String::from_str(text.substring_char(from, to))
}

} // verus!
