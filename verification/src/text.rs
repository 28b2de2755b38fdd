//! Texts as sequences of characters: equality, order, search and splitting.

use crate::number::{mirrored, Comparison};
use vstd::prelude::*;

verus! {

/// What `str::to_lowercase` makes of a text.
pub uninterp spec fn lowercased(text: Seq<char>) -> Seq<char>;

/// `str::to_lowercase` of std: the lowercase equivalent of the text, by the
/// Unicode rules, which depend on nothing but the text.
#[verifier::external_body]
fn lowercase(text: &str) -> (lower: String)
    ensures
        lower@ == lowercased(text@),
{
    text.to_lowercase()
}

/// `String::push` of std: appends one character.
#[verifier::external_body]
fn push_char(text: &mut String, c: char)
    ensures
        final(text)@ == old(text)@.push(c),
{
    text.push(c)
}

/// The characters of a text.
pub fn chars_of(text: &str) -> (chars: Vec<char>)
    ensures
        chars@ == text@,
{
    let mut chars: Vec<char> = Vec::new();
    for c in it: text.chars()
        invariant
            it.seq() == text@,
            chars@ == it.seq().take(it.index() as int),
    {
        chars.push(c);
    }
    chars
}

/// The text made of the characters from `from` up to `to`.
pub fn string_of(chars: &Vec<char>, from: usize, to: usize) -> (text: String)
    requires
        from <= to <= chars.len(),
    ensures
        text@ == chars@.subrange(from as int, to as int),
{
    let mut text = String::new();
    let mut i: usize = from;
    while i < to
        invariant
            from <= i <= to <= chars.len(),
            text@ == chars@.subrange(from as int, i as int),
        decreases to - i,
    {
        push_char(&mut text, chars[i]);
        i += 1;
    }
    text
}

/// Whether two texts hold the same characters.
pub fn text_equal(a: &str, b: &str) -> (same: bool)
    ensures
        same == (a@ == b@),
{
    let a_chars = chars_of(a);
    let b_chars = chars_of(b);
    if a_chars.len() != b_chars.len() {
        return false;
    }
    let mut i: usize = 0;
    while i < a_chars.len()
        invariant
            a_chars@ == a@,
            b_chars@ == b@,
            a_chars.len() == b_chars.len(),
            i <= a_chars.len(),
            a@.take(i as int) == b@.take(i as int),
        decreases a_chars.len() - i,
    {
        if a_chars[i] != b_chars[i] {
            return false;
        }
        proof {
            assert(a@.take(i + 1) == a@.take(i as int).push(a@[i as int]));
            assert(b@.take(i + 1) == b@.take(i as int).push(b@[i as int]));
        }
        i += 1;
    }
    proof {
        assert(a@.take(a@.len() as int) == a@);
        assert(b@.take(b@.len() as int) == b@);
    }
    true
}

/// The order of two texts: character by character, by code point, and a
/// proper prefix before the longer text.
pub open spec fn text_order(a: Seq<char>, b: Seq<char>) -> Comparison
    decreases a.len(),
{
    if a.len() == 0 && b.len() == 0 {
        Comparison::Equal
    } else if a.len() == 0 {
        Comparison::Less
    } else if b.len() == 0 {
        Comparison::Greater
    } else if (a[0] as u32) < (b[0] as u32) {
        Comparison::Less
    } else if (a[0] as u32) > (b[0] as u32) {
        Comparison::Greater
    } else {
        text_order(a.drop_first(), b.drop_first())
    }
}

/// Compares two texts.
pub fn compare_texts(a: &str, b: &str) -> (c: Comparison)
    ensures
        c == text_order(a@, b@),
{
    let a_chars = chars_of(a);
    let b_chars = chars_of(b);
    let mut i: usize = 0;
    proof {
        assert(a@.skip(0) == a@);
        assert(b@.skip(0) == b@);
    }
    while i < a_chars.len() && i < b_chars.len()
        invariant
            a_chars@ == a@,
            b_chars@ == b@,
            i <= a_chars.len(),
            i <= b_chars.len(),
            text_order(a@, b@) == text_order(a@.skip(i as int), b@.skip(i as int)),
        decreases a_chars.len() - i,
    {
        let x: u32 = a_chars[i] as u32;
        let y: u32 = b_chars[i] as u32;
        proof {
            assert(a@.skip(i as int).drop_first() == a@.skip(i + 1));
            assert(b@.skip(i as int).drop_first() == b@.skip(i + 1));
        }
        if x < y {
            return Comparison::Less;
        }
        if x > y {
            return Comparison::Greater;
        }
        i += 1;
    }
    if i < b_chars.len() {
        Comparison::Less
    } else if i < a_chars.len() {
        Comparison::Greater
    } else {
        Comparison::Equal
    }
}

/// Swapping two texts mirrors their order.
pub proof fn text_order_mirrors(a: Seq<char>, b: Seq<char>)
    ensures
        text_order(b, a) == mirrored(text_order(a, b)),
    decreases a.len(),
{
    if a.len() > 0 && b.len() > 0 && (a[0] as u32) == (b[0] as u32) {
        text_order_mirrors(a.drop_first(), b.drop_first());
    }
}

/// Two texts are equal in the order exactly where they are the same text.
pub proof fn text_order_equal_is_same(a: Seq<char>, b: Seq<char>)
    ensures
        text_order(a, b) == Comparison::Equal <==> a == b,
    decreases a.len(),
{
    if a.len() > 0 && b.len() > 0 {
        text_order_equal_is_same(a.drop_first(), b.drop_first());
        assert(a == seq![a[0]] + a.drop_first());
        assert(b == seq![b[0]] + b.drop_first());
        vstd::utf8::char_u32_cast(a[0], a[0] as u32);
        vstd::utf8::char_u32_cast(b[0], b[0] as u32);
    } else if a.len() == 0 && b.len() == 0 {
        assert(a == b);
    }
}

/// Whether `pattern` stands in `text` at position `at`.
pub open spec fn occurs_at(text: Seq<char>, pattern: Seq<char>, at: int) -> bool {
    &&& 0 <= at
    &&& at + pattern.len() <= text.len()
    &&& text.subrange(at, at + pattern.len()) == pattern
}

/// Whether `pattern` stands somewhere in `text`.
pub open spec fn occurs(text: Seq<char>, pattern: Seq<char>) -> bool {
    exists|at: int| occurs_at(text, pattern, at)
}

/// The first position at or after `from` where `pattern` stands in `text`,
/// or -1 where there is none.
pub open spec fn next_occurrence(text: Seq<char>, pattern: Seq<char>, from: int) -> int
    decreases text.len() + 1 - from,
{
    if from < 0 || from + pattern.len() > text.len() {
        -1
    } else if occurs_at(text, pattern, from) {
        from
    } else {
        next_occurrence(text, pattern, from + 1)
    }
}

/// `next_occurrence` finds an occurrence, and the first one from `from` on.
pub proof fn next_occurrence_is_first(text: Seq<char>, pattern: Seq<char>, from: int)
    requires
        0 <= from,
    ensures
        ({
            let at = next_occurrence(text, pattern, from);
            if at < 0 {
                at == -1 && forall|j: int| from <= j ==> !occurs_at(text, pattern, j)
            } else {
                &&& from <= at
                &&& occurs_at(text, pattern, at)
                &&& forall|j: int| from <= j < at ==> !occurs_at(text, pattern, j)
            }
        }),
    decreases text.len() + 1 - from,
{
    if from + pattern.len() > text.len() {
    } else if occurs_at(text, pattern, from) {
    } else {
        next_occurrence_is_first(text, pattern, from + 1);
    }
}

fn matches_at(text: &Vec<char>, pattern: &Vec<char>, at: usize) -> (found: bool)
    requires
        at + pattern.len() <= text.len(),
    ensures
        found == occurs_at(text@, pattern@, at as int),
{
    let mut k: usize = 0;
    while k < pattern.len()
        invariant
            at + pattern.len() <= text.len(),
            k <= pattern.len(),
            text@.subrange(at as int, at + k) == pattern@.take(k as int),
        decreases pattern.len() - k,
    {
        if text[at + k] != pattern[k] {
            proof {
                let whole = text@.subrange(at as int, at + pattern.len());
                assert(whole[k as int] == text@[at + k]);
            }
            return false;
        }
        proof {
            assert(text@.subrange(at as int, at + k + 1) == text@.subrange(at as int, at + k).push(
                text@[at + k],
            ));
            assert(pattern@.take(k + 1) == pattern@.take(k as int).push(pattern@[k as int]));
        }
        k += 1;
    }
    proof {
        assert(pattern@.take(pattern.len() as int) == pattern@);
    }
    true
}

/// The first position at or after `from` where `pattern` stands in `text`.
fn find_from(text: &Vec<char>, pattern: &Vec<char>, from: usize) -> (found: Option<usize>)
    requires
        from <= text.len(),
    ensures
        match found {
            Some(at) => at as int == next_occurrence(text@, pattern@, from as int),
            None => next_occurrence(text@, pattern@, from as int) == -1,
        },
{
    if pattern.len() > text.len() {
        return None;
    }
    let last: usize = text.len() - pattern.len();
    let mut at: usize = from;
    while at <= last
        invariant
            last == text.len() - pattern.len(),
            from <= at,
            next_occurrence(text@, pattern@, from as int) == next_occurrence(
                text@,
                pattern@,
                at as int,
            ),
        decreases last + 1 - at,
    {
        if matches_at(text, pattern, at) {
            return Some(at);
        }
        proof {
            if pattern.len() == 0 {
                assert(text@.subrange(at as int, at as int) == pattern@);
            }
        }
        at += 1;
    }
    None
}

/// Whether `inner` stands somewhere in `outer`.
pub fn contains(outer: &str, inner: &str) -> (found: bool)
    ensures
        found == occurs(outer@, inner@),
{
    let text = chars_of(outer);
    let pattern = chars_of(inner);
    let found = find_from(&text, &pattern, 0);
    proof {
        next_occurrence_is_first(text@, pattern@, 0);
    }
    found.is_some()
}

/// Whether `inner` stands somewhere in `outer`, letter case set aside.
pub fn contains_ignoring_case(outer: &str, inner: &str) -> (found: bool)
    ensures
        found == occurs(lowercased(outer@), lowercased(inner@)),
{
    let outer_lower = lowercase(outer);
    let inner_lower = lowercase(inner);
    contains(outer_lower.as_str(), inner_lower.as_str())
}

/// The segments of `text` from position `start` on, cut at each occurrence of
/// a delimiter that is not empty. Occurrences are taken from the left and do
/// not overlap.
pub open spec fn split_from(text: Seq<char>, delimiter: Seq<char>, start: int) -> Seq<Seq<char>>
    decreases text.len() - start,
{
    let at = next_occurrence(text, delimiter, start);
    if 0 <= start <= at && 0 < delimiter.len() && at + delimiter.len() <= text.len() {
        seq![text.subrange(start, at)] + split_from(text, delimiter, at + delimiter.len())
    } else {
        seq![text.subrange(start, text.len() as int)]
    }
}

/// The segments that `delimiter` cuts `text` into. There is always at least
/// one; a text that ends in the delimiter ends in an empty segment. An empty
/// delimiter cuts before and after every character.
pub open spec fn split(text: Seq<char>, delimiter: Seq<char>) -> Seq<Seq<char>> {
    if delimiter.len() == 0 {
        seq![Seq::<char>::empty()] + Seq::new(text.len(), |i: int| seq![text[i]])
            + seq![Seq::<char>::empty()]
    } else {
        split_from(text, delimiter, 0)
    }
}

/// The segments put together again, with the delimiter between them.
pub open spec fn glued(segments: Seq<Seq<char>>, delimiter: Seq<char>) -> Seq<char>
    decreases segments.len(),
{
    if segments.len() == 0 {
        Seq::empty()
    } else if segments.len() == 1 {
        segments[0]
    } else {
        segments[0] + delimiter + glued(segments.drop_first(), delimiter)
    }
}

/// The segments from `start` on, glued, are the text from `start` on, and
/// no segment holds the delimiter.
pub proof fn split_from_is_sound(text: Seq<char>, delimiter: Seq<char>, start: int)
    requires
        0 <= start <= text.len(),
        delimiter.len() > 0,
    ensures
        split_from(text, delimiter, start).len() >= 1,
        glued(split_from(text, delimiter, start), delimiter) == text.subrange(
            start,
            text.len() as int,
        ),
        forall|i: int|
            0 <= i < split_from(text, delimiter, start).len() ==> !occurs(
                #[trigger] split_from(text, delimiter, start)[i],
                delimiter,
            ),
    decreases text.len() - start,
{
    let at = next_occurrence(text, delimiter, start);
    let all = split_from(text, delimiter, start);
    next_occurrence_is_first(text, delimiter, start);
    if start <= at && at + delimiter.len() <= text.len() {
        let next = at + delimiter.len();
        let head = text.subrange(start, at);
        let rest = split_from(text, delimiter, next);
        split_from_is_sound(text, delimiter, next);
        assert(all == seq![head] + rest);
        assert(all[0] == head);
        assert(all.drop_first() == rest);
        assert(text.subrange(at, next) == delimiter);
        assert(glued(all, delimiter) == text.subrange(start, text.len() as int));
        assert forall|i: int| 0 <= i < all.len() implies !occurs(#[trigger] all[i], delimiter) by {
            if i == 0 {
                assert forall|k: int| !occurs_at(head, delimiter, k) by {
                    if occurs_at(head, delimiter, k) {
                        assert(head.subrange(k, k + delimiter.len()) == text.subrange(
                            start + k,
                            start + k + delimiter.len(),
                        ));
                        assert(occurs_at(text, delimiter, start + k));
                    }
                }
            } else {
                assert(all[i] == rest[i - 1]);
            }
        }
    } else {
        let tail = text.subrange(start, text.len() as int);
        assert(all == seq![tail]);
        assert(all[0] == tail);
        assert forall|k: int| !occurs_at(tail, delimiter, k) by {
            if occurs_at(tail, delimiter, k) {
                assert(tail.subrange(k, k + delimiter.len()) == text.subrange(
                    start + k,
                    start + k + delimiter.len(),
                ));
                assert(occurs_at(text, delimiter, start + k));
            }
        }
    }
}

/// The characters of a text, each a segment of its own and an empty segment
/// after them, glued with nothing between them, are the text.
proof fn glued_characters(text: Seq<char>)
    ensures
        glued(
            Seq::new(text.len(), |i: int| seq![text[i]]) + seq![Seq::<char>::empty()],
            Seq::<char>::empty(),
        ) == text,
    decreases text.len(),
{
    let nothing = Seq::<char>::empty();
    let all = Seq::new(text.len(), |i: int| seq![text[i]]) + seq![nothing];
    if text.len() == 0 {
        assert(all[0] == nothing);
        assert(glued(all, nothing) == text);
    } else {
        let shorter = text.drop_first();
        glued_characters(shorter);
        assert(all.drop_first() == Seq::new(shorter.len(), |i: int| seq![shorter[i]]) + seq![
            nothing,
        ]);
        assert(all[0] == seq![text[0]]);
        assert(seq![text[0]] + nothing + shorter == text);
    }
}

/// Splitting loses nothing: the segments, glued with the delimiter between
/// them, are the text again. There is always a segment, and where the
/// delimiter is not empty, no segment holds it.
pub proof fn split_is_sound(text: Seq<char>, delimiter: Seq<char>)
    ensures
        split(text, delimiter).len() >= 1,
        glued(split(text, delimiter), delimiter) == text,
        delimiter.len() > 0 ==> forall|i: int|
            0 <= i < split(text, delimiter).len() ==> !occurs(
                #[trigger] split(text, delimiter)[i],
                delimiter,
            ),
{
    if delimiter.len() == 0 {
        let nothing = Seq::<char>::empty();
        let inner = Seq::new(text.len(), |i: int| seq![text[i]]) + seq![nothing];
        let all = split(text, delimiter);
        glued_characters(text);
        assert(delimiter == nothing);
        assert(all == seq![nothing] + inner);
        assert(all[0] == nothing);
        assert(all.drop_first() == inner);
        assert(nothing + nothing + text == text);
    } else {
        split_from_is_sound(text, delimiter, 0);
        assert(text.subrange(0, text.len() as int) == text);
    }
}

/// Splits `text` at each occurrence of `delimiter`.
pub fn split_text(text: &str, delimiter: &str) -> (segments: Vec<String>)
    ensures
        segments.deep_view() == split(text@, delimiter@),
{
    let chars = chars_of(text);
    let pattern = chars_of(delimiter);
    let mut segments: Vec<String> = Vec::new();
    if pattern.len() == 0 {
        segments.push(String::new());
        let mut i: usize = 0;
        while i < chars.len()
            invariant
                chars@ == text@,
                i <= chars.len(),
                segments.deep_view() == seq![Seq::<char>::empty()] + Seq::new(
                    i as nat,
                    |j: int| seq![text@[j]],
                ),
            decreases chars.len() - i,
        {
            let piece = string_of(&chars, i, i + 1);
            let ghost before = segments.deep_view();
            segments.push(piece);
            proof {
                assert(piece@ == seq![text@[i as int]]);
                assert(segments.deep_view() == before.push(piece@));
                assert(before.push(piece@) == seq![Seq::<char>::empty()] + Seq::new(
                    (i + 1) as nat,
                    |j: int| seq![text@[j]],
                ));
            }
            i += 1;
        }
        let ghost before = segments.deep_view();
        segments.push(String::new());
        proof {
            assert(segments.deep_view() == before.push(Seq::<char>::empty()));
            assert(before.push(Seq::<char>::empty()) == split(text@, delimiter@));
        }
        return segments;
    }
    proof {
        assert(segments.deep_view() == Seq::<Seq<char>>::empty());
        assert(segments.deep_view() + split_from(text@, delimiter@, 0) == split_from(
            text@,
            delimiter@,
            0,
        ));
    }
    let mut start: usize = 0;
    loop
        invariant
            chars@ == text@,
            pattern@ == delimiter@,
            pattern.len() > 0,
            start <= chars.len(),
            segments.deep_view() + split_from(text@, delimiter@, start as int) == split_from(
                text@,
                delimiter@,
                0,
            ),
        decreases chars.len() - start,
    {
        let ghost before = segments.deep_view();
        let ghost rest = split_from(text@, delimiter@, start as int);
        proof {
            next_occurrence_is_first(text@, delimiter@, start as int);
        }
        match find_from(&chars, &pattern, start) {
            None => {
                let piece = string_of(&chars, start, chars.len());
                segments.push(piece);
                proof {
                    assert(segments.deep_view() == before.push(piece@));
                    assert(rest == seq![piece@]);
                    assert(before.push(piece@) == before + rest);
                }
                return segments;
            },
            Some(at) => {
                let piece = string_of(&chars, start, at);
                segments.push(piece);
                start = at + pattern.len();
                proof {
                    assert(segments.deep_view() == before.push(piece@));
                    assert(rest == seq![piece@] + split_from(text@, delimiter@, start as int));
                    assert(before.push(piece@) + split_from(text@, delimiter@, start as int)
                        == before + rest);
                }
            },
        }
    }
}

} // verus!
