//! Comparing and splitting text.
//!
//! A `&str` is modelled by its characters. The functions here work on the
//! UTF-8 bytes and are proved to do what their contracts say of the characters.

use std::borrow::Cow;
use vstd::prelude::*;
use vstd::string::*;
use vstd::utf8::*;

verus! {

/// What stands before and after the first `c` in `s`, if `s` holds a `c`.
pub open spec fn split_first(s: Seq<char>, c: char) -> Option<(Seq<char>, Seq<char>)>
    decreases s.len(),
{
    if s.len() == 0 {
        None
    } else if s[0] == c {
        Some((Seq::empty(), s.drop_first()))
    } else {
        match split_first(s.drop_first(), c) {
            Some((before, after)) => Some((seq![s[0]] + before, after)),
            None => None,
        }
    }
}

/// Splitting fails exactly on text without the character. Otherwise the two
/// parts joined by it give the text back, and the first part is free of it.
pub proof fn lemma_split_first_parts(s: Seq<char>, c: char)
    ensures
        split_first(s, c) is None <==> !s.contains(c),
        split_first(s, c) matches Some((before, after)) ==> {
            &&& s == before + seq![c] + after
            &&& !before.contains(c)
        },
    decreases s.len(),
{
    if s.len() > 0 {
        let tail = s.drop_first();
        lemma_split_first_parts(tail, c);
        assert(s == seq![s[0]] + tail);
        if s[0] == c {
            assert(s.contains(c));
            assert(s == Seq::<char>::empty() + seq![c] + tail);
        } else if split_first(tail, c) is Some {
            let (before, after) = split_first(tail, c)->0;
            assert(tail.contains(c));
            let k = choose|k: int| 0 <= k < tail.len() && tail[k] == c;
            assert(s[k + 1] == c);
            assert(s == seq![s[0]] + before + seq![c] + after);
            assert forall|i: int| 0 <= i < before.len() + 1 implies (seq![s[0]] + before)[i]
                != c by {
                if i > 0 {
                    assert((seq![s[0]] + before)[i] == before[i - 1]);
                    assert(before.contains(before[i - 1]));
                }
            }
        } else {
            assert forall|i: int| 0 <= i < s.len() implies s[i] != c by {
                if i > 0 {
                    assert(s[i] == tail[i - 1]);
                    assert(tail.contains(tail[i - 1]));
                }
            }
        }
    }
}

/// Text made of a part without the character, the character, and any rest is
/// split into just that part and that rest.
pub proof fn lemma_split_first_joined(before: Seq<char>, c: char, after: Seq<char>)
    requires
        !before.contains(c),
    ensures
        split_first(before + seq![c] + after, c) == Some((before, after)),
    decreases before.len(),
{
    let s = before + seq![c] + after;
    if before.len() == 0 {
        assert(before == Seq::<char>::empty());
        assert(s.drop_first() == after);
    } else {
        let rest = before.drop_first();
        assert(before.contains(before[0]));
        assert forall|i: int| 0 <= i < rest.len() implies rest[i] != c by {
            assert(rest[i] == before[i + 1]);
            assert(before.contains(before[i + 1]));
        }
        lemma_split_first_joined(rest, c, after);
        assert(s.drop_first() == rest + seq![c] + after);
        assert(seq![s[0]] + rest == before);
    }
}

proof fn lemma_encode_concat(a: Seq<char>, b: Seq<char>)
    ensures
        encode_utf8(a + b) == encode_utf8(a) + encode_utf8(b),
    decreases a.len(),
{
    if a.len() == 0 {
        assert(a + b == b);
    } else {
        lemma_encode_concat(a.drop_first(), b);
        assert((a + b).drop_first() == a.drop_first() + b);
    }
}

proof fn lemma_encode_injective(a: Seq<char>, b: Seq<char>)
    requires
        encode_utf8(a) == encode_utf8(b),
    ensures
        a == b,
{
    encode_utf8_decode_utf8(a);
    encode_utf8_decode_utf8(b);
}

/// The encoding of an ASCII character is one byte with the same number.
proof fn lemma_encode_ascii(c: char)
    requires
        c as u32 <= 0x7f,
    ensures
        encode_utf8(seq![c]) == seq![c as u8],
{
    assert(is_ascii_chars(seq![c]));
    is_ascii_chars_encode_utf8(seq![c]);
}

/// Text that holds an ASCII character holds its byte.
proof fn lemma_encode_contains_ascii(s: Seq<char>, c: char)
    requires
        c as u32 <= 0x7f,
        s.contains(c),
    ensures
        encode_utf8(s).contains(c as u8),
{
    let k = choose|k: int| 0 <= k < s.len() && s[k] == c;
    let before = s.take(k);
    let after = s.skip(k + 1);
    assert(s == before + seq![c] + after);
    lemma_encode_concat(before + seq![c], after);
    lemma_encode_concat(before, seq![c]);
    lemma_encode_ascii(c);
    assert(encode_utf8(s)[encode_utf8(before).len() as int] == c as u8);
}

/// Whether two texts are the same.
pub fn str_eq(a: &str, b: &str) -> (res: bool)
    ensures
        res == (a@ == b@),
{
    let x: &[u8] = a.as_bytes();
    let y: &[u8] = b.as_bytes();
    if x.len() != y.len() {
        return false;
    }
    let mut i: usize = 0;
    while i < x.len()
        invariant
            x@ == a.spec_bytes(),
            y@ == b.spec_bytes(),
            x@.len() == y@.len(),
            i <= x@.len(),
            forall|j: int| 0 <= j < i ==> x@[j] == y@[j],
        decreases x@.len() - i,
    {
        if x[i] != y[i] {
            return false;
        }
        i += 1;
    }
    proof {
        assert(x@ == y@);
        lemma_encode_injective(a@, b@);
    }
    true
}

/// Whether the two texts agree before `k`, and there the first one ends before
/// the second or has the smaller character.
pub open spec fn differs_below_at(a: Seq<char>, b: Seq<char>, k: int) -> bool {
    &&& 0 <= k <= a.len()
    &&& k < b.len()
    &&& a.take(k) == b.take(k)
    &&& k < a.len() ==> a[k] < b[k]
}

/// Whether `a` comes before `b` in the order of texts: by the first character
/// in which they differ, and a text before all that it is the beginning of.
pub open spec fn precedes(a: Seq<char>, b: Seq<char>) -> bool {
    exists|k: int| differs_below_at(a, b, k)
}

/// Two texts are the same, or just one of them comes before the other.
pub proof fn law_texts_are_ordered(a: Seq<char>, b: Seq<char>)
    ensures
        a == b <==> !precedes(a, b) && !precedes(b, a),
        !(precedes(a, b) && precedes(b, a)),
{
    if precedes(a, b) && precedes(b, a) {
        let j = choose|j: int| differs_below_at(a, b, j);
        let k = choose|k: int| differs_below_at(b, a, k);
        if j < k {
            assert(a[j] == a.take(k)[j]);
            assert(b[j] == b.take(k)[j]);
        } else if k < j {
            assert(a[k] == a.take(j)[k]);
            assert(b[k] == b.take(j)[k]);
        }
    }
    if a == b && precedes(a, b) {
        let k = choose|k: int| differs_below_at(a, b, k);
        assert(false);
    }
    if !precedes(a, b) && !precedes(b, a) {
        lemma_no_difference(a, b, if a.len() < b.len() {
            a.len() as int
        } else {
            b.len() as int
        });
        if a.len() < b.len() {
            assert(a.take(a.len() as int) == b.take(a.len() as int));
            assert(differs_below_at(a, b, a.len() as int));
        } else if b.len() < a.len() {
            assert(differs_below_at(b, a, b.len() as int));
        } else {
            assert(a.take(a.len() as int) == a);
            assert(b.take(b.len() as int) == b);
        }
    }
}

proof fn lemma_no_difference(a: Seq<char>, b: Seq<char>, k: int)
    requires
        !precedes(a, b),
        !precedes(b, a),
        0 <= k <= a.len(),
        k <= b.len(),
    ensures
        a.take(k) == b.take(k),
    decreases k,
{
    if k > 0 {
        lemma_no_difference(a, b, k - 1);
        assert(!differs_below_at(a, b, k - 1));
        assert(!differs_below_at(b, a, k - 1));
        assert(a[k - 1] == b[k - 1]);
        assert(a.take(k) == a.take(k - 1).push(a[k - 1]));
        assert(b.take(k) == b.take(k - 1).push(b[k - 1]));
    }
}

/// Of two texts that differ after a common beginning, the one with the smaller
/// character there comes first; a text comes before every longer one that
/// begins with it.
pub proof fn law_first_difference_decides(
    common: Seq<char>,
    x: char,
    after_x: Seq<char>,
    y: char,
    after_y: Seq<char>,
)
    requires
        x < y,
    ensures
        precedes(common + seq![x] + after_x, common + seq![y] + after_y),
        !precedes(common + seq![y] + after_y, common + seq![x] + after_x),
        precedes(common, common + seq![y] + after_y),
        !precedes(common + seq![y] + after_y, common),
{
    let a = common + seq![x] + after_x;
    let b = common + seq![y] + after_y;
    let k = common.len() as int;
    assert(a.take(k) == common);
    assert(b.take(k) == common);
    assert(common.take(k) == common);
    assert(differs_below_at(a, b, k));
    assert(differs_below_at(common, b, k));
    law_texts_are_ordered(a, b);
    law_texts_are_ordered(common, b);
}

/// A text that comes before one that comes before a third comes before the
/// third.
pub proof fn law_text_order_transitive(a: Seq<char>, b: Seq<char>, c: Seq<char>)
    requires
        precedes(a, b),
        precedes(b, c),
    ensures
        precedes(a, c),
{
    let j = choose|j: int| differs_below_at(a, b, j);
    let k = choose|k: int| differs_below_at(b, c, k);
    let m = if j < k {
        j
    } else {
        k
    };
    assert(a.take(m) == a.take(j).take(m));
    assert(b.take(m) == b.take(j).take(m));
    assert(b.take(m) == b.take(k).take(m));
    assert(c.take(m) == c.take(k).take(m));
    if j < k {
        assert(b[j] == b.take(k)[j]);
        assert(c[j] == c.take(k)[j]);
    } else if k < j {
        assert(a[k] == a.take(j)[k]);
        assert(b[k] == b.take(j)[k]);
    }
    assert(differs_below_at(a, c, m));
}

/// Whether `a` comes before `b` in the order of texts.
pub fn str_precedes(a: &str, b: &str) -> (res: bool)
    ensures
        res == precedes(a@, b@),
{
    let mut left = a.chars();
    let mut right = b.chars();
    let ghost mut k: int = 0;
    loop
        invariant
            0 <= k <= a@.len(),
            k <= b@.len(),
            a@.take(k) == b@.take(k),
            vstd::std_specs::iter::IteratorSpec::remaining(&left) == a@.skip(k),
            vstd::std_specs::iter::IteratorSpec::remaining(&right) == b@.skip(k),
        decreases a@.len() - k,
    {
        let x: Option<char> = left.next();
        let y: Option<char> = right.next();
        match (x, y) {
            (Some(x), Some(y)) => {
                assert(x == a@[k]);
                assert(y == b@[k]);
                if x < y {
                    assert(differs_below_at(a@, b@, k));
                    return true;
                }
                if y < x {
                    proof {
                        assert(differs_below_at(b@, a@, k));
                        law_texts_are_ordered(a@, b@);
                    }
                    return false;
                }
                proof {
                    assert(a@.take(k + 1) == a@.take(k).push(x));
                    assert(b@.take(k + 1) == b@.take(k).push(y));
                    assert(a@.skip(k).drop_first() == a@.skip(k + 1));
                    assert(b@.skip(k).drop_first() == b@.skip(k + 1));
                    k = k + 1;
                }
            },
            (None, Some(_)) => {
                assert(differs_below_at(a@, b@, k));
                return true;
            },
            (Some(_), None) => {
                proof {
                    assert(differs_below_at(b@, a@, k));
                    law_texts_are_ordered(a@, b@);
                }
                return false;
            },
            (None, None) => {
                proof {
                    assert(a@.take(k) == a@);
                    assert(b@.take(k) == b@);
                    law_texts_are_ordered(a@, b@);
                }
                return false;
            },
        }
    }
}

/// Splits at the first `delimiter`, an ASCII character.
pub fn split_once<'a>(s: &'a str, delimiter: char) -> (res: Option<(&'a str, &'a str)>)
    requires
        delimiter as u32 <= 0x7f,
    ensures
        match res {
            Some((before, after)) => split_first(s@, delimiter) == Some((before@, after@)),
            None => split_first(s@, delimiter) is None,
        },
        match res {
            Some((before, after)) => {
                &&& s@ == before@ + seq![delimiter] + after@
                &&& !before@.contains(delimiter)
            },
            None => !s@.contains(delimiter),
        },
{
    let bytes: &[u8] = s.as_bytes();
    let byte: u8 = delimiter as u8;
    let mut i: usize = 0;
    while i < bytes.len()
        invariant
            bytes@ == s.spec_bytes(),
            delimiter as u32 <= 0x7f,
            byte == delimiter as u8,
            i <= bytes@.len(),
            forall|j: int| 0 <= j < i ==> bytes@[j] != byte,
        decreases bytes@.len() - i,
    {
        if bytes[i] == byte {
            proof {
                encode_utf8_valid_utf8(s@);
                is_char_boundary_iff_not_is_continuation_byte(bytes@, i as int);
            }
            let (before, rest) = s.split_at(i);
            proof {
                encode_utf8_valid_utf8(rest@);
                assert(rest.spec_bytes()[0] == byte);
                reveal_with_fuel(is_char_boundary, 2);
            }
            let (middle, after) = rest.split_at(1);
            proof {
                lemma_encode_ascii(delimiter);
                assert(middle.spec_bytes() == seq![byte]);
                lemma_encode_injective(middle@, seq![delimiter]);
                lemma_encode_concat(before@ + middle@, after@);
                lemma_encode_concat(before@, middle@);
                assert(bytes@ == before.spec_bytes() + middle.spec_bytes() + after.spec_bytes());
                lemma_encode_injective(s@, before@ + middle@ + after@);
                if before@.contains(delimiter) {
                    lemma_encode_contains_ascii(before@, delimiter);
                }
                lemma_split_first_joined(before@, delimiter, after@);
            }
            return Some((before, after));
        }
        i += 1;
    }
    proof {
        lemma_split_first_parts(s@, delimiter);
        if s@.contains(delimiter) {
            lemma_encode_contains_ascii(s@, delimiter);
        }
    }
    None
}

/// The text that `cow` holds.
pub fn cow_str<'a>(cow: &'a Cow<'_, str>) -> (res: &'a str)
    ensures
        res@ == cow@,
{
    match cow {
        Cow::Borrowed(text) => text,
        Cow::Owned(text) => text.as_str(),
    }
}

/// The same text, borrowed or owned as before.
pub fn clone_cow<'a>(cow: &Cow<'a, str>) -> (res: Cow<'a, str>)
    ensures
        res == *cow,
{
    match cow {
        Cow::Borrowed(text) => Cow::Borrowed(text),
        Cow::Owned(text) => Cow::Owned(text.clone()),
    }
}

/// The same text, owned. A text that is owned already is handed back.
pub fn static_cow<'a>(cow: Cow<'a, str>) -> (res: Cow<'static, str>)
    ensures
        res@ == cow@,
        res is Owned,
        match (cow, res) {
            (Cow::Owned(text), Cow::Owned(same)) => same == text,
            _ => true,
        },
{
    match cow {
        Cow::Borrowed(text) => Cow::Owned(text.to_owned()),
        Cow::Owned(text) => Cow::Owned(text),
    }
}

} // verus!
