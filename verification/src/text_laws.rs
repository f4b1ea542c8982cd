//! What the texts and paths that are built and taken apart come to.

use vstd::prelude::*;
use vstd::utf8::*;
use crate::path;
use crate::text;

verus! {

/// The number that a row of decimal digits stands for.
pub open spec fn value(digits: Seq<char>) -> int
    decreases digits.len(),
{
    if digits.len() == 0 {
        0
    } else {
        value(digits.drop_last()) * 10 + (digits.last() as int - '0' as int)
    }
}

/// Whether a text is a number in decimal notation: digits, and no zero in front of others.
pub open spec fn is_number(digits: Seq<char>) -> bool {
    &&& digits.len() > 0
    &&& forall|i: int| 0 <= i < digits.len() ==> '0' <= #[trigger] digits[i] <= '9'
    &&& digits.len() > 1 ==> digits[0] != '0'
}

/// The decimal notation of a number is a number, and reads back as that number.
pub proof fn decimal_reads_back(n: nat)
    ensures
        is_number(text::decimal(n)),
        value(text::decimal(n)) == n,
        text::decimal(n)[0] == '0' ==> n == 0,
    decreases n,
{
    let d = text::decimal(n);
    if n < 10 {
        assert(d.drop_last() =~= Seq::empty());
        assert(value(d.drop_last()) == 0);
    } else {
        decimal_reads_back(n / 10);
        assert(d.drop_last() =~= text::decimal(n / 10));
        assert(d[0] == text::decimal(n / 10)[0]);
        assert forall|i: int| 0 <= i < d.len() implies '0' <= #[trigger] d[i] <= '9' by {
            if i < d.len() - 1 {
                assert(d[i] == text::decimal(n / 10)[i]);
            }
        }
    }
}

/// The decimal notation of an integer reads back as it: a negative one is a minus sign with the
/// number behind it, another is the number alone.
pub proof fn signed_decimal_reads_back(n: int)
    ensures
        n < 0 ==> text::signed_decimal(n)[0] == '-' && is_number(text::signed_decimal(n).skip(1))
            && value(text::signed_decimal(n).skip(1)) == -n,
        n >= 0 ==> is_number(text::signed_decimal(n)) && value(text::signed_decimal(n)) == n,
{
    if n < 0 {
        decimal_reads_back((-n) as nat);
        assert(text::signed_decimal(n).skip(1) =~= text::decimal((-n) as nat));
    } else {
        decimal_reads_back(n as nat);
    }
}

/// Different integers have different decimal notations.
pub proof fn signed_decimal_injective(a: int, b: int)
    requires
        text::signed_decimal(a) == text::signed_decimal(b),
    ensures
        a == b,
{
    signed_decimal_reads_back(a);
    signed_decimal_reads_back(b);
    if a >= 0 {
        assert('0' <= text::signed_decimal(a)[0] <= '9');
    }
    if b >= 0 {
        assert('0' <= text::signed_decimal(b)[0] <= '9');
    }
}

/// Whether one character is the ASCII capital of another.
pub open spec fn is_capital_of(a: char, b: char) -> bool {
    'A' <= a <= 'Z' && b as int == a as int + ('a' as int - 'A' as int)
}

/// Texts are the same but for case where they are equally long and each character of the one is
/// that of the other, or one of the two is the ASCII capital of the other.
pub proof fn case_is_that_of_ascii(a: Seq<char>, b: Seq<char>)
    ensures
        text::same_ignoring_case(a, b) <==> a.len() == b.len() && forall|i: int|
            0 <= i < a.len() ==> #[trigger] a[i] == b[i] || is_capital_of(a[i], b[i])
                || is_capital_of(b[i], a[i]),
{
    assert forall|x: char, y: char|
        (#[trigger] text::lower(x) == #[trigger] text::lower(y)) == (x == y || is_capital_of(x, y)
            || is_capital_of(y, x)) by {}
    if text::same_ignoring_case(a, b) {
        assert forall|i: int| 0 <= i < a.len() implies #[trigger] a[i] == b[i] || is_capital_of(
            a[i],
            b[i],
        ) || is_capital_of(b[i], a[i]) by {
            assert(text::lower(a[i]) == text::lower(b[i]));
        }
    }
}

/// Every text is the same as itself but for case, and the order of the two does not matter.
pub proof fn case_relates_both_ways(a: Seq<char>, b: Seq<char>)
    ensures
        text::same_ignoring_case(a, a),
        text::same_ignoring_case(a, b) == text::same_ignoring_case(b, a),
{
    if text::same_ignoring_case(a, b) {
        assert forall|i: int| 0 <= i < b.len() implies text::lower(#[trigger] b[i]) == text::lower(
            a[i],
        ) by {
            assert(text::lower(a[i]) == text::lower(b[i]));
        }
    }
    if text::same_ignoring_case(b, a) {
        assert forall|i: int| 0 <= i < a.len() implies text::lower(#[trigger] a[i]) == text::lower(
            b[i],
        ) by {
            assert(text::lower(b[i]) == text::lower(a[i]));
        }
    }
}

/// The characters that are white space, and no others.
pub proof fn white_space_is_listed(c: char)
    ensures
        text::white_space(c) <==> (c == '\t' || c == '\n' || c == '\u{b}' || c == '\u{c}' || c
            == '\r' || c == ' ' || c == '\u{85}' || c == '\u{a0}' || c == '\u{1680}' || c
            == '\u{2000}' || c == '\u{2001}' || c == '\u{2002}' || c == '\u{2003}' || c
            == '\u{2004}' || c == '\u{2005}' || c == '\u{2006}' || c == '\u{2007}' || c
            == '\u{2008}' || c == '\u{2009}' || c == '\u{200a}' || c == '\u{2028}' || c
            == '\u{2029}' || c == '\u{202f}' || c == '\u{205f}' || c == '\u{3000}'),
{
}

/// Whether `inner` is what stands in `text` from `i` to `j`, with nothing but white space around
/// it and none at its ends.
pub open spec fn is_inner(text: Seq<char>, inner: Seq<char>, i: int, j: int) -> bool {
    &&& 0 <= i <= j <= text.len()
    &&& inner == text.subrange(i, j)
    &&& forall|k: int| 0 <= k < i ==> text::white_space(#[trigger] text[k])
    &&& forall|k: int| j <= k < text.len() ==> text::white_space(#[trigger] text[k])
    &&& i < j ==> !text::white_space(text[i]) && !text::white_space(text[j - 1])
}

proof fn front_is_cut(text: Seq<char>) -> (i: int)
    ensures
        0 <= i <= text.len(),
        text::trimmed_front(text) == text.skip(i),
        forall|k: int| 0 <= k < i ==> text::white_space(#[trigger] text[k]),
        i < text.len() ==> !text::white_space(text[i]),
    decreases text.len(),
{
    if text.len() > 0 && text::white_space(text[0]) {
        let rest = text.drop_first();
        let j = front_is_cut(rest);
        assert(rest.skip(j) =~= text.skip(j + 1));
        assert forall|k: int| 0 <= k < j + 1 implies text::white_space(#[trigger] text[k]) by {
            if k > 0 {
                assert(rest[k - 1] == text[k]);
            }
        }
        if j + 1 < text.len() {
            assert(rest[j] == text[j + 1]);
        }
        j + 1
    } else {
        assert(text.skip(0) =~= text);
        0
    }
}

proof fn back_is_cut(text: Seq<char>) -> (j: int)
    ensures
        0 <= j <= text.len(),
        text::trimmed_back(text) == text.take(j),
        forall|k: int| j <= k < text.len() ==> text::white_space(#[trigger] text[k]),
        j > 0 ==> !text::white_space(text[j - 1]),
    decreases text.len(),
{
    if text.len() > 0 && text::white_space(text.last()) {
        let rest = text.drop_last();
        let j = back_is_cut(rest);
        assert(rest.take(j) =~= text.take(j));
        assert forall|k: int| j <= k < text.len() implies text::white_space(#[trigger] text[k]) by {
            if k < rest.len() {
                assert(rest[k] == text[k]);
            }
        }
        if j > 0 {
            assert(rest[j - 1] == text[j - 1]);
        }
        j
    } else {
        assert(text.take(text.len() as int) =~= text);
        text.len() as int
    }
}

/// A trimmed text is the part of the text between the white space at its ends: what is cut off is
/// white space, what is kept neither begins nor ends with any, and nothing in between is changed.
pub proof fn trimmed_is_the_middle(text: Seq<char>)
    ensures
        exists|i: int, j: int| #[trigger] is_inner(text, text::trimmed(text), i, j),
{
    let i = front_is_cut(text);
    let front = text.skip(i);
    let n = back_is_cut(front);
    let j = i + n;
    assert(front.take(n) =~= text.subrange(i, j));
    assert forall|k: int| j <= k < text.len() implies text::white_space(#[trigger] text[k]) by {
        assert(front[k - i] == text[k]);
    }
    if i < j {
        assert(front[n - 1] == text[j - 1]);
    }
    assert(is_inner(text, text::trimmed(text), i, j));
}

/// A text is spelled by its UTF-8 and by no other bytes.
pub proof fn text_is_its_utf8(bytes: Seq<u8>, spelled: Seq<char>)
    ensures
        text::utf8_text(bytes) == Some(spelled) <==> bytes == encode_utf8(spelled),
        text::utf8_text(bytes) is Some <==> valid_utf8(bytes),
{
    encode_utf8_valid_utf8(spelled);
    encode_utf8_decode_utf8(spelled);
    if valid_utf8(bytes) {
        decode_utf8_encode_utf8(bytes);
    }
}

/// What a text shortened to `max` characters is: itself where it is short enough, and else an
/// ellipsis with as many of its last characters as there is room for.
pub proof fn shortened_fills_its_room(text: Seq<char>, max: nat)
    ensures
        text.len() <= max ==> text::ellipsized(text, max) == text,
        text.len() > max && max > 0 ==> text::ellipsized(text, max).len() == max,
        text.len() > max && max == 0 ==> text::ellipsized(text, max).len() == 1,
        text.len() > max ==> text::ellipsized(text, max)[0] == '…' && forall|i: int|
            1 <= i < text::ellipsized(text, max).len() ==> #[trigger] text::ellipsized(text, max)[i]
                == text[text.len() - text::ellipsized(text, max).len() + i],
{
}

proof fn last_dot_is_last(name: Seq<u8>)
    ensures
        -1 <= path::last_dot(name) < name.len(),
        path::last_dot(name) >= 0 ==> name[path::last_dot(name)] == 0x2e,
        forall|k: int| path::last_dot(name) < k < name.len() ==> #[trigger] name[k] != 0x2e,
    decreases name.len(),
{
    if name.len() > 0 && name.last() != 0x2e {
        let rest = name.drop_last();
        last_dot_is_last(rest);
        assert forall|k: int| path::last_dot(name) < k < name.len() implies #[trigger] name[k]
            != 0x2e by {
            if k < rest.len() {
                assert(rest[k] == name[k]);
            }
        }
        if path::last_dot(name) >= 0 {
            assert(rest[path::last_dot(name)] == name[path::last_dot(name)]);
        }
    }
}

/// A file name falls into its stem and its extension at its last dot. A dot at the very front
/// does not count, and where no other is there, all of the name is the stem.
pub proof fn name_is_stem_and_extension(name: Seq<u8>, dot: int)
    ensures
        1 <= dot < name.len() && name[dot] == 0x2e && (forall|k: int|
            dot < k < name.len() ==> #[trigger] name[k] != 0x2e) ==> path::stem_of(name)
            == name.take(dot) && path::extension_of(name) == Some(name.skip(dot + 1)),
        (forall|k: int| 1 <= k < name.len() ==> #[trigger] name[k] != 0x2e) ==> path::stem_of(name)
            == name && path::extension_of(name) is None,
{
    last_dot_is_last(name);
}

/// The front of UTF-8 text up to an ASCII character is UTF-8 text.
pub proof fn front_of_text_is_text(front: Seq<u8>, c: u8, back: Seq<u8>)
    requires
        c < 0x80,
        valid_utf8(front + seq![c] + back),
    ensures
        valid_utf8(front),
    decreases front.len(),
{
    let whole = front + seq![c] + back;
    if front.len() > 0 {
        let n = length_of_first_scalar(whole);
        assert(whole[front.len() as int] == c);
        assert(!is_continuation_byte(c));
        assert(whole[0] == front[0]);
        assert(n <= front.len());
        assert(forall|k: int| 0 <= k < n ==> whole[k] == front[k]);
        assert(pop_first_scalar(whole) =~= front.skip(n) + seq![c] + back);
        assert(pop_first_scalar(front) =~= front.skip(n));
        front_of_text_is_text(front.skip(n), c, back);
        assert(valid_first_scalar(front));
    }
}

/// The stem of a file name that is text is text.
pub proof fn stem_of_text_is_text(name: Seq<u8>)
    requires
        valid_utf8(name),
    ensures
        valid_utf8(path::stem_of(name)),
{
    last_dot_is_last(name);
    let dot = path::last_dot(name);
    if dot > 0 {
        assert(name =~= name.take(dot) + seq![0x2eu8] + name.skip(dot + 1));
        front_of_text_is_text(name.take(dot), 0x2e, name.skip(dot + 1));
    }
}

/// The UTF-8 of two texts, one behind the other, is that of the one and that of the other.
pub proof fn utf8_of_both(a: Seq<char>, b: Seq<char>)
    ensures
        encode_utf8(a + b) == encode_utf8(a) + encode_utf8(b),
    decreases a.len(),
{
    if a.len() == 0 {
        assert(a + b =~= b);
        assert(encode_utf8(a) + encode_utf8(b) =~= encode_utf8(b));
    } else {
        assert((a + b).drop_first() =~= a.drop_first() + b);
        utf8_of_both(a.drop_first(), b);
        assert(encode_utf8(a + b) =~= encode_utf8(a) + encode_utf8(b));
    }
}

/// A file name that is text is shown as it is; where there is none, or none that is text, the
/// other word stands in.
pub proof fn name_is_shown_as_it_is(path: Seq<u8>, other: Seq<char>)
    ensures
        path::file_name_of(path) matches Some(name) && valid_utf8(name) ==> encode_utf8(
            path::name_or(path, other),
        ) == path::file_name_of(path)->0,
        !(path::file_name_of(path) matches Some(name) && valid_utf8(name)) ==> path::name_or(
            path,
            other,
        ) == other,
{
    if let Some(name) = path::file_name_of(path) {
        if valid_utf8(name) {
            decode_utf8_encode_utf8(name);
        }
    }
}

/// The file name of a path is its last component, where that is a name.
pub proof fn file_name_is_last_part(path: Seq<u8>, name: Seq<u8>)
    ensures
        path::file_name_of(path) == Some(name) <==> path::parts(path).len() > 0 && path::parts(
            path,
        ).last() == path::PathPart::Normal(name),
{
}

/// Two paths are the same if and only if they have the same components.
pub proof fn same_paths_have_the_same_parts(a: Seq<u8>, b: Seq<u8>)
    ensures
        path::same(a, b) <==> path::parts(a) == path::parts(b),
{
}

} // verus!
