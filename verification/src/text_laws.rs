//! What holds of texts and numbers, and of instants and spans.
use crate::text;
use crate::time;
use crate::time::{Duration, Instant};
use vstd::prelude::*;
use vstd::string::*;

verus! {

/// A later instant lies that much later; a span between two instants is their distance,
/// and nothing where the second is not after the first. Past the last representable
/// instant there is only that one.
pub proof fn instants_and_spans(start: Instant, span: Duration, end: Instant)
    ensures
        start.nanos + span.nanos <= u64::MAX ==> start.later(span).nanos == start.nanos
            + span.nanos,
        start.nanos + span.nanos > u64::MAX ==> start.later(span).nanos == u64::MAX,
        start.nanos + span.nanos <= u64::MAX ==> start.later(span).since(start) == span,
        end.nanos >= start.nanos ==> end.since(start).nanos == end.nanos - start.nanos,
        end.nanos < start.nanos ==> end.since(start).nanos == 0,
{
}

/// The smaller and the larger of two numbers.
pub proof fn smaller_and_larger(a: int, b: int)
    ensures
        time::min_int(a, b) <= a && time::min_int(a, b) <= b,
        time::min_int(a, b) == a || time::min_int(a, b) == b,
        time::max_int(a, b) >= a && time::max_int(a, b) >= b,
        time::max_int(a, b) == a || time::max_int(a, b) == b,
{
}

/// Of two equally near integers the even one is taken.
pub proof fn halves_go_to_the_even(n: int, d: int)
    requires
        n >= 0,
        d > 0,
        2 * (n % d) == d,
    ensures
        time::nearest(n, d) % 2 == 0,
{
}

/// A number is read from its digits: one digit more counts ten times what stood before it.
pub proof fn digits_count_tenfold(s: Seq<char>, digit: nat)
    requires
        digit < 10,
    ensures
        text::digits_value(s.push(text::digit_char(digit))) == 10 * text::digits_value(s) + digit,
        text::is_digit(text::digit_char(digit)),
        text::digits_value(Seq::<char>::empty()) == 0,
{
    assert(s.push(text::digit_char(digit)).drop_last() =~= s);
}

/// The digits are the characters from 0 to 9, in that order.
pub proof fn digits_are_in_order(c: char)
    ensures
        text::is_digit(c) <==> '0' as u32 <= c as u32 <= '9' as u32,
        forall|d: nat| d < 10 ==> (#[trigger] text::digit_char(d)) as u32 == '0' as u32 + d,
{
}

/// A number is read where there is nothing but digits, and at most a plus before them, and
/// it is not too large.
pub proof fn numbers_are_digits(s: Seq<char>, max: nat)
    ensures
        s.len() > 0 && text::all_digits(s) && text::digits_value(s) <= max ==> text::unsigned(s, max)
            == Some(text::digits_value(s)),
        text::unsigned(s, max) matches Some(n) ==> n <= max,
        text::unsigned(s, max) is Some && s[0] != '+' ==> s.len() > 0 && text::all_digits(s),
        s.len() == 0 ==> text::unsigned(s, max) is None,
        s.len() > 0 && s[0] != '+' && !text::all_digits(s) ==> text::unsigned(s, max) is None,
        s.len() > 0 && text::all_digits(s) && text::digits_value(s) > max ==> text::unsigned(s, max)
            is None,
{
    if s.len() > 0 && text::all_digits(s) {
        assert(text::is_digit(s[0]));
    }
}

/// A plus before a number changes nothing.
pub proof fn a_plus_changes_nothing(s: Seq<char>, max: nat)
    requires
        s.len() > 0,
        s[0] != '+',
    ensures
        text::unsigned(seq!['+'] + s, max) == text::unsigned(s, max),
{
    assert((seq!['+'] + s).skip(1) =~= s);
}

/// Trimming takes white space off both ends and nothing else.
pub proof fn trimming_takes_white_space(s: Seq<char>)
    ensures
        exists|a: int, b: int|
            {
                &&& 0 <= a <= b <= s.len()
                &&& #[trigger] s.subrange(a, b) == text::trimmed(s)
                &&& forall|i: int| 0 <= i < a ==> text::is_white(#[trigger] s[i])
                &&& forall|i: int| b <= i < s.len() ==> text::is_white(#[trigger] s[i])
            },
        text::trimmed(s).len() > 0 ==> !text::is_white(text::trimmed(s)[0]) && !text::is_white(
            text::trimmed(s).last(),
        ),
{
    let a = front_of(s);
    let front = text::trim_front(s);
    let k = back_of(front);
    let b = a + k;
    assert(s.subrange(a, b) =~= text::trimmed(s));
    assert forall|i: int| b <= i < s.len() implies text::is_white(#[trigger] s[i]) by {
        assert(front[i - a] == s[i]);
    }
    if text::trimmed(s).len() > 0 {
        assert(text::trimmed(s)[0] == front[0]);
    }
}

proof fn front_of(s: Seq<char>) -> (a: int)
    ensures
        0 <= a <= s.len(),
        text::trim_front(s) == s.skip(a),
        forall|i: int| 0 <= i < a ==> text::is_white(#[trigger] s[i]),
        a < s.len() ==> !text::is_white(s[a]),
    decreases s.len(),
{
    if s.len() > 0 && text::is_white(s[0]) {
        let rest = s.skip(1);
        let a = front_of(rest);
        assert(rest.skip(a) =~= s.skip(a + 1));
        assert forall|i: int| 0 <= i < a + 1 implies text::is_white(#[trigger] s[i]) by {
            if i > 0 {
                assert(rest[i - 1] == s[i]);
            }
        }
        if a + 1 < s.len() {
            assert(rest[a] == s[a + 1]);
        }
        a + 1
    } else {
        assert(s.skip(0) =~= s);
        0
    }
}

proof fn back_of(s: Seq<char>) -> (k: int)
    ensures
        0 <= k <= s.len(),
        text::trim_back(s) == s.take(k),
        forall|i: int| k <= i < s.len() ==> text::is_white(#[trigger] s[i]),
        k > 0 ==> !text::is_white(s[k - 1]),
    decreases s.len(),
{
    if s.len() > 0 && text::is_white(s.last()) {
        let head = s.drop_last();
        let k = back_of(head);
        assert(head.take(k) =~= s.take(k));
        assert forall|i: int| k <= i < s.len() implies text::is_white(#[trigger] s[i]) by {
            if i < head.len() {
                assert(head[i] == s[i]);
            }
        }
        k
    } else {
        assert(s.take(s.len() as int) =~= s);
        s.len() as int
    }
}

/// Spaces, tabs and line ends are white space; letters, digits and other signs of ASCII are
/// not.
pub proof fn white_space_in_ascii(c: char)
    requires
        c as u32 <= 0x7f,
    ensures
        text::is_white(c) <==> c == ' ' || c == '\t' || c == '\n' || c == '\r' || c as u32 == 0xb
            || c as u32 == 0xc,
{
}

/// A text without the separator is one piece.
pub proof fn whole_texts_are_one_piece(s: Seq<char>, c: char)
    requires
        forall|i: int| 0 <= i < s.len() ==> #[trigger] s[i] != c,
    ensures
        text::split(s, c) == seq![s],
    decreases s.len(),
{
    if s.len() > 0 {
        let head = s.drop_last();
        let n = s.len() - 1;
        assert forall|i: int| 0 <= i < head.len() implies #[trigger] head[i] != c by {
            assert(head[i] == s[i]);
        }
        whole_texts_are_one_piece(head, c);
        assert(s[n] != c);
        assert(head.push(s.last()) =~= s);
        assert(text::split(s, c) =~= seq![s]);
    } else {
        assert(s =~= Seq::empty());
    }
}

/// A piece, the separator and a text without it split into those of the piece, and the text.
pub proof fn pieces_follow_one_another(a: Seq<char>, c: char, b: Seq<char>)
    requires
        forall|i: int| 0 <= i < b.len() ==> #[trigger] b[i] != c,
    ensures
        text::split(a.push(c) + b, c) == text::split(a, c).push(b),
    decreases b.len(),
{
    let s = a.push(c) + b;
    if b.len() == 0 {
        assert(s =~= a.push(c));
        assert(s.drop_last() =~= a);
        assert(b =~= Seq::empty());
    } else {
        let head = b.drop_last();
        assert forall|i: int| 0 <= i < head.len() implies #[trigger] head[i] != c by {
            assert(head[i] == b[i]);
        }
        pieces_follow_one_another(a, c, head);
        assert(s.drop_last() =~= a.push(c) + head);
        assert(b[b.len() - 1] != c);
        let pieces = text::split(a, c).push(head);
        assert(pieces.drop_last() =~= text::split(a, c));
        assert(head.push(b.last()) =~= b);
    }
}

/// Signs at the end of a text are taken off as long as there are any.
pub proof fn trailing_signs_are_taken_off(s: Seq<char>, c: char)
    ensures
        ({
            let kept = text::without_trailing(s, c);
            &&& kept.is_prefix_of(s)
            &&& kept.len() > 0 ==> kept.last() != c
            &&& forall|i: int| kept.len() <= i < s.len() ==> #[trigger] s[i] == c
        }),
    decreases s.len(),
{
    if s.len() > 0 && s.last() == c {
        let head = s.drop_last();
        trailing_signs_are_taken_off(head, c);
        let kept = text::without_trailing(s, c);
        assert(kept.is_prefix_of(s)) by {
            assert(kept =~= s.subrange(0, kept.len() as int));
        }
        assert forall|i: int| kept.len() <= i < s.len() implies #[trigger] s[i] == c by {
            if i < head.len() {
                assert(head[i] == s[i]);
            }
        }
    }
}

/// A text begins with another if its first characters are those.
pub proof fn beginnings(s: Seq<char>, prefix: Seq<char>)
    ensures
        text::starts_with(s, prefix) <==> prefix.len() <= s.len() && forall|i: int|
            0 <= i < prefix.len() ==> #[trigger] s[i] == prefix[i],
{
    if prefix.len() <= s.len() && forall|i: int|
        0 <= i < prefix.len() ==> #[trigger] s[i] == prefix[i] {
        assert(s.take(prefix.len() as int) =~= prefix);
    }
    if text::starts_with(s, prefix) {
        assert forall|i: int| 0 <= i < prefix.len() implies #[trigger] s[i] == prefix[i] by {
            assert(s.take(prefix.len() as int)[i] == s[i]);
        }
    }
}

/// Characters take from one to four bytes, by their numbers.
pub proof fn characters_take_bytes(c: char, s: Seq<char>)
    ensures
        c as u32 <= 0x7f ==> text::char_bytes(c) == 1,
        0x80 <= c as u32 <= 0x7ff ==> text::char_bytes(c) == 2,
        0x800 <= c as u32 <= 0xffff ==> text::char_bytes(c) == 3,
        c as u32 >= 0x1_0000 ==> text::char_bytes(c) == 4,
        text::text_bytes(s.push(c)) == text::text_bytes(s) + text::char_bytes(c),
        text::text_bytes(Seq::<char>::empty()) == 0,
{
    assert(s.push(c).drop_last() =~= s);
}

/// A text that is too long is cut to one character less than the limit; others stay.
pub proof fn long_texts_are_cut(s: Seq<char>, max: nat)
    requires
        max > 0,
    ensures
        text::text_bytes(s) <= max ==> text::truncated(s, max) == s,
        text::text_bytes(s) > max && s.len() >= max ==> text::truncated(s, max) == s.take(max - 1),
        text::truncated(s, max).is_prefix_of(s),
{
    assert(s.is_prefix_of(s)) by {
        assert(s =~= s.subrange(0, s.len() as int));
    }
}

/// What means yes and what means no are different words.
pub proof fn yes_is_not_no(s: Seq<char>)
    ensures
        !(text::is_yes(s) && text::is_no(s)),
        text::is_yes("1"@) && text::is_yes("true"@) && text::is_yes("yes"@) && text::is_yes("on"@),
        text::is_no("0"@) && text::is_no("false"@) && text::is_no("no"@) && text::is_no("off"@),
        text::is_yes(s) ==> s == "1"@ || s == "true"@ || s == "yes"@ || s == "on"@,
        text::is_no(s) ==> s == "0"@ || s == "false"@ || s == "no"@ || s == "off"@,
{
    reveal_strlit("1");
    reveal_strlit("true");
    reveal_strlit("yes");
    reveal_strlit("on");
    reveal_strlit("0");
    reveal_strlit("false");
    reveal_strlit("no");
    reveal_strlit("off");
    assert("1"@[0] == '1' && "true"@[0] == 't' && "yes"@[0] == 'y' && "on"@.len() == 2);
    assert("0"@[0] == '0' && "false"@[0] == 'f' && "no"@[0] == 'n' && "off"@.len() == 3);
    assert("1"@.len() == 1 && "true"@.len() == 4 && "yes"@.len() == 3);
    assert("on"@[0] == 'o' && "off"@[0] == 'o');
}

} // verus!
