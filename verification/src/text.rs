//! Decimal rendering of numbers, as used in a record's display line and in
//! snapshot file names.

use vstd::prelude::*;
use vstd::string::*;

verus! {

/// The character of the decimal digit `d`.
pub open spec fn digit_char(d: int) -> char {
    if d == 0 {
        '0'
    } else if d == 1 {
        '1'
    } else if d == 2 {
        '2'
    } else if d == 3 {
        '3'
    } else if d == 4 {
        '4'
    } else if d == 5 {
        '5'
    } else if d == 6 {
        '6'
    } else if d == 7 {
        '7'
    } else if d == 8 {
        '8'
    } else {
        '9'
    }
}

/// `n` in decimal, without leading zeros.
pub open spec fn decimal(n: nat) -> Seq<char>
    decreases n,
{
    if n < 10 {
        seq![digit_char(n as int)]
    } else {
        decimal(n / 10).push(digit_char((n % 10) as int))
    }
}

/// The last `width` decimal digits of `n`, zero-padded on the left.
pub open spec fn fixed_width(n: nat, width: nat) -> Seq<char>
    decreases width,
{
    if width == 0 {
        Seq::empty()
    } else {
        fixed_width(n / 10, (width - 1) as nat).push(digit_char((n % 10) as int))
    }
}

/// Ten to the power `width`.
pub open spec fn pow10(width: nat) -> nat
    decreases width,
{
    if width == 0 {
        1
    } else {
        10 * pow10((width - 1) as nat)
    }
}

/// The one-character text of the digit `d`.
fn digit_text(d: u32) -> (s: &'static str)
    requires
        d < 10,
    ensures
        s@ == seq![digit_char(d as int)],
{
    proof {
        reveal_strlit("0");
        reveal_strlit("1");
        reveal_strlit("2");
        reveal_strlit("3");
        reveal_strlit("4");
        reveal_strlit("5");
        reveal_strlit("6");
        reveal_strlit("7");
        reveal_strlit("8");
        reveal_strlit("9");
    }
    let s = if d == 0 {
        "0"
    } else if d == 1 {
        "1"
    } else if d == 2 {
        "2"
    } else if d == 3 {
        "3"
    } else if d == 4 {
        "4"
    } else if d == 5 {
        "5"
    } else if d == 6 {
        "6"
    } else if d == 7 {
        "7"
    } else if d == 8 {
        "8"
    } else {
        "9"
    };
    assert(s@ =~= seq![digit_char(d as int)]);
    s
}

/// Appends `n` in decimal to `out`.
pub fn push_decimal(out: &mut String, n: u32)
    ensures
        final(out)@ == old(out)@ + decimal(n as nat),
    decreases n,
{
    if n >= 10 {
        push_decimal(out, n / 10);
    }
    out.append(digit_text(n % 10));
    assert(out@ =~= old(out)@ + decimal(n as nat));
}

/// Appends the last `width` decimal digits of `n` to `out`, zero-padded.
pub fn push_fixed_width(out: &mut String, n: u32, width: u32)
    ensures
        final(out)@ == old(out)@ + fixed_width(n as nat, width as nat),
    decreases width,
{
    if width > 0 {
        push_fixed_width(out, n / 10, width - 1);
        out.append(digit_text(n % 10));
    }
    assert(out@ =~= old(out)@ + fixed_width(n as nat, width as nat));
}

/// A fixed-width rendering has exactly `width` characters.
pub proof fn lemma_fixed_width_len(n: nat, width: nat)
    ensures
        fixed_width(n, width).len() == width,
    decreases width,
{
    if width > 0 {
        lemma_fixed_width_len(n / 10, (width - 1) as nat);
    }
}

/// Whether `a` comes before `b` in the order of their code points.
pub open spec fn char_before(a: char, b: char) -> bool {
    (a as u32) < (b as u32)
}

/// Whether `a` sorts before `b` as strings compare: at the first position
/// where they differ `a` has the smaller character, or `a` is a proper
/// prefix of `b`.
pub open spec fn text_before(a: Seq<char>, b: Seq<char>) -> bool {
    exists|k: int|
        0 <= k <= a.len() && k < b.len() && #[trigger] a.subrange(0, k) == b.subrange(0, k) && (k
            == a.len() || char_before(a[k], b[k]))
}

/// Two numbers below `10^width` with the same fixed-width rendering are the
/// same number.
pub proof fn lemma_fixed_width_injective(a: nat, b: nat, width: nat)
    requires
        a < pow10(width),
        b < pow10(width),
        fixed_width(a, width) == fixed_width(b, width),
    ensures
        a == b,
    decreases width,
{
    if width > 0 {
        let shorter = (width - 1) as nat;
        let head_a = fixed_width(a / 10, shorter);
        let head_b = fixed_width(b / 10, shorter);
        let last_a = digit_char((a % 10) as int);
        let last_b = digit_char((b % 10) as int);
        assert(head_a.push(last_a).last() == head_b.push(last_b).last());
        assert(head_a.push(last_a).drop_last() =~= head_a);
        assert(head_b.push(last_b).drop_last() =~= head_b);
        lemma_fixed_width_injective(a / 10, b / 10, shorter);
    }
}

/// Of two numbers below `10^width`, the smaller one has the fixed-width
/// rendering that sorts first: the renderings agree up to some position,
/// which is returned, and there the smaller number has the smaller digit.
pub proof fn lemma_fixed_width_order(a: nat, b: nat, width: nat) -> (at: int)
    requires
        a < b,
        b < pow10(width),
    ensures
        0 <= at < width,
        fixed_width(a, width).subrange(0, at) == fixed_width(b, width).subrange(0, at),
        char_before(fixed_width(a, width)[at], fixed_width(b, width)[at]),
    decreases width,
{
    let shorter = (width - 1) as nat;
    let head_a = fixed_width(a / 10, shorter);
    let head_b = fixed_width(b / 10, shorter);
    lemma_fixed_width_len(a / 10, shorter);
    lemma_fixed_width_len(b / 10, shorter);
    lemma_fixed_width_len(a, width);
    lemma_fixed_width_len(b, width);
    if a / 10 < b / 10 {
        let at = lemma_fixed_width_order(a / 10, b / 10, shorter);
        assert(fixed_width(a, width).subrange(0, at) =~= head_a.subrange(0, at));
        assert(fixed_width(b, width).subrange(0, at) =~= head_b.subrange(0, at));
        at
    } else {
        assert(a / 10 == b / 10);
        assert(fixed_width(a, width).subrange(0, shorter as int) =~= head_a);
        assert(fixed_width(b, width).subrange(0, shorter as int) =~= head_b);
        shorter as int
    }
}

/// A text that sorts before another still does so when both follow the same
/// text.
pub proof fn lemma_text_before_after_prefix(prefix: Seq<char>, a: Seq<char>, b: Seq<char>)
    requires
        text_before(a, b),
    ensures
        text_before(prefix + a, prefix + b),
{
    let k = choose|k: int|
        0 <= k <= a.len() && k < b.len() && #[trigger] a.subrange(0, k) == b.subrange(0, k) && (k
            == a.len() || char_before(a[k], b[k]));
    let at = prefix.len() + k;
    assert((prefix + a).subrange(0, at) =~= prefix + a.subrange(0, k));
    assert((prefix + b).subrange(0, at) =~= prefix + b.subrange(0, k));
}

/// Two texts of one length that first differ at `at`, where the first has
/// the smaller character, sort in that order whatever follows each.
pub proof fn lemma_text_before_by_difference(
    a: Seq<char>,
    b: Seq<char>,
    at: int,
    rest_a: Seq<char>,
    rest_b: Seq<char>,
)
    requires
        a.len() == b.len(),
        0 <= at < a.len(),
        a.subrange(0, at) == b.subrange(0, at),
        char_before(a[at], b[at]),
    ensures
        text_before(a + rest_a, b + rest_b),
{
    assert((a + rest_a).subrange(0, at) =~= a.subrange(0, at));
    assert((b + rest_b).subrange(0, at) =~= b.subrange(0, at));
}

/// Two texts that start with parts of one length are equal only if the
/// parts are equal and what follows them is equal.
pub proof fn lemma_concat_equal_parts(
    a: Seq<char>,
    rest_a: Seq<char>,
    b: Seq<char>,
    rest_b: Seq<char>,
)
    requires
        a.len() == b.len(),
        a + rest_a == b + rest_b,
    ensures
        a == b,
        rest_a == rest_b,
{
    let whole_a = a + rest_a;
    let whole_b = b + rest_b;
    assert(a =~= whole_a.subrange(0, a.len() as int));
    assert(b =~= whole_b.subrange(0, b.len() as int));
    assert(rest_a =~= whole_a.subrange(a.len() as int, whole_a.len() as int));
    assert(rest_b =~= whole_b.subrange(b.len() as int, whole_b.len() as int));
}

} // verus!
