//! Cell type inference: decides whether a cell's text reads as a date, a
//! number, a boolean, blank space or plain text, so that the table painter
//! can pick a color for it.
//!
//! Dates are recognized by six fixed patterns matched through the `regex`
//! crate; everything else is decided by verified recognizers whose grammars
//! are written out below as spec functions.

use vstd::prelude::*;

verus! {

use vstd::string::StrSliceExecFns;
use crate::text::chars_of;

/// The inferred type of one cell value.
#[derive(Clone, Copy, Debug, PartialEq, Eq, Structural)]
pub enum DataType {
    Text,
    IntNumber,
    FloatNumber,
    Boolean,
    Date,
    Empty,
}

// ---------------------------------------------------------------------------
// Character classes.
// ---------------------------------------------------------------------------

/// Whether `c` is an ASCII decimal digit.
pub open spec fn spec_digit(c: char) -> bool {
    '0' as int <= c as int <= '9' as int
}

/// Every character of `s` is an ASCII decimal digit.
pub open spec fn spec_all_digits(s: Seq<char>) -> bool {
    forall|i: int| 0 <= i < s.len() ==> spec_digit(#[trigger] s[i])
}

/// One or more ASCII decimal digits.
pub open spec fn spec_digits1(s: Seq<char>) -> bool {
    s.len() >= 1 && spec_all_digits(s)
}

/// Whether `c` has the Unicode `White_Space` property.
pub open spec fn spec_space(c: char) -> bool {
    let u = c as int;
    ||| u == 0x20
    ||| 0x09 <= u <= 0x0D
    ||| u == 0x85
    ||| u == 0xA0
    ||| u == 0x1680
    ||| 0x2000 <= u <= 0x200A
    ||| u == 0x2028
    ||| u == 0x2029
    ||| u == 0x202F
    ||| u == 0x205F
    ||| u == 0x3000
}

/// A blank cell: possibly empty, nothing but white space.
pub open spec fn spec_blank(s: Seq<char>) -> bool {
    forall|i: int| 0 <= i < s.len() ==> spec_space(#[trigger] s[i])
}

/// Whether `a` is `b` itself or its ASCII upper-case form; `b` is meant to be
/// a lower-case letter.
pub open spec fn spec_ci_char(a: char, b: char) -> bool {
    a == b || ('A' as int <= a as int <= 'Z' as int && a as int + 32 == b as int)
}

/// `s` spells the lower-case word `w` up to ASCII case.
pub open spec fn spec_ci_eq(s: Seq<char>, w: Seq<char>) -> bool {
    s.len() == w.len() && forall|i: int| 0 <= i < s.len() ==> spec_ci_char(#[trigger] s[i], w[i])
}

/// `s` is one of the boolean words, compared without ASCII case.
pub open spec fn spec_bool_word(s: Seq<char>) -> bool {
    ||| spec_ci_eq(s, "true"@)
    ||| spec_ci_eq(s, "false"@)
    ||| spec_ci_eq(s, "yes"@)
    ||| spec_ci_eq(s, "no"@)
    ||| spec_ci_eq(s, "y"@)
    ||| spec_ci_eq(s, "n"@)
}

/// Every character of `s` is ASCII.
pub open spec fn ascii_seq(s: Seq<char>) -> bool {
    forall|i: int| 0 <= i < s.len() ==> ((#[trigger] s[i]) as int) < 128
}

// ---------------------------------------------------------------------------
// Integer literals.
// ---------------------------------------------------------------------------

/// The number spelled by a digit string, read left to right.
pub open spec fn spec_digits_val(s: Seq<char>) -> int
    decreases s.len(),
{
    if s.len() == 0 {
        0
    } else {
        10 * spec_digits_val(s.drop_last()) + (s.last() as int - '0' as int)
    }
}

/// A decimal integer in `i64` range: an optional sign and one or more
/// digits, whose value does not overflow a signed 64-bit number.
pub open spec fn spec_int_literal(s: Seq<char>) -> bool {
    if s.len() == 0 {
        false
    } else if s[0] == '-' {
        spec_digits1(s.skip(1)) && spec_digits_val(s.skip(1)) <= 0x8000_0000_0000_0000
    } else if s[0] == '+' {
        spec_digits1(s.skip(1)) && spec_digits_val(s.skip(1)) <= 0x7fff_ffff_ffff_ffff
    } else {
        spec_digits1(s) && spec_digits_val(s) <= 0x7fff_ffff_ffff_ffff
    }
}

/// A digit string spells a non-negative number.
proof fn lemma_digits_val_nonneg(s: Seq<char>)
    requires
        spec_all_digits(s),
    ensures
        spec_digits_val(s) >= 0,
    decreases s.len(),
{
    if s.len() > 0 {
        assert forall|i: int| 0 <= i < s.drop_last().len() implies spec_digit(
            #[trigger] s.drop_last()[i],
        ) by {
            assert(s.drop_last()[i] == s[i]);
        }
        lemma_digits_val_nonneg(s.drop_last());
    }
}

/// Extending a digit string to the right never shrinks its value.
proof fn lemma_digits_val_prefix(s: Seq<char>, i: int)
    requires
        spec_all_digits(s),
        0 <= i <= s.len(),
    ensures
        spec_digits_val(s.take(i)) <= spec_digits_val(s),
    decreases s.len() - i,
{
    if i == s.len() {
        assert(s.take(i) =~= s);
    } else {
        assert forall|j: int| 0 <= j < s.take(i).len() implies spec_digit(
            #[trigger] s.take(i)[j],
        ) by {
            assert(s.take(i)[j] == s[j]);
        }
        lemma_digits_val_nonneg(s.take(i));
        assert(s.take(i + 1).drop_last() =~= s.take(i));
        assert(s.take(i + 1).last() == s[i]);
        lemma_digits_val_prefix(s, i + 1);
    }
}

// ---------------------------------------------------------------------------
// Float literals, after the grammar that `str::parse` documents for floats:
// an optional sign, then `inf`, `infinity`, `nan` (case-insensitive) or a
// number `digits [ '.' digits ] [ ('e'|'E') sign? digits ]` with at least one
// mantissa digit.
// ---------------------------------------------------------------------------

/// The index of the first `c` of `s`, or `s.len()` when there is none.
pub open spec fn spec_find(s: Seq<char>, c: char) -> int
    decreases s.len(),
{
    if s.len() == 0 {
        0
    } else if s[0] == c {
        0
    } else {
        1 + spec_find(s.drop_first(), c)
    }
}

/// The index of the first `e` or `E` of `s`, or `s.len()` when there is none.
pub open spec fn spec_find_exp(s: Seq<char>) -> int
    decreases s.len(),
{
    if s.len() == 0 {
        0
    } else if s[0] == 'e' || s[0] == 'E' {
        0
    } else {
        1 + spec_find_exp(s.drop_first())
    }
}

/// `s` contains a decimal point or an exponent marker.
pub open spec fn spec_has_dot_or_exp(s: Seq<char>) -> bool {
    spec_find(s, '.') < s.len() || spec_find_exp(s) < s.len()
}

/// A mantissa: digits around at most one decimal point, with at least one
/// digit overall.
pub open spec fn spec_mantissa(s: Seq<char>) -> bool {
    let k = spec_find(s, '.');
    if k == s.len() {
        spec_digits1(s)
    } else {
        spec_all_digits(s.take(k)) && spec_all_digits(s.skip(k + 1)) && (k >= 1 || s.len() - k - 1
            >= 1)
    }
}

/// An exponent tail: an optional sign and one or more digits.
pub open spec fn spec_exp_part(s: Seq<char>) -> bool {
    if s.len() == 0 {
        false
    } else if s[0] == '+' || s[0] == '-' {
        spec_digits1(s.skip(1))
    } else {
        spec_digits1(s)
    }
}

/// A number: a mantissa, optionally followed by an exponent marker and an
/// exponent tail.
pub open spec fn spec_float_number(s: Seq<char>) -> bool {
    let e = spec_find_exp(s);
    if e == s.len() {
        spec_mantissa(s)
    } else {
        spec_mantissa(s.take(e)) && spec_exp_part(s.skip(e + 1))
    }
}

/// An unsigned float: one of the named specials, or a number.
pub open spec fn spec_float_unsigned(s: Seq<char>) -> bool {
    ||| spec_ci_eq(s, "inf"@)
    ||| spec_ci_eq(s, "infinity"@)
    ||| spec_ci_eq(s, "nan"@)
    ||| spec_float_number(s)
}

/// A float literal: an optional sign, then an unsigned float.
pub open spec fn spec_float_literal(s: Seq<char>) -> bool {
    if s.len() == 0 {
        false
    } else if s[0] == '+' || s[0] == '-' {
        spec_float_unsigned(s.skip(1))
    } else {
        spec_float_unsigned(s)
    }
}

// ---------------------------------------------------------------------------
// Executable character tests.
// ---------------------------------------------------------------------------

fn is_digit_char(c: char) -> (b: bool)
    ensures
        b == spec_digit(c),
{
    let u = c as u32;
    '0' as u32 <= u && u <= '9' as u32
}

fn is_space_char(c: char) -> (b: bool)
    ensures
        b == spec_space(c),
{
    let u = c as u32;
    u == 0x20 || (0x09 <= u && u <= 0x0D) || u == 0x85 || u == 0xA0 || u == 0x1680 || (0x2000 <= u
        && u <= 0x200A) || u == 0x2028 || u == 0x2029 || u == 0x202F || u == 0x205F || u == 0x3000
}

fn ci_char(a: char, b: char) -> (r: bool)
    ensures
        r == spec_ci_char(a, b),
{
    let ua = a as u32;
    let ub = b as u32;
    a == b || ('A' as u32 <= ua && ua <= 'Z' as u32 && ua + 32 == ub)
}

// ---------------------------------------------------------------------------
// Executable recognizers.
// ---------------------------------------------------------------------------

/// Every character of `v` in `[from, to)` is a digit.
fn all_digits_range(v: &Vec<char>, from: usize, to: usize) -> (b: bool)
    requires
        from <= to <= v@.len(),
    ensures
        b == spec_all_digits(v@.subrange(from as int, to as int)),
{
    let mut i: usize = from;
    while i < to
        invariant
            from <= i <= to <= v@.len(),
            forall|j: int| from <= j < i ==> spec_digit(#[trigger] v@[j]),
        decreases to - i,
    {
        if !is_digit_char(v[i]) {
            proof {
                assert(v@.subrange(from as int, to as int)[i - from] == v@[i as int]);
            }
            return false;
        }
        i = i + 1;
    }
    proof {
        assert forall|j: int|
            0 <= j < v@.subrange(from as int, to as int).len() implies spec_digit(
            #[trigger] v@.subrange(from as int, to as int)[j],
        ) by {
            assert(v@.subrange(from as int, to as int)[j] == v@[from + j]);
        }
    }
    true
}

/// Every character of `v` is white space.
fn all_space(v: &Vec<char>) -> (b: bool)
    ensures
        b == spec_blank(v@),
{
    let mut i: usize = 0;
    while i < v.len()
        invariant
            i <= v@.len(),
            forall|j: int| 0 <= j < i ==> spec_space(#[trigger] v@[j]),
        decreases v@.len() - i,
    {
        if !is_space_char(v[i]) {
            return false;
        }
        i = i + 1;
    }
    true
}

/// The characters of `v` from `from` on spell the lower-case word `w` up to
/// ASCII case.
fn ci_eq_str(v: &Vec<char>, from: usize, w: &str) -> (b: bool)
    requires
        from <= v@.len(),
    ensures
        b == spec_ci_eq(v@.skip(from as int), w@),
{
    let wn = w.unicode_len();
    if v.len() - from != wn {
        return false;
    }
    let mut j: usize = 0;
    while j < wn
        invariant
            j <= wn,
            from + wn <= v@.len(),
            v@.len() <= usize::MAX,
            wn == w@.len(),
            forall|i: int| 0 <= i < j ==> spec_ci_char(#[trigger] v@[from + i], w@[i]),
        decreases wn - j,
    {
        let c = w.get_char(j);
        if !ci_char(v[from + j], c) {
            proof {
                assert(v@.skip(from as int)[j as int] == v@[from + j]);
            }
            return false;
        }
        j = j + 1;
    }
    proof {
        assert forall|i: int|
            0 <= i < v@.skip(from as int).len() implies spec_ci_char(
            #[trigger] v@.skip(from as int)[i],
            w@[i],
        ) by {
            assert(v@.skip(from as int)[i] == v@[from + i]);
        }
    }
    true
}

/// `v` spells one of the boolean words, compared without ASCII case.
fn bool_word(v: &Vec<char>) -> (b: bool)
    ensures
        b == spec_bool_word(v@),
{
    proof {
        assert(v@.skip(0) =~= v@);
    }
    ci_eq_str(v, 0, "true") || ci_eq_str(v, 0, "false") || ci_eq_str(v, 0, "yes") || ci_eq_str(
        v,
        0,
        "no",
    ) || ci_eq_str(v, 0, "y") || ci_eq_str(v, 0, "n")
}

/// The digits of `v` from `from` on are non-empty.
fn digits1_from(v: &Vec<char>, from: usize) -> (b: bool)
    requires
        from <= v@.len(),
    ensures
        b == spec_digits1(v@.skip(from as int)),
{
    proof {
        assert(v@.skip(from as int) =~= v@.subrange(from as int, v@.len() as int));
    }
    v.len() - from >= 1 && all_digits_range(v, from, v.len())
}

/// The value of the digits of `v` from `from` on stays within `bound`.
fn digits_fit(v: &Vec<char>, from: usize, bound: u64) -> (ok: bool)
    requires
        from <= v@.len(),
        spec_all_digits(v@.skip(from as int)),
    ensures
        ok == (spec_digits_val(v@.skip(from as int)) <= bound as int),
{
    let ghost t = v@.skip(from as int);
    let mut acc: u128 = 0;
    let mut i: usize = from;
    proof {
        assert(t.take(0) =~= Seq::<char>::empty());
    }
    while i < v.len()
        invariant
            from <= i <= v@.len(),
            t == v@.skip(from as int),
            spec_all_digits(t),
            acc as int == spec_digits_val(t.take(i - from)),
            acc <= bound,
        decreases v@.len() - i,
    {
        proof {
            assert(t[i - from] == v@[i as int]);
        }
        let d: u32 = (v[i] as u32) - ('0' as u32);
        let acc2: u128 = acc * 10 + (d as u128);
        proof {
            assert(t.take(i - from + 1).drop_last() =~= t.take(i - from));
            assert(t.take(i - from + 1).last() == t[i - from]);
        }
        if acc2 > bound as u128 {
            proof {
                lemma_digits_val_prefix(t, i - from + 1);
            }
            return false;
        }
        acc = acc2;
        i = i + 1;
    }
    proof {
        assert(t.take(v@.len() - from) =~= t);
    }
    true
}

/// `v` spells a decimal integer in `i64` range.
fn int_literal(v: &Vec<char>) -> (b: bool)
    ensures
        b == spec_int_literal(v@),
{
    if v.len() == 0 {
        return false;
    }
    let c0 = v[0];
    let signed = c0 == '-' || c0 == '+';
    let from: usize = if signed {
        1
    } else {
        0
    };
    proof {
        if !signed {
            assert(v@.skip(0) =~= v@);
        }
    }
    if !digits1_from(v, from) {
        return false;
    }
    let bound: u64 = if c0 == '-' {
        0x8000_0000_0000_0000
    } else {
        0x7fff_ffff_ffff_ffff
    };
    digits_fit(v, from, bound)
}

/// The first `.` of `v` in `[from, to)`, or `to` when there is none, as an
/// index into the subrange.
fn find_dot(v: &Vec<char>, from: usize, to: usize) -> (k: usize)
    requires
        from <= to <= v@.len(),
    ensures
        from <= k <= to,
        k - from == spec_find(v@.subrange(from as int, to as int), '.'),
{
    let mut i: usize = from;
    while i < to
        invariant
            from <= i <= to <= v@.len(),
            forall|j: int| from <= j < i ==> (#[trigger] v@[j]) != '.',
        decreases to - i,
    {
        if v[i] == '.' {
            proof {
                lemma_spec_find(v@.subrange(from as int, to as int), '.', i - from);
            }
            return i;
        }
        i = i + 1;
    }
    proof {
        lemma_spec_find(v@.subrange(from as int, to as int), '.', to - from);
    }
    to
}

/// The first `e` or `E` of `v` in `[from, to)`, or `to` when there is none.
fn find_exp_marker(v: &Vec<char>, from: usize, to: usize) -> (k: usize)
    requires
        from <= to <= v@.len(),
    ensures
        from <= k <= to,
        k - from == spec_find_exp(v@.subrange(from as int, to as int)),
{
    let mut i: usize = from;
    while i < to
        invariant
            from <= i <= to <= v@.len(),
            forall|j: int| from <= j < i ==> (#[trigger] v@[j]) != 'e' && v@[j] != 'E',
        decreases to - i,
    {
        if v[i] == 'e' || v[i] == 'E' {
            proof {
                lemma_spec_find_exp(v@.subrange(from as int, to as int), i - from);
            }
            return i;
        }
        i = i + 1;
    }
    proof {
        lemma_spec_find_exp(v@.subrange(from as int, to as int), to - from);
    }
    to
}

/// `spec_find` is pinned down by a scan: everything before `k` differs from
/// `c`, and `k` is either the end or a hit.
proof fn lemma_spec_find(s: Seq<char>, c: char, k: int)
    requires
        0 <= k <= s.len(),
        forall|j: int| 0 <= j < k ==> (#[trigger] s[j]) != c,
        k == s.len() || s[k] == c,
    ensures
        spec_find(s, c) == k,
    decreases s.len(),
{
    if s.len() > 0 && s[0] != c {
        assert forall|j: int| 0 <= j < k - 1 implies (#[trigger] s.drop_first()[j]) != c by {
            assert(s.drop_first()[j] == s[j + 1]);
        }
        if k < s.len() {
            assert(s.drop_first()[k - 1] == s[k]);
        }
        lemma_spec_find(s.drop_first(), c, k - 1);
    }
}

/// `spec_find_exp` is pinned down the same way.
proof fn lemma_spec_find_exp(s: Seq<char>, k: int)
    requires
        0 <= k <= s.len(),
        forall|j: int| 0 <= j < k ==> (#[trigger] s[j]) != 'e' && s[j] != 'E',
        k == s.len() || s[k] == 'e' || s[k] == 'E',
    ensures
        spec_find_exp(s) == k,
    decreases s.len(),
{
    if s.len() > 0 && !(s[0] == 'e' || s[0] == 'E') {
        assert forall|j: int|
            0 <= j < k - 1 implies (#[trigger] s.drop_first()[j]) != 'e' && s.drop_first()[j]
            != 'E' by {
            assert(s.drop_first()[j] == s[j + 1]);
        }
        if k < s.len() {
            assert(s.drop_first()[k - 1] == s[k]);
        }
        lemma_spec_find_exp(s.drop_first(), k - 1);
    }
}

/// `v` contains a decimal point or an exponent marker.
fn has_dot_or_exp(v: &Vec<char>) -> (b: bool)
    ensures
        b == spec_has_dot_or_exp(v@),
{
    proof {
        assert(v@.subrange(0, v@.len() as int) =~= v@);
    }
    let kd = find_dot(v, 0, v.len());
    let ke = find_exp_marker(v, 0, v.len());
    kd < v.len() || ke < v.len()
}

/// The characters of `v` in `[from, to)` form a mantissa.
fn mantissa_range(v: &Vec<char>, from: usize, to: usize) -> (b: bool)
    requires
        from <= to <= v@.len(),
    ensures
        b == spec_mantissa(v@.subrange(from as int, to as int)),
{
    let ghost t = v@.subrange(from as int, to as int);
    let k = find_dot(v, from, to);
    if k == to {
        proof {
            assert(t =~= v@.subrange(from as int, to as int));
        }
        to - from >= 1 && all_digits_range(v, from, to)
    } else {
        proof {
            assert(t.take(k - from) =~= v@.subrange(from as int, k as int));
            assert(t.skip(k - from + 1) =~= v@.subrange(k + 1, to as int));
        }
        all_digits_range(v, from, k) && all_digits_range(v, k + 1, to) && (k - from >= 1 || to - k
            - 1 >= 1)
    }
}

/// The characters of `v` from `from` on form an exponent tail.
fn exp_part_from(v: &Vec<char>, from: usize) -> (b: bool)
    requires
        from <= v@.len(),
    ensures
        b == spec_exp_part(v@.skip(from as int)),
{
    if from >= v.len() {
        return false;
    }
    proof {
        assert(v@.skip(from as int)[0] == v@[from as int]);
        assert(v@.skip(from as int).skip(1) =~= v@.skip(from + 1));
    }
    let c = v[from];
    if c == '+' || c == '-' {
        digits1_from(v, from + 1)
    } else {
        digits1_from(v, from)
    }
}

/// The characters of `v` from `from` on form a number.
fn float_number_from(v: &Vec<char>, from: usize) -> (b: bool)
    requires
        from <= v@.len(),
    ensures
        b == spec_float_number(v@.skip(from as int)),
{
    let ghost t = v@.skip(from as int);
    proof {
        assert(t =~= v@.subrange(from as int, v@.len() as int));
    }
    let e = find_exp_marker(v, from, v.len());
    if e == v.len() {
        proof {
            assert(t =~= v@.subrange(from as int, v@.len() as int));
        }
        mantissa_range(v, from, v.len())
    } else {
        proof {
            assert(t.take(e - from) =~= v@.subrange(from as int, e as int));
            assert(t.skip(e - from + 1) =~= v@.skip(e + 1));
        }
        mantissa_range(v, from, e) && exp_part_from(v, e + 1)
    }
}

/// `v` spells a float literal.
fn float_literal(v: &Vec<char>) -> (b: bool)
    ensures
        b == spec_float_literal(v@),
{
    if v.len() == 0 {
        return false;
    }
    let c0 = v[0];
    let from: usize = if c0 == '+' || c0 == '-' {
        1
    } else {
        0
    };
    proof {
        if from == 0 {
            assert(v@.skip(0) =~= v@);
        }
    }
    ci_eq_str(v, from, "inf") || ci_eq_str(v, from, "infinity") || ci_eq_str(v, from, "nan")
        || float_number_from(v, from)
}

// ---------------------------------------------------------------------------
// Date patterns, matched through the regex crate behind trusted items.
// ---------------------------------------------------------------------------

/// What the date pattern with the given index returns on a string. The
/// pattern set is fixed by `init_patterns`, so the verdict is a function of
/// the index and the string alone.
pub uninterp spec fn date_match(idx: int, s: Seq<char>) -> bool;

/// On ASCII strings each pattern's verdict is a plain shape; `\d` then means
/// exactly the ten ASCII digits, and the anchors pin the whole string.
pub open spec fn spec_date_shape(idx: int, s: Seq<char>) -> bool {
    if idx == 0 {
        // ^\d{4}-\d{2}-\d{2}$
        s.len() == 10 && spec_all_digits(s.subrange(0, 4)) && s[4] == '-' && spec_all_digits(
            s.subrange(5, 7),
        ) && s[7] == '-' && spec_all_digits(s.subrange(8, 10))
    } else if idx == 1 {
        // ^\d{2}/\d{2}/\d{4}$
        s.len() == 10 && spec_all_digits(s.subrange(0, 2)) && s[2] == '/' && spec_all_digits(
            s.subrange(3, 5),
        ) && s[5] == '/' && spec_all_digits(s.subrange(6, 10))
    } else if idx == 2 {
        // ^\d{2}-\d{2}-\d{4}$
        s.len() == 10 && spec_all_digits(s.subrange(0, 2)) && s[2] == '-' && spec_all_digits(
            s.subrange(3, 5),
        ) && s[5] == '-' && spec_all_digits(s.subrange(6, 10))
    } else if idx == 3 {
        // ^\d{4}/\d{2}/\d{2}$
        s.len() == 10 && spec_all_digits(s.subrange(0, 4)) && s[4] == '/' && spec_all_digits(
            s.subrange(5, 7),
        ) && s[7] == '/' && spec_all_digits(s.subrange(8, 10))
    } else if idx == 4 {
        // ^\d{1,2}/\d{1,2}/\d{4}$
        exists|a: int, b: int|
            1 <= a <= 2 && 1 <= b <= 2 && s.len() == a + b + 6 && #[trigger] spec_all_digits(
                s.subrange(0, a),
            ) && s[a] == '/' && #[trigger] spec_all_digits(s.subrange(a + 1, a + 1 + b)) && s[a + 1
                + b] == '/' && spec_all_digits(s.subrange(a + b + 2, a + b + 6))
    } else if idx == 5 {
        // ^\d{4}-\d{2}-\d{2} \d{2}:\d{2}:\d{2}$
        s.len() == 19 && spec_all_digits(s.subrange(0, 4)) && s[4] == '-' && spec_all_digits(
            s.subrange(5, 7),
        ) && s[7] == '-' && spec_all_digits(s.subrange(8, 10)) && s[10] == ' '
            && spec_all_digits(s.subrange(11, 13)) && s[13] == ':' && spec_all_digits(
            s.subrange(14, 16),
        ) && s[16] == ':' && spec_all_digits(s.subrange(17, 19))
    } else {
        false
    }
}

/// Any of the six patterns matches.
pub open spec fn spec_is_date(s: Seq<char>) -> bool {
    ||| date_match(0, s)
    ||| date_match(1, s)
    ||| date_match(2, s)
    ||| date_match(3, s)
    ||| date_match(4, s)
    ||| date_match(5, s)
}

/// Any of the six shapes matches; on ASCII strings this is `spec_is_date`.
pub open spec fn spec_ascii_date(s: Seq<char>) -> bool {
    ||| spec_date_shape(0, s)
    ||| spec_date_shape(1, s)
    ||| spec_date_shape(2, s)
    ||| spec_date_shape(3, s)
    ||| spec_date_shape(4, s)
    ||| spec_date_shape(5, s)
}

/// The six compiled date patterns, built once and passed into the inference
/// function.
pub struct DatePatterns {
    patterns: Vec<regex::Regex>,
}

#[verifier::external_type_specification]
#[verifier::external_body]
pub struct ExRegex(regex::Regex);

impl DatePatterns {
    /// The set holds its six patterns.
    pub closed spec fn wf(self) -> bool {
        self.patterns@.len() == 6
    }
}

/// Compile the six fixed date patterns.
///
/// Relies on `regex::Regex::new`: each of the six pattern strings below is a
/// valid pattern, so compiling it succeeds.
#[verifier::external_body]
pub fn init_patterns() -> (r: DatePatterns)
    ensures
        r.wf(),
{
    DatePatterns {
        patterns: vec![
            regex::Regex::new(r"^\d{4}-\d{2}-\d{2}$").unwrap(),
            regex::Regex::new(r"^\d{2}/\d{2}/\d{4}$").unwrap(),
            regex::Regex::new(r"^\d{2}-\d{2}-\d{4}$").unwrap(),
            regex::Regex::new(r"^\d{4}/\d{2}/\d{2}$").unwrap(),
            regex::Regex::new(r"^\d{1,2}/\d{1,2}/\d{4}$").unwrap(),
            regex::Regex::new(r"^\d{4}-\d{2}-\d{2} \d{2}:\d{2}:\d{2}$").unwrap(),
        ],
    }
}

/// Match one date pattern against a string.
///
/// Relies on `regex::Regex::is_match`: the verdict depends only on the
/// pattern (fixed per index by `init_patterns`) and the string, and on ASCII
/// strings each anchored pattern matches exactly the shape that
/// `spec_date_shape` writes out, `\d` being the ASCII digits there.
#[verifier::external_body]
fn match_at(pats: &DatePatterns, idx: usize, s: &str) -> (r: bool)
    requires
        pats.wf(),
        idx < 6,
    ensures
        r == date_match(idx as int, s@),
        ascii_seq(s@) ==> r == spec_date_shape(idx as int, s@),
{
    pats.patterns[idx].is_match(s)
}

/// Whether any of the six date patterns matches `s`.
fn matches_date(pats: &DatePatterns, s: &str) -> (r: bool)
    requires
        pats.wf(),
    ensures
        r == spec_is_date(s@),
        ascii_seq(s@) ==> r == spec_ascii_date(s@),
{
    match_at(pats, 0, s) || match_at(pats, 1, s) || match_at(pats, 2, s) || match_at(pats, 3, s)
        || match_at(pats, 4, s) || match_at(pats, 5, s)
}

// ---------------------------------------------------------------------------
// The inference function.
// ---------------------------------------------------------------------------

/// How one cell is classified once the date check is in hand: dates first,
/// then blanks, then boolean words; a float literal is an `IntNumber` exactly
/// when it is an integer in `i64` range with neither point nor exponent; all
/// else is text.
pub open spec fn spec_detect_with(is_date: bool, s: Seq<char>) -> DataType {
    if is_date {
        DataType::Date
    } else if spec_blank(s) {
        DataType::Empty
    } else if spec_bool_word(s) {
        DataType::Boolean
    } else if spec_float_literal(s) {
        if spec_has_dot_or_exp(s) {
            DataType::FloatNumber
        } else if spec_int_literal(s) {
            DataType::IntNumber
        } else {
            DataType::FloatNumber
        }
    } else {
        DataType::Text
    }
}

/// The inferred type of `s`.
pub open spec fn spec_detect(s: Seq<char>) -> DataType {
    spec_detect_with(spec_is_date(s), s)
}

/// Infer the type of one cell value against the compiled date patterns.
pub fn detect_data_type_cached(patterns: &DatePatterns, val: &str) -> (t: DataType)
    requires
        patterns.wf(),
    ensures
        t == spec_detect(val@),
        ascii_seq(val@) ==> t == spec_detect_with(spec_ascii_date(val@), val@),
{
    if matches_date(patterns, val) {
        return DataType::Date;
    }
    let v = chars_of(val);
    if all_space(&v) {
        return DataType::Empty;
    }
    if bool_word(&v) {
        return DataType::Boolean;
    }
    if float_literal(&v) {
        if has_dot_or_exp(&v) {
            return DataType::FloatNumber;
        }
        if int_literal(&v) {
            return DataType::IntNumber;
        }
        return DataType::FloatNumber;
    }
    DataType::Text
}

} // verus!
