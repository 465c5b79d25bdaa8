use vstd::prelude::*;
use crate::pointer::{decimal_value, is_digit};
use crate::json::{object_get, JsonV};
use crate::pointer_path::PathStep;
use crate::text::chars_of;

verus! {

/// A character that jsonpath-rust's grammar skips between tokens (its white
/// space is ` `, tab, `\n` and `\r\n`; a lone `\r` is taken as white space
/// here too).
pub open spec fn is_space(c: char) -> bool {
    c == ' ' || c == '\t' || c == '\r' || c == '\n'
}

/// The first position from `j` on that holds `ch` (the end where none).
pub open spec fn find_from(p: Seq<char>, j: int, ch: char) -> int
    decreases p.len() - j,
{
    if 0 <= j < p.len() && p[j] != ch {
        find_from(p, j + 1, ch)
    } else {
        j
    }
}

pub proof fn lemma_find_from(p: Seq<char>, j: int, ch: char)
    requires
        0 <= j <= p.len(),
    ensures
        j <= find_from(p, j, ch) <= p.len(),
        find_from(p, j, ch) < p.len() ==> p[find_from(p, j, ch)] == ch,
    decreases p.len() - j,
{
    if j < p.len() && p[j] != ch {
        lemma_find_from(p, j + 1, ch);
    }
}

/// `t` without the white space at its start.
pub open spec fn drop_leading(t: Seq<char>) -> Seq<char>
    decreases t.len(),
{
    if t.len() > 0 && is_space(t[0]) {
        drop_leading(t.drop_first())
    } else {
        t
    }
}

/// `t` without the white space at its end.
pub open spec fn drop_trailing(t: Seq<char>) -> Seq<char>
    decreases t.len(),
{
    if t.len() > 0 && is_space(t.last()) {
        drop_trailing(t.drop_last())
    } else {
        t
    }
}

/// `t` without white space at either end.
pub open spec fn trim_spaces(t: Seq<char>) -> Seq<char> {
    drop_trailing(drop_leading(t))
}

/// `t` with all its white space taken out.
pub open spec fn remove_spaces(t: Seq<char>) -> Seq<char>
    decreases t.len(),
{
    if t.len() == 0 {
        t
    } else if is_space(t.last()) {
        remove_spaces(t.drop_last())
    } else {
        remove_spaces(t.drop_last()).push(t.last())
    }
}

/// The grammar's `unsigned`: `0`, or digits that do not start with `0`.
pub open spec fn unsigned_text(t: Seq<char>) -> bool {
    &&& t.len() > 0
    &&& forall|i: int| 0 <= i < t.len() ==> is_digit(#[trigger] t[i])
    &&& (t.len() == 1 || t[0] != '0')
}

/// The grammar's `signed`: an `unsigned`, perhaps after `-`.
pub open spec fn signed_text(t: Seq<char>) -> bool {
    unsigned_text(t) || (t.len() > 0 && t[0] == '-' && unsigned_text(t.drop_first()))
}

/// The grammar's `number`, read by a small automaton: `-`?, then `0` or
/// digits not starting with `0`, then `.` and digits?, then `e` or `E`, a
/// sign? and digits?. State 9 is the dead state.
pub open spec fn num_next(st: u8, c: char) -> u8 {
    let d = is_digit(c);
    let e = c == 'e' || c == 'E';
    if st == 0 {
        if c == '-' {
            1
        } else if c == '0' {
            2
        } else if d {
            3
        } else {
            9
        }
    } else if st == 1 {
        if c == '0' {
            2
        } else if d {
            3
        } else {
            9
        }
    } else if st == 2 || st == 3 {
        if st == 3 && d {
            3
        } else if c == '.' {
            4
        } else if e {
            6
        } else {
            9
        }
    } else if st == 4 || st == 5 {
        if d {
            5
        } else if st == 5 && e {
            6
        } else {
            9
        }
    } else if st == 6 {
        if c == '+' || c == '-' {
            7
        } else if d {
            8
        } else {
            9
        }
    } else if st == 7 || st == 8 {
        if d {
            8
        } else {
            9
        }
    } else {
        9
    }
}

pub open spec fn num_run(t: Seq<char>, st: u8) -> u8
    decreases t.len(),
{
    if t.len() == 0 {
        st
    } else {
        num_run(t.drop_first(), num_next(st, t[0]))
    }
}

pub open spec fn number_text(t: Seq<char>) -> bool {
    let f = num_run(t, 0);
    f == 2 || f == 3 || f == 5 || f == 8
}

/// A union number that jsonpath-rust turns into an index (`as_u64` holds):
/// `-0`, or an integer written without a sign that fits in `i64` (a larger
/// one, a fraction or an exponent is read as a float).
pub open spec fn index_number(t: Seq<char>) -> bool {
    t =~= seq!['-', '0'] || (unsigned_text(t) && decimal_value(t) <= i64::MAX)
}

/// A single index `[n]` that jsonpath-rust reads as a float and then cannot
/// turn into an index: an `unsigned` past `i64::MAX`.
pub open spec fn single_panics(c: Seq<char>) -> bool {
    let t = trim_spaces(c);
    unsigned_text(t) && decimal_value(t) > i64::MAX
}

/// Whether every comma-separated part of `c` is a `number`.
pub open spec fn parts_numbers(c: Seq<char>) -> bool
    decreases c.len(),
{
    let e = find_from(c, 0, ',');
    proof {
        lemma_find_from(c, 0, ',');
    }
    number_text(trim_spaces(c.take(e))) && (e < c.len() ==> parts_numbers(c.skip(e + 1)))
}

/// Whether some comma-separated part of `c` is not an `index_number`.
pub open spec fn parts_bad(c: Seq<char>) -> bool
    decreases c.len(),
{
    let e = find_from(c, 0, ',');
    proof {
        lemma_find_from(c, 0, ',');
    }
    !index_number(trim_spaces(c.take(e))) || (e < c.len() && parts_bad(c.skip(e + 1)))
}

/// A union of numbers `[n, m, ...]` with a number that jsonpath-rust cannot
/// turn into an index.
pub open spec fn union_panics(c: Seq<char>) -> bool {
    find_from(c, 0, ',') < c.len() && parts_numbers(c) && parts_bad(c)
}

/// A slice bound: nothing, or a `signed` (white space may stand inside it).
pub open spec fn slice_bound(t: Seq<char>) -> bool {
    remove_spaces(t).len() == 0 || signed_text(remove_spaces(t))
}

/// A slice `[start:end:0]` with an explicit step of 0.
pub open spec fn slice_panics(c: Seq<char>) -> bool {
    let a = find_from(c, 0, ':');
    let b = find_from(c, a + 1, ':');
    &&& a < c.len()
    &&& b < c.len()
    &&& slice_bound(c.subrange(0, a))
    &&& slice_bound(c.subrange(a + 1, b))
    &&& remove_spaces(c.subrange(b + 1, c.len() as int)) =~= seq!['0']
}

/// The contents of a pair of brackets on which jsonpath-rust panics while it
/// evaluates the path: a single index past `i64`, a union with a number that
/// is not an index, or a slice whose step is 0.
pub open spec fn bracket_panics(c: Seq<char>) -> bool {
    single_panics(c) || union_panics(c) || slice_panics(c)
}

/// The `[` at `i` does not open contents on which jsonpath-rust panics.
pub open spec fn bracket_safe(p: Seq<char>, i: int) -> bool {
    let e = find_from(p, i + 1, ']');
    e < p.len() ==> !bracket_panics(p.subrange(i + 1, e))
}

/// A JSONPath on which jsonpath-rust does not panic: no pair of brackets
/// holds a single index past `i64`, a union with a number that is not an
/// index, or a slice with a step of 0. Every other path is admitted, those
/// that do not parse among them. (A step-0 slice that never meets an array,
/// or such contents inside a quoted string, are refused too.)
pub open spec fn index_safe(p: Seq<char>) -> bool {
    forall|i: int| 0 <= i < p.len() && p[i] == '[' ==> #[trigger] bracket_safe(p, i)
}

} // verus!
verus! {

fn find_from_of(p: &Vec<char>, j: usize, ch: char) -> (r: usize)
    requires
        j <= p.len(),
    ensures
        r == find_from(p@, j as int, ch),
        j <= r <= p.len(),
{
    let mut k = j;
    while k < p.len() && p[k] != ch
        invariant
            j <= k <= p.len(),
            find_from(p@, k as int, ch) == find_from(p@, j as int, ch),
        decreases p.len() - k,
    {
        k += 1;
    }
    k
}

fn space_char(c: char) -> (r: bool)
    ensures
        r == is_space(c),
{
    c == ' ' || c == '\t' || c == '\r' || c == '\n'
}

fn digit_char_of(c: char) -> (r: bool)
    ensures
        r == is_digit(c),
{
    '0' <= c && c <= '9'
}

/// The characters of `p` from `a` up to `b`.
fn slice_of(p: &Vec<char>, a: usize, b: usize) -> (r: Vec<char>)
    requires
        a <= b <= p.len(),
    ensures
        r@ == p@.subrange(a as int, b as int),
{
    let mut out: Vec<char> = Vec::new();
    let mut k = a;
    while k < b
        invariant
            a <= k <= b <= p.len(),
            out@ == p@.subrange(a as int, k as int),
        decreases b - k,
    {
        out.push(p[k]);
        k += 1;
        assert(out@ =~= p@.subrange(a as int, k as int));
    }
    out
}

fn trimmed(c: &Vec<char>) -> (r: Vec<char>)
    ensures
        r@ == trim_spaces(c@),
{
    let mut a: usize = 0;
    assert(c@.skip(0) =~= c@);
    while a < c.len() && space_char(c[a])
        invariant
            0 <= a <= c.len(),
            drop_leading(c@) == drop_leading(c@.skip(a as int)),
        decreases c.len() - a,
    {
        assert(c@.skip(a as int).drop_first() =~= c@.skip(a + 1));
        a += 1;
    }
    assert(drop_leading(c@.skip(a as int)) == c@.skip(a as int));
    let mut b: usize = c.len();
    while b > a && space_char(c[b - 1])
        invariant
            a <= b <= c.len(),
            drop_leading(c@) == c@.skip(a as int),
            drop_trailing(c@.skip(a as int)) == drop_trailing(c@.subrange(a as int, b as int)),
        decreases b,
    {
        assert(c@.subrange(a as int, b as int).drop_last() =~= c@.subrange(a as int, b - 1));
        b -= 1;
    }
    assert(c@.skip(a as int) =~= c@.subrange(a as int, c.len() as int));
    slice_of(c, a, b)
}

fn spaces_removed(c: &Vec<char>) -> (r: Vec<char>)
    ensures
        r@ == remove_spaces(c@),
{
    let mut out: Vec<char> = Vec::new();
    let mut i: usize = 0;
    while i < c.len()
        invariant
            0 <= i <= c.len(),
            out@ == remove_spaces(c@.take(i as int)),
        decreases c.len() - i,
    {
        assert(c@.take(i + 1).drop_last() =~= c@.take(i as int));
        if !space_char(c[i]) {
            out.push(c[i]);
        }
        i += 1;
    }
    assert(c@.take(c.len() as int) =~= c@);
    out
}

fn is_unsigned(t: &Vec<char>) -> (r: bool)
    ensures
        r == unsigned_text(t@),
{
    if t.len() == 0 {
        return false;
    }
    let mut i: usize = 0;
    while i < t.len()
        invariant
            0 <= i <= t.len(),
            forall|k: int| 0 <= k < i ==> is_digit(#[trigger] t@[k]),
        decreases t.len() - i,
    {
        if !digit_char_of(t[i]) {
            return false;
        }
        i += 1;
    }
    t.len() == 1 || t[0] != '0'
}

fn is_signed(t: &Vec<char>) -> (r: bool)
    ensures
        r == signed_text(t@),
{
    if is_unsigned(t) {
        return true;
    }
    if t.len() > 0 && t[0] == '-' {
        let rest = slice_of(t, 1, t.len());
        assert(rest@ =~= t@.drop_first());
        is_unsigned(&rest)
    } else {
        false
    }
}

/// Whether the digits `t` write a number no larger than `i64::MAX`.
fn fits_i64(t: &Vec<char>) -> (r: bool)
    requires
        forall|k: int| 0 <= k < t.len() ==> is_digit(#[trigger] t@[k]),
    ensures
        r == (decimal_value(t@) <= i64::MAX),
{
    let mut acc: u64 = 0;
    let mut big = false;
    let mut i: usize = 0;
    while i < t.len()
        invariant
            0 <= i <= t.len(),
            forall|k: int| 0 <= k < t.len() ==> is_digit(#[trigger] t@[k]),
            !big ==> acc == decimal_value(t@.take(i as int)) && acc <= i64::MAX,
            big ==> decimal_value(t@.take(i as int)) > i64::MAX,
        decreases t.len() - i,
    {
        assert(t@.take(i + 1).drop_last() =~= t@.take(i as int));
        assert(t@.take(i + 1).last() == t@[i as int]);
        assert(is_digit(t@[i as int]));
        let d = (t[i] as u32 - '0' as u32) as u64;
        let ghost prev = decimal_value(t@.take(i as int));
        assert(decimal_value(t@.take(i + 1)) == prev * 10 + d);
        if big {
            assert(prev * 10 + d >= prev) by (nonlinear_arith)
                requires
                    prev >= 0,
                    d >= 0,
            ;
        } else if acc > 922337203685477580 {
            assert(prev * 10 + d > i64::MAX) by (nonlinear_arith)
                requires
                    prev > 922337203685477580,
                    d >= 0,
            ;
            big = true;
        } else {
            assert(acc * 10 + d <= 9223372036854775809) by (nonlinear_arith)
                requires
                    acc <= 922337203685477580,
                    d <= 9,
            ;
            acc = acc * 10 + d;
            if acc > 9223372036854775807 {
                big = true;
            }
        }
        i += 1;
    }
    assert(t@.take(t.len() as int) =~= t@);
    !big
}

fn num_step(st: u8, c: char) -> (r: u8)
    ensures
        r == num_next(st, c),
{
    let d = digit_char_of(c);
    let e = c == 'e' || c == 'E';
    if st == 0 {
        if c == '-' {
            1
        } else if c == '0' {
            2
        } else if d {
            3
        } else {
            9
        }
    } else if st == 1 {
        if c == '0' {
            2
        } else if d {
            3
        } else {
            9
        }
    } else if st == 2 || st == 3 {
        if st == 3 && d {
            3
        } else if c == '.' {
            4
        } else if e {
            6
        } else {
            9
        }
    } else if st == 4 || st == 5 {
        if d {
            5
        } else if st == 5 && e {
            6
        } else {
            9
        }
    } else if st == 6 {
        if c == '+' || c == '-' {
            7
        } else if d {
            8
        } else {
            9
        }
    } else if st == 7 || st == 8 {
        if d {
            8
        } else {
            9
        }
    } else {
        9
    }
}

fn is_number(t: &Vec<char>) -> (r: bool)
    ensures
        r == number_text(t@),
{
    let mut st: u8 = 0;
    let mut i: usize = 0;
    assert(t@.skip(0) =~= t@);
    while i < t.len()
        invariant
            0 <= i <= t.len(),
            num_run(t@, 0) == num_run(t@.skip(i as int), st),
        decreases t.len() - i,
    {
        assert(t@.skip(i as int).drop_first() =~= t@.skip(i + 1));
        assert(t@.skip(i as int)[0] == t@[i as int]);
        st = num_step(st, t[i]);
        i += 1;
    }
    assert(t@.skip(t.len() as int) =~= Seq::<char>::empty());
    st == 2 || st == 3 || st == 5 || st == 8
}

fn is_index_number(t: &Vec<char>) -> (r: bool)
    ensures
        r == index_number(t@),
{
    if t.len() == 2 && t[0] == '-' && t[1] == '0' {
        assert(t@ =~= seq!['-', '0']);
        return true;
    }
    assert(!(t@ =~= seq!['-', '0']) ==> !(t@ == seq!['-', '0']));
    if !is_unsigned(t) {
        return false;
    }
    fits_i64(t)
}

/// `(parts_numbers, parts_bad)` of `c` from `s` on.
fn check_parts(c: &Vec<char>, s: usize) -> (r: (bool, bool))
    requires
        s <= c.len(),
    ensures
        r.0 == parts_numbers(c@.skip(s as int)),
        r.1 == parts_bad(c@.skip(s as int)),
    decreases c.len() - s,
{
    let ghost rest = c@.skip(s as int);
    let e = find_from_of(c, s, ',');
    proof {
        lemma_find_from(rest, 0, ',');
        lemma_find_from_shift(c@, s as int, ',');
    }
    let part = slice_of(c, s, e);
    assert(part@ =~= rest.take(e - s));
    let t = trimmed(&part);
    let num = is_number(&t);
    let good = is_index_number(&t);
    if e < c.len() {
        assert(rest.skip(e - s + 1) =~= c@.skip(e + 1));
        let (n2, b2) = check_parts(c, e + 1);
        (num && n2, !good || b2)
    } else {
        (num, !good)
    }
}

proof fn lemma_find_from_shift(p: Seq<char>, s: int, ch: char)
    requires
        0 <= s <= p.len(),
    ensures
        find_from(p.skip(s), 0, ch) == find_from(p, s, ch) - s,
{
    lemma_find_from_shift_at(p, s, 0, ch);
}

proof fn lemma_find_from_shift_at(p: Seq<char>, s: int, j: int, ch: char)
    requires
        0 <= s <= p.len(),
        0 <= j <= p.len() - s,
    ensures
        find_from(p.skip(s), j, ch) == find_from(p, s + j, ch) - s,
    decreases p.len() - s - j,
{
    if j < p.len() - s {
        assert(p.skip(s)[j] == p[s + j]);
        lemma_find_from_shift_at(p, s, j + 1, ch);
    }
}

fn is_bracket_panic(c: &Vec<char>) -> (r: bool)
    ensures
        r == bracket_panics(c@),
{
    let t = trimmed(c);
    if is_unsigned(&t) && !fits_i64(&t) {
        return true;
    }
    let comma = find_from_of(c, 0, ',');
    if comma < c.len() {
        assert(c@.skip(0) =~= c@);
        let (nums, bad) = check_parts(c, 0);
        if nums && bad {
            return true;
        }
    }
    let a = find_from_of(c, 0, ':');
    if a < c.len() {
        let b = find_from_of(c, a + 1, ':');
        if b < c.len() {
            let start = spaces_removed(&slice_of(c, 0, a));
            let end = spaces_removed(&slice_of(c, a + 1, b));
            let step = spaces_removed(&slice_of(c, b + 1, c.len()));
            let start_ok = start.len() == 0 || is_signed(&start);
            let end_ok = end.len() == 0 || is_signed(&end);
            let zero = step.len() == 1 && step[0] == '0';
            assert(zero == (step@ =~= seq!['0']));
            if start_ok && end_ok && zero {
                return true;
            }
        }
    }
    false
}

/// Whether `path` is `index_safe`.
pub fn is_index_safe(path: &str) -> (r: bool)
    ensures
        r == index_safe(path@),
{
    let p = chars_of(path);
    let mut i: usize = 0;
    while i < p.len()
        invariant
            p@ == path@,
            0 <= i <= p.len(),
            forall|m: int| 0 <= m < i && p@[m] == '[' ==> #[trigger] bracket_safe(p@, m),
        decreases p.len() - i,
    {
        if p[i] == '[' {
            let e = find_from_of(&p, i + 1, ']');
            if e < p.len() {
                let c = slice_of(&p, i + 1, e);
                if is_bracket_panic(&c) {
                    assert(!bracket_safe(p@, i as int));
                    return false;
                }
            }
            assert(bracket_safe(p@, i as int));
        }
        i += 1;
    }
    true
}

} // verus!


verus! {

/// The first position from `j` on that does not hold a digit.
pub open spec fn digits_end(p: Seq<char>, j: int) -> int
    decreases p.len() - j,
{
    if 0 <= j < p.len() && is_digit(p[j]) {
        digits_end(p, j + 1)
    } else {
        j
    }
}

pub proof fn lemma_digits_end(p: Seq<char>, j: int)
    requires
        0 <= j <= p.len(),
    ensures
        j <= digits_end(p, j) <= p.len(),
        forall|k: int| j <= k < digits_end(p, j) ==> is_digit(#[trigger] p[k]),
    decreases p.len() - j,
{
    if j < p.len() && is_digit(p[j]) {
        lemma_digits_end(p, j + 1);
    }
}

/// The steps that `p` writes from position `j` to its end, each `.['key']`
/// (a key with no `'`, not ending in `\`) or `[digits]` (1 to 15 digits);
/// `None` where `p` holds anything else there.
pub open spec fn steps_from(p: Seq<char>, j: int) -> Option<Seq<PathStep>>
    decreases p.len() - j,
{
    if j < 0 || j > p.len() {
        None
    } else if j == p.len() {
        Some(Seq::empty())
    } else if j + 3 <= p.len() && p[j] == '.' && p[j + 1] == '[' && p[j + 2] == '\'' {
        let e = find_from(p, j + 3, '\'');
        proof {
            lemma_find_from(p, j + 3, '\'');
        }
        if e + 1 < p.len() && p[e + 1] == ']' && !(e > j + 3 && p[e - 1] == '\\') {
            match steps_from(p, e + 2) {
                Some(rest) => Some(seq![PathStep::Key(p.subrange(j + 3, e))] + rest),
                None => None,
            }
        } else {
            None
        }
    } else if p[j] == '[' {
        let e = digits_end(p, j + 1);
        proof {
            lemma_digits_end(p, j + 1);
        }
        if e > j + 1 && e - (j + 1) <= 15 && e < p.len() && p[e] == ']' {
            match steps_from(p, e + 1) {
                Some(rest) => Some(
                    seq![PathStep::Index(decimal_value(p.subrange(j + 1, e)) as usize)] + rest,
                ),
                None => None,
            }
        } else {
            None
        }
    } else {
        None
    }
}

/// The steps a path `$` followed by `.['key']` and `[digits]` steps writes,
/// the form in which jsonpath-rust writes the paths it finds.
pub open spec fn parse_steps(p: Seq<char>) -> Option<Seq<PathStep>> {
    if p.len() > 0 && p[0] == '$' {
        steps_from(p, 1)
    } else {
        None
    }
}

/// A path that `parse_steps` reads. jsonpath_lib reads such a path as a
/// chain of key and index steps: each step takes at most one child (or, for
/// an index on an object, one element of each array member), so no node it
/// selects lies below another, and `replace_with` never replaces a node and
/// then one inside it (where it can index out of bounds), nor reaches a
/// filter (where it can panic).
pub open spec fn single_steps_path(p: Seq<char>) -> bool {
    parse_steps(p) is Some
}

/// The value the steps lead to from `doc`: a key step takes an object's
/// member, an index step an array's item.
pub open spec fn steps_get(doc: JsonV, steps: Seq<PathStep>) -> Option<JsonV>
    decreases steps.len(),
{
    if steps.len() == 0 {
        Some(doc)
    } else {
        match (steps[0], doc) {
            (PathStep::Key(k), JsonV::Object(entries)) => match object_get(entries, k) {
                Some(v) => steps_get(v, steps.drop_first()),
                None => None,
            },
            (PathStep::Index(i), JsonV::Array(items)) => if i < items.len() {
                steps_get(items[i as int], steps.drop_first())
            } else {
                None
            },
            _ => None,
        }
    }
}

/// The position of the first entry with key `k` (the end where none).
pub open spec fn key_position(entries: Seq<(Seq<char>, JsonV)>, k: Seq<char>) -> int
    decreases entries.len(),
{
    if entries.len() == 0 || entries[0].0 == k {
        0
    } else {
        1 + key_position(entries.drop_first(), k)
    }
}

/// `doc` with the value the steps lead to replaced by `v`, everything else
/// as it was (where the steps lead nowhere, `doc` as it was).
pub open spec fn steps_set(doc: JsonV, steps: Seq<PathStep>, v: JsonV) -> JsonV
    decreases steps.len(),
{
    if steps.len() == 0 {
        v
    } else {
        match (steps[0], doc) {
            (PathStep::Key(k), JsonV::Object(entries)) => {
                let p = key_position(entries, k);
                if 0 <= p < entries.len() {
                    JsonV::Object(
                        entries.update(p, (k, steps_set(entries[p].1, steps.drop_first(), v))),
                    )
                } else {
                    doc
                }
            },
            (PathStep::Index(i), JsonV::Array(items)) => if i < items.len() {
                JsonV::Array(items.update(i as int, steps_set(items[i as int], steps.drop_first(), v)))
            } else {
                doc
            },
            _ => doc,
        }
    }
}

/// Whether `path` is a `single_steps_path`.
pub fn is_single_steps_path(path: &str) -> (r: bool)
    ensures
        r == single_steps_path(path@),
{
    let p = chars_of(path);
    if p.len() == 0 || p[0] != '$' {
        return false;
    }
    let mut j: usize = 1;
    while j < p.len()
        invariant
            p@ == path@,
            1 <= j <= p.len(),
            p@[0] == '$',
            (steps_from(p@, j as int) is Some) == (steps_from(p@, 1) is Some),
        decreases p.len() - j,
    {
        if p.len() - j >= 3 && p[j] == '.' && p[j + 1] == '[' && p[j + 2] == '\'' {
            let e = find_from_of(&p, j + 3, '\'');
            if e < p.len() - 1 && p[e + 1] == ']' && !(e > j + 3 && p[e - 1] == '\\') {
                j = e + 2;
            } else {
                return false;
            }
        } else if p[j] == '[' {
            let e = digits_end_of(&p, j + 1);
            if e > j + 1 && e - (j + 1) <= 15 && e < p.len() && p[e] == ']' {
                j = e + 1;
            } else {
                return false;
            }
        } else {
            return false;
        }
    }
    true
}

fn digits_end_of(p: &Vec<char>, j: usize) -> (r: usize)
    requires
        j <= p.len(),
    ensures
        r == digits_end(p@, j as int),
        j <= r <= p.len(),
{
    let mut k = j;
    while k < p.len() && digit_char_of(p[k])
        invariant
            j <= k <= p.len(),
            digits_end(p@, k as int) == digits_end(p@, j as int),
        decreases p.len() - k,
    {
        k += 1;
    }
    k
}

} // verus!
