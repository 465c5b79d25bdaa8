use vstd::prelude::*;
use crate::text::{
    chars_of, lemma_first_absent, lemma_replace_shorter, lemma_replace_split, lemma_replace_whole, replace_all, replace_chars, string_of,
    trim_start_char, trim_start_chars,
};

verus! {

/// The JSON pointer made of a JSONPath: leading `$` dropped, `.` and `['` and
/// `[` become `/`, `']` and `]` are dropped, then `//` becomes `/`.
pub open spec fn pointer_path_of(path: Seq<char>) -> Seq<char> {
    let s0 = trim_start_char(path, '$');
    let s1 = replace_all(s0, seq!['.'], seq!['/']);
    let s2 = replace_all(s1, seq!['[', '\''], seq!['/']);
    let s3 = replace_all(s2, seq!['\'', ']'], Seq::empty());
    let s4 = replace_all(s3, seq!['['], seq!['/']);
    let s5 = replace_all(s4, seq![']'], Seq::empty());
    replace_all(s5, seq!['/', '/'], seq!['/'])
}

/// Turns a JSONPath (as jsonpath-rust writes the paths it finds, such as
/// `$.['entities'][0]`) into the JSON pointer used to read the value there.
pub fn convert_to_json_pointer_path(path: &str) -> (r: String)
    ensures
        r@ == pointer_path_of(path@),
{
    let dot = vec!['.'];
    let slash = vec!['/'];
    let open_quote = vec!['[', '\''];
    let close_quote = vec!['\'', ']'];
    let open = vec!['['];
    let close = vec![']'];
    let double_slash = vec!['/', '/'];
    let nothing: Vec<char> = Vec::new();
    assert(dot@ =~= seq!['.']);
    assert(slash@ =~= seq!['/']);
    assert(open_quote@ =~= seq!['[', '\'']);
    assert(close_quote@ =~= seq!['\'', ']']);
    assert(open@ =~= seq!['[']);
    assert(close@ =~= seq![']']);
    assert(double_slash@ =~= seq!['/', '/']);
    assert(nothing@ =~= Seq::<char>::empty());
    let cs = chars_of(path);
    let s0 = trim_start_chars(&cs, '$');
    let s1 = replace_chars(&s0, &dot, &slash);
    let s2 = replace_chars(&s1, &open_quote, &slash);
    let s3 = replace_chars(&s2, &close_quote, &nothing);
    let s4 = replace_chars(&s3, &open, &slash);
    let s5 = replace_chars(&s4, &close, &nothing);
    let s6 = replace_chars(&s5, &double_slash, &slash);
    string_of(&s6)
}

} // verus!

verus! {

/// A step from a node to one of its children: an object member or an array item.
pub enum PathStep {
    Key(Seq<char>),
    Index(usize),
}

pub open spec fn digit_char(d: nat) -> char {
    if d == 0 {
        '0'
    } else if d == 1 {
        '1'
    } else if d == 2 {
        '2'
    } else if d == 3 {
        '3'
    } else if d == 4 {
        '4'
    } else if d == 5 {
        '5'
    } else if d == 6 {
        '6'
    } else if d == 7 {
        '7'
    } else if d == 8 {
        '8'
    } else {
        '9'
    }
}

/// `n` written in decimal, as `format!("{}", n)` writes it.
pub open spec fn decimal_text(n: nat) -> Seq<char>
    decreases n,
{
    if n < 10 {
        seq![digit_char(n)]
    } else {
        decimal_text(n / 10).push(digit_char(n % 10))
    }
}

/// The text of the steps, each written by `f`, one after the other.
pub open spec fn steps_text(steps: Seq<PathStep>, f: spec_fn(PathStep) -> Seq<char>) -> Seq<char>
    decreases steps.len(),
{
    if steps.len() == 0 {
        Seq::empty()
    } else {
        steps_text(steps.drop_last(), f) + f(steps.last())
    }
}

/// A step as jsonpath-rust writes it in the paths it finds: `.['key']` or `[index]`.
pub open spec fn step_path(s: PathStep) -> Seq<char> {
    match s {
        PathStep::Key(k) => seq!['.', '[', '\''] + k + seq!['\'', ']'],
        PathStep::Index(i) => seq!['['] + decimal_text(i as nat) + seq![']'],
    }
}

/// The path jsonpath-rust writes for the node the steps lead to.
pub open spec fn normalized_path(steps: Seq<PathStep>) -> Seq<char> {
    seq!['$'] + steps_text(steps, |s: PathStep| step_path(s))
}

/// A step as a JSON pointer writes it: `/key` or `/index`.
pub open spec fn step_pointer(s: PathStep) -> Seq<char> {
    match s {
        PathStep::Key(k) => seq!['/'] + k,
        PathStep::Index(i) => seq!['/'] + decimal_text(i as nat),
    }
}

/// The JSON pointer of the node the steps lead to.
pub open spec fn steps_pointer(steps: Seq<PathStep>) -> Seq<char> {
    steps_text(steps, |s: PathStep| step_pointer(s))
}

/// A character that none of the rewrites looks at.
pub open spec fn plain_char(c: char) -> bool {
    c != '.' && c != '[' && c != ']' && c != '\'' && c != '/'
}

pub open spec fn plain_text(t: Seq<char>) -> bool {
    t.len() > 0 && forall|i: int| 0 <= i < t.len() ==> plain_char(#[trigger] t[i])
}

/// A key with none of the characters that a path or a pointer gives a meaning to.
pub open spec fn plain_step(s: PathStep) -> bool {
    match s {
        PathStep::Key(k) => plain_text(k),
        PathStep::Index(_) => true,
    }
}

proof fn lemma_decimal_plain(n: nat)
    ensures
        plain_text(decimal_text(n)),
    decreases n,
{
    if n >= 10 {
        lemma_decimal_plain(n / 10);
        let d = decimal_text(n / 10);
        assert forall|i: int| 0 <= i < decimal_text(n).len() implies plain_char(
            #[trigger] decimal_text(n)[i],
        ) by {
            if i < d.len() {
                assert(decimal_text(n)[i] == d[i]);
            }
        }
    }
}

/// The text of the segment a step has after the rewrites done so far.
pub open spec fn seg(stage: nat, s: PathStep) -> Seq<char> {
    match s {
        PathStep::Key(k) => if stage == 0 {
            seq!['.', '[', '\''] + k + seq!['\'', ']']
        } else if stage == 1 {
            seq!['/', '[', '\''] + k + seq!['\'', ']']
        } else if stage == 2 {
            seq!['/', '/'] + k + seq!['\'', ']']
        } else if stage <= 5 {
            seq!['/', '/'] + k
        } else {
            seq!['/'] + k
        },
        PathStep::Index(i) => {
            let d = decimal_text(i as nat);
            if stage <= 3 {
                seq!['['] + d + seq![']']
            } else if stage == 4 {
                seq!['/'] + d + seq![']']
            } else {
                seq!['/'] + d
            }
        },
    }
}

/// The pattern and replacement of each rewrite, in turn.
pub open spec fn pass_pattern(stage: nat) -> Seq<char> {
    if stage == 0 {
        seq!['.']
    } else if stage == 1 {
        seq!['[', '\'']
    } else if stage == 2 {
        seq!['\'', ']']
    } else if stage == 3 {
        seq!['[']
    } else if stage == 4 {
        seq![']']
    } else {
        seq!['/', '/']
    }
}

pub open spec fn pass_replacement(stage: nat) -> Seq<char> {
    if stage == 0 || stage == 1 || stage == 3 || stage == 5 {
        seq!['/']
    } else {
        Seq::empty()
    }
}

/// Each rewrite turns each segment into its next form.
proof fn lemma_seg_pass(stage: nat, s: PathStep)
    requires
        stage < 6,
        plain_step(s),
    ensures
        replace_all(seg(stage, s), pass_pattern(stage), pass_replacement(stage)) == seg(
            stage + 1,
            s,
        ),
{
    let pat = pass_pattern(stage);
    let rep = pass_replacement(stage);
    match s {
        PathStep::Key(k) => {
            assert(plain_text(k));
            lemma_first_absent(k, pat, rep);
            if stage == 0 {
                let x = seq!['.', '[', '\''];
                let z = seq!['\'', ']'];
                lemma_replace_split(x + k, z, pat, rep);
                lemma_replace_split(x, k, pat, rep);
                lemma_replace_split(seq!['.'], seq!['[', '\''], pat, rep);
                assert(seq!['.'] + seq!['[', '\''] =~= x);
                lemma_first_absent(seq!['[', '\''], pat, rep);
                lemma_first_absent(z, pat, rep);
                lemma_replace_whole(pat, rep);
                assert(seq!['/'] + seq!['[', '\''] =~= seq!['/', '[', '\'']);
            } else if stage == 1 {
                let x = seq!['/', '[', '\''];
                let z = seq!['\'', ']'];
                lemma_replace_split(x + k, z, pat, rep);
                lemma_replace_split(x, k, pat, rep);
                lemma_replace_split(seq!['/'], seq!['[', '\''], pat, rep);
                assert(seq!['/'] + seq!['[', '\''] =~= x);
                lemma_first_absent(seq!['/'], pat, rep);
                lemma_first_absent(z, pat, rep);
                lemma_replace_whole(pat, rep);
                assert(seq!['/'] + seq!['/'] =~= seq!['/', '/']);
            } else if stage == 2 {
                let x = seq!['/', '/'];
                let z = seq!['\'', ']'];
                lemma_replace_split(x + k, z, pat, rep);
                lemma_replace_split(x, k, pat, rep);
                lemma_first_absent(x, pat, rep);
                lemma_replace_whole(pat, rep);
                assert(x + k + Seq::<char>::empty() =~= x + k);
            } else if stage <= 4 {
                let x = seq!['/', '/'];
                lemma_replace_split(x, k, pat, rep);
                lemma_first_absent(x, pat, rep);
            } else {
                let x = seq!['/', '/'];
                lemma_replace_split(x, k, pat, rep);
                lemma_replace_whole(pat, rep);
            }
        },
        PathStep::Index(i) => {
            let d = decimal_text(i as nat);
            lemma_decimal_plain(i as nat);
            lemma_first_absent(d, pat, rep);
            if stage <= 3 {
                let x = seq!['['];
                let z = seq![']'];
                lemma_replace_split(x + d, z, pat, rep);
                lemma_replace_split(x, d, pat, rep);
                lemma_first_absent(z, pat, rep);
                if stage == 3 {
                    lemma_replace_whole(pat, rep);
                } else if stage == 1 {
                    lemma_replace_shorter(x, pat, rep);
                } else {
                    lemma_first_absent(x, pat, rep);
                }
            } else if stage == 4 {
                let x = seq!['/'];
                let z = seq![']'];
                lemma_replace_split(x + d, z, pat, rep);
                lemma_replace_split(x, d, pat, rep);
                lemma_first_absent(x, pat, rep);
                lemma_replace_whole(pat, rep);
                assert(x + d + Seq::<char>::empty() =~= x + d);
            } else {
                let x = seq!['/'];
                lemma_replace_split(x, d, pat, rep);
                lemma_replace_shorter(x, pat, rep);
            }
        },
    }
}

} // verus!

verus! {

proof fn lemma_seg_ends(stage: nat, s: PathStep)
    requires
        plain_step(s),
    ensures
        seg(stage, s).len() > 0,
        stage == 0 ==> seg(stage, s)[0] == '.' || seg(stage, s)[0] == '[',
        stage == 1 || stage == 2 ==> seg(stage, s).last() == ']',
        stage == 5 ==> plain_char(seg(stage, s).last()),
{
    match s {
        PathStep::Key(k) => {
            assert(plain_text(k));
            if stage == 5 {
                assert(seg(stage, s).last() == k.last());
            }
        },
        PathStep::Index(i) => {
            lemma_decimal_plain(i as nat);
            let d = decimal_text(i as nat);
            if stage == 5 {
                assert(seg(stage, s).last() == d.last());
            }
        },
    }
}

proof fn lemma_text_ends(steps: Seq<PathStep>, stage: nat)
    requires
        steps.len() > 0,
        forall|i: int| 0 <= i < steps.len() ==> plain_step(#[trigger] steps[i]),
    ensures
        steps_text(steps, |s: PathStep| seg(stage, s)).len() > 0,
        steps_text(steps, |s: PathStep| seg(stage, s)).last() == seg(stage, steps.last()).last(),
        steps_text(steps, |s: PathStep| seg(stage, s))[0] == seg(stage, steps[0])[0],
    decreases steps.len(),
{
    let f = |s: PathStep| seg(stage, s);
    let rest = steps.drop_last();
    lemma_seg_ends(stage, steps.last());
    if rest.len() > 0 {
        lemma_text_ends(rest, stage);
        assert(rest[0] == steps[0]);
    } else {
        assert(steps_text(rest, f) =~= Seq::<char>::empty());
        assert(rest.len() == 0 ==> steps.last() == steps[0]);
    }
}

/// Each rewrite turns the text of all the steps into their next form.
proof fn lemma_pass_steps(stage: nat, steps: Seq<PathStep>)
    requires
        stage < 6,
        forall|i: int| 0 <= i < steps.len() ==> plain_step(#[trigger] steps[i]),
    ensures
        replace_all(
            steps_text(steps, |s: PathStep| seg(stage, s)),
            pass_pattern(stage),
            pass_replacement(stage),
        ) == steps_text(steps, |s: PathStep| seg(stage + 1, s)),
    decreases steps.len(),
{
    let pat = pass_pattern(stage);
    let rep = pass_replacement(stage);
    let f = |s: PathStep| seg(stage, s);
    let g = |s: PathStep| seg(stage + 1, s);
    if steps.len() == 0 {
        assert(steps_text(steps, f) =~= Seq::<char>::empty());
        lemma_replace_shorter(steps_text(steps, f), pat, rep);
    } else {
        let rest = steps.drop_last();
        lemma_pass_steps(stage, rest);
        lemma_seg_pass(stage, steps.last());
        let a = steps_text(rest, f);
        let b = f(steps.last());
        if rest.len() > 0 {
            lemma_text_ends(rest, stage);
            lemma_seg_ends(stage, rest.last());
        }
        lemma_replace_split(a, b, pat, rep);
    }
}

/// Steps whose texts agree give the same text.
proof fn lemma_text_same(
    steps: Seq<PathStep>,
    f: spec_fn(PathStep) -> Seq<char>,
    g: spec_fn(PathStep) -> Seq<char>,
)
    requires
        forall|i: int| 0 <= i < steps.len() ==> f(#[trigger] steps[i]) == g(steps[i]),
    ensures
        steps_text(steps, f) == steps_text(steps, g),
    decreases steps.len(),
{
    if steps.len() > 0 {
        lemma_text_same(steps.drop_last(), f, g);
    }
}

/// For a path that jsonpath-rust writes for a node (`$` then `.['key']` and
/// `[index]` steps), whose keys hold none of `.`, `[`, `]`, `'` or `/` and
/// are not empty, `convert_to_json_pointer_path` gives that node's JSON
/// pointer (`/key` and `/index` steps).
pub proof fn pointer_of_found_path(steps: Seq<PathStep>)
    requires
        forall|i: int| 0 <= i < steps.len() ==> plain_step(#[trigger] steps[i]),
    ensures
        pointer_path_of(normalized_path(steps)) == steps_pointer(steps),
{
    let t0 = steps_text(steps, |s: PathStep| seg(0, s));
    lemma_text_same(steps, |s: PathStep| step_path(s), |s: PathStep| seg(0, s));
    assert(normalized_path(steps) == seq!['$'] + t0);
    let whole = seq!['$'] + t0;
    assert(whole.drop_first() =~= t0);
    if steps.len() > 0 {
        lemma_text_ends(steps, 0);
        lemma_seg_ends(0, steps[0]);
    } else {
        assert(t0 =~= Seq::<char>::empty());
    }
    assert(trim_start_char(t0, '$') == t0);
    assert(whole[0] == '$');
    assert(trim_start_char(whole, '$') == t0);
    lemma_pass_steps(0, steps);
    lemma_pass_steps(1, steps);
    lemma_pass_steps(2, steps);
    lemma_pass_steps(3, steps);
    lemma_pass_steps(4, steps);
    lemma_pass_steps(5, steps);
    lemma_text_same(steps, |s: PathStep| seg(6, s), |s: PathStep| step_pointer(s));
}

} // verus!
