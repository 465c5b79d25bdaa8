use vstd::prelude::*;

verus! {

/// `s` with each occurrence of `pat`, found left to right without overlap,
/// replaced by `rep`: what `str::replace` gives for a non-empty pattern.
pub open spec fn replace_all(s: Seq<char>, pat: Seq<char>, rep: Seq<char>) -> Seq<char>
    decreases s.len(),
{
    if s.len() == 0 || pat.len() == 0 {
        s
    } else if pat.is_prefix_of(s) {
        rep + replace_all(s.skip(pat.len() as int), pat, rep)
    } else {
        seq![s[0]] + replace_all(s.drop_first(), pat, rep)
    }
}

/// `s` without the copies of `c` at its start (`trim_start_matches`).
pub open spec fn trim_start_char(s: Seq<char>, c: char) -> Seq<char>
    decreases s.len(),
{
    if s.len() > 0 && s[0] == c {
        trim_start_char(s.drop_first(), c)
    } else {
        s
    }
}

/// `s` without the copies of `c` at its end (`trim_end_matches`).
pub open spec fn trim_end_char(s: Seq<char>, c: char) -> Seq<char>
    decreases s.len(),
{
    if s.len() > 0 && s.last() == c {
        trim_end_char(s.drop_last(), c)
    } else {
        s
    }
}

/// `s` without the copies of `c` at either end (`trim_matches`).
pub open spec fn trim_char(s: Seq<char>, c: char) -> Seq<char> {
    trim_end_char(trim_start_char(s, c), c)
}

/// `String::push`.
#[verifier::external_body]
pub(crate) fn push_char(s: &mut String, c: char)
    ensures
        final(s)@ == old(s)@.push(c),
{
    s.push(c);
}

/// The characters of `s`.
pub fn chars_of(s: &str) -> (r: Vec<char>)
    ensures
        r@ == s@,
{
    let n = s.unicode_len();
    let mut out: Vec<char> = Vec::new();
    let mut i: usize = 0;
    while i < n
        invariant
            n == s@.len(),
            0 <= i <= n,
            out@ == s@.take(i as int),
        decreases n - i,
    {
        let c = s.get_char(i);
        out.push(c);
        i += 1;
        assert(out@ =~= s@.take(i as int));
    }
    assert(s@.take(n as int) =~= s@);
    out
}

/// The string made of the characters `cs`.
pub fn string_of(cs: &Vec<char>) -> (r: String)
    ensures
        r@ == cs@,
{
    let mut out = String::new();
    let mut i: usize = 0;
    while i < cs.len()
        invariant
            0 <= i <= cs.len(),
            out@ == cs@.take(i as int),
        decreases cs.len() - i,
    {
        push_char(&mut out, cs[i]);
        i += 1;
        assert(out@ =~= cs@.take(i as int));
    }
    assert(cs@.take(cs.len() as int) =~= cs@);
    out
}

/// Whether `pat` occurs in `s` at position `i`.
pub fn occurs_at(s: &Vec<char>, i: usize, pat: &Vec<char>) -> (r: bool)
    requires
        i <= s.len(),
    ensures
        r == pat@.is_prefix_of(s@.skip(i as int)),
{
    if pat.len() > s.len() - i {
        return false;
    }
    let mut k: usize = 0;
    while k < pat.len()
        invariant
            pat.len() <= s.len() - i,
            0 <= k <= pat.len(),
            forall|t: int| 0 <= t < k ==> pat@[t] == s@[i + t],
        decreases pat.len() - k,
    {
        if pat[k] != s[i + k] {
            assert(pat@[k as int] != s@.skip(i as int).subrange(0, pat.len() as int)[k as int]);
            return false;
        }
        k += 1;
    }
    assert(pat@ =~= s@.skip(i as int).subrange(0, pat.len() as int));
    true
}

/// `s` with `pat` replaced by `rep` everywhere, as `str::replace` does.
pub fn replace_chars(s: &Vec<char>, pat: &Vec<char>, rep: &Vec<char>) -> (r: Vec<char>)
    requires
        pat.len() > 0,
    ensures
        r@ == replace_all(s@, pat@, rep@),
{
    let mut out: Vec<char> = Vec::new();
    let mut i: usize = 0;
    assert(s@.skip(0) =~= s@);
    while i < s.len()
        invariant
            pat.len() > 0,
            0 <= i <= s.len(),
            out@ + replace_all(s@.skip(i as int), pat@, rep@) == replace_all(s@, pat@, rep@),
        decreases s.len() - i,
    {
        let ghost rest = s@.skip(i as int);
        if occurs_at(s, i, pat) {
            let mut k: usize = 0;
            let ghost before = out@;
            while k < rep.len()
                invariant
                    0 <= k <= rep.len(),
                    out@ == before + rep@.take(k as int),
                decreases rep.len() - k,
            {
                out.push(rep[k]);
                k += 1;
                assert(out@ =~= before + rep@.take(k as int));
            }
            assert(rep@.take(rep.len() as int) =~= rep@);
            assert(rest.skip(pat.len() as int) =~= s@.skip(i + pat.len()));
            assert(before + (rep@ + replace_all(rest.skip(pat.len() as int), pat@, rep@)) =~= (
            before + rep@) + replace_all(rest.skip(pat.len() as int), pat@, rep@));
            i = i + pat.len();
        } else {
            let ghost before = out@;
            out.push(s[i]);
            assert(rest.drop_first() =~= s@.skip(i + 1));
            assert(rest[0] == s@[i as int]);
            assert(before + (seq![rest[0]] + replace_all(rest.drop_first(), pat@, rep@)) =~= (
            before.push(s@[i as int])) + replace_all(rest.drop_first(), pat@, rep@));
            i = i + 1;
        }
    }
    assert(s@.skip(s.len() as int) =~= Seq::<char>::empty());
    assert(out@ + Seq::<char>::empty() =~= out@);
    out
}

/// `s` without the copies of `c` at its start.
pub fn trim_start_chars(s: &Vec<char>, c: char) -> (r: Vec<char>)
    ensures
        r@ == trim_start_char(s@, c),
{
    let mut i: usize = 0;
    assert(s@.skip(0) =~= s@);
    while i < s.len() && s[i] == c
        invariant
            0 <= i <= s.len(),
            trim_start_char(s@.skip(i as int), c) == trim_start_char(s@, c),
        decreases s.len() - i,
    {
        assert(s@.skip(i as int).drop_first() =~= s@.skip(i + 1));
        i += 1;
    }
    let mut out: Vec<char> = Vec::new();
    let mut k: usize = i;
    while k < s.len()
        invariant
            i <= k <= s.len(),
            out@ == s@.subrange(i as int, k as int),
        decreases s.len() - k,
    {
        out.push(s[k]);
        k += 1;
        assert(out@ =~= s@.subrange(i as int, k as int));
    }
    assert(out@ =~= s@.skip(i as int));
    out
}

/// `s` without the copies of `c` at its end.
pub fn trim_end_chars(s: &Vec<char>, c: char) -> (r: Vec<char>)
    ensures
        r@ == trim_end_char(s@, c),
{
    let mut j: usize = s.len();
    assert(s@.take(s.len() as int) =~= s@);
    while j > 0 && s[j - 1] == c
        invariant
            0 <= j <= s.len(),
            trim_end_char(s@.take(j as int), c) == trim_end_char(s@, c),
        decreases j,
    {
        assert(s@.take(j as int).drop_last() =~= s@.take(j - 1));
        j -= 1;
    }
    let mut out: Vec<char> = Vec::new();
    let mut k: usize = 0;
    while k < j
        invariant
            0 <= k <= j <= s.len(),
            out@ == s@.take(k as int),
        decreases j - k,
    {
        out.push(s[k]);
        k += 1;
        assert(out@ =~= s@.take(k as int));
    }
    out
}

} // verus!

verus! {

/// Where `pat` occurs nowhere in `s`, replacing it changes nothing.
pub proof fn lemma_replace_absent(s: Seq<char>, pat: Seq<char>, rep: Seq<char>)
    requires
        pat.len() > 0,
        forall|i: int| 0 <= i < s.len() ==> !pat.is_prefix_of(#[trigger] s.skip(i)),
    ensures
        replace_all(s, pat, rep) == s,
    decreases s.len(),
{
    if s.len() > 0 {
        assert(s.skip(0) =~= s);
        let t = s.drop_first();
        assert forall|i: int| 0 <= i < t.len() implies !pat.is_prefix_of(#[trigger] t.skip(i)) by {
            assert(t.skip(i) =~= s.skip(i + 1));
        }
        lemma_replace_absent(t, pat, rep);
        assert(seq![s[0]] + t =~= s);
    }
}

/// Replacing in `a + b` replaces in `a` and in `b` apart, when no occurrence
/// of `pat` starts in `a` and ends in `b`.
pub proof fn lemma_replace_concat(a: Seq<char>, b: Seq<char>, pat: Seq<char>, rep: Seq<char>)
    requires
        pat.len() > 0,
        forall|i: int|
            0 <= i < a.len() < i + pat.len() ==> !pat.is_prefix_of(#[trigger] (a + b).skip(i)),
    ensures
        replace_all(a + b, pat, rep) == replace_all(a, pat, rep) + replace_all(b, pat, rep),
    decreases a.len(),
{
    let s = a + b;
    if a.len() == 0 {
        assert(s =~= b);
        assert(replace_all(a, pat, rep) =~= Seq::<char>::empty());
        assert(Seq::<char>::empty() + replace_all(b, pat, rep) =~= replace_all(b, pat, rep));
    } else if pat.is_prefix_of(s) {
        let n = pat.len() as int;
        assert(s.skip(0) =~= s);
        assert(n <= a.len());
        assert(s.subrange(0, n) =~= a.subrange(0, n));
        assert(pat.is_prefix_of(a));
        let a2 = a.skip(n);
        assert(s.skip(n) =~= a2 + b);
        assert forall|i: int| 0 <= i < a2.len() < i + pat.len() implies !pat.is_prefix_of(
            #[trigger] (a2 + b).skip(i),
        ) by {
            assert((a2 + b).skip(i) =~= s.skip(i + n));
        }
        lemma_replace_concat(a2, b, pat, rep);
        assert(rep + (replace_all(a2, pat, rep) + replace_all(b, pat, rep)) =~= (rep
            + replace_all(a2, pat, rep)) + replace_all(b, pat, rep));
    } else {
        assert(!pat.is_prefix_of(a)) by {
            if pat.is_prefix_of(a) {
                assert(s.subrange(0, pat.len() as int) =~= a.subrange(0, pat.len() as int));
            }
        }
        let a2 = a.drop_first();
        assert(s.drop_first() =~= a2 + b);
        assert forall|i: int| 0 <= i < a2.len() < i + pat.len() implies !pat.is_prefix_of(
            #[trigger] (a2 + b).skip(i),
        ) by {
            assert((a2 + b).skip(i) =~= s.skip(i + 1));
        }
        lemma_replace_concat(a2, b, pat, rep);
        assert(s[0] == a[0]);
        assert(seq![a[0]] + (replace_all(a2, pat, rep) + replace_all(b, pat, rep)) =~= (seq![
            a[0],
        ] + replace_all(a2, pat, rep)) + replace_all(b, pat, rep));
    }
}

} // verus!

verus! {

/// Where the first character of `pat` is nowhere in `s`, replacing `pat`
/// changes nothing.
pub proof fn lemma_first_absent(s: Seq<char>, pat: Seq<char>, rep: Seq<char>)
    requires
        pat.len() > 0,
        forall|i: int| 0 <= i < s.len() ==> s[i] != pat[0],
    ensures
        replace_all(s, pat, rep) == s,
{
    assert forall|i: int| 0 <= i < s.len() implies !pat.is_prefix_of(#[trigger] s.skip(i)) by {
        if pat.is_prefix_of(s.skip(i)) {
            assert(s.skip(i).subrange(0, pat.len() as int)[0] == s[i]);
        }
    }
    lemma_replace_absent(s, pat, rep);
}

/// Replacing in `a + b` replaces in `a` and in `b` apart, for a pattern of one
/// character, or of two that the seam between `a` and `b` does not spell.
pub proof fn lemma_replace_split(a: Seq<char>, b: Seq<char>, pat: Seq<char>, rep: Seq<char>)
    requires
        pat.len() == 1 || (pat.len() == 2 && (a.len() == 0 || b.len() == 0 || a.last() != pat[0]
            || b[0] != pat[1])),
    ensures
        replace_all(a + b, pat, rep) == replace_all(a, pat, rep) + replace_all(b, pat, rep),
{
    assert forall|i: int|
        0 <= i < a.len() < i + pat.len() implies !pat.is_prefix_of(#[trigger] (a + b).skip(i)) by {
        if pat.is_prefix_of((a + b).skip(i)) {
            assert(i == a.len() - 1);
            assert((a + b).skip(i).subrange(0, 2)[0] == a.last());
            assert((a + b).skip(i).subrange(0, 2)[1] == b[0]);
        }
    }
    lemma_replace_concat(a, b, pat, rep);
}

} // verus!

verus! {

/// The pattern alone is replaced by the replacement.
pub proof fn lemma_replace_whole(pat: Seq<char>, rep: Seq<char>)
    requires
        pat.len() > 0,
    ensures
        replace_all(pat, pat, rep) == rep,
{
    assert(pat.subrange(0, pat.len() as int) =~= pat);
    assert(pat.is_prefix_of(pat));
    let rest = pat.skip(pat.len() as int);
    assert(rest =~= Seq::<char>::empty());
    assert(replace_all(rest, pat, rep) == rest);
    assert(rep + rest =~= rep);
}

} // verus!

verus! {

/// A text shorter than the pattern is left as it is.
pub proof fn lemma_replace_shorter(s: Seq<char>, pat: Seq<char>, rep: Seq<char>)
    requires
        s.len() < pat.len(),
    ensures
        replace_all(s, pat, rep) == s,
{
    lemma_replace_absent(s, pat, rep);
}

} // verus!
