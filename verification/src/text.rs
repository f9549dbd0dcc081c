use vstd::prelude::*;

verus! {

// ---------------------------------------------------------------------------
// Specifications over character sequences
// ---------------------------------------------------------------------------

/// The character sequences of a sequence of texts.
pub open spec fn views_of(v: Seq<String>) -> Seq<Seq<char>> {
    v.map_values(|s: String| s@)
}

/// The view of an optional text.
pub open spec fn text_view(s: Option<String>) -> Option<Seq<char>> {
    match s {
        Some(t) => Some(t@),
        None => None,
    }
}

/// The field named `name` when `given` holds a value, nothing otherwise.
pub open spec fn field_if<T>(given: Option<T>, name: Seq<char>) -> Seq<Seq<char>> {
    if given is Some {
        seq![name]
    } else {
        Seq::empty()
    }
}

/// `pre` is a prefix of `s`.
pub open spec fn has_prefix(s: Seq<char>, pre: Seq<char>) -> bool {
    pre.len() <= s.len() && s.take(pre.len() as int) == pre
}

/// `needle` occurs in `hay` at position `i`.
pub open spec fn occurs_at(hay: Seq<char>, needle: Seq<char>, i: int) -> bool {
    0 <= i && i + needle.len() <= hay.len() && hay.subrange(i, i + needle.len()) == needle
}

/// `needle` occurs somewhere in `hay` (the empty sequence occurs everywhere).
pub open spec fn has_infix(hay: Seq<char>, needle: Seq<char>) -> bool {
    exists|i: int| occurs_at(hay, needle, i)
}

/// Every non-overlapping occurrence of `pat`, scanned left to right, replaced by `rep`.
pub open spec fn replace_all(s: Seq<char>, pat: Seq<char>, rep: Seq<char>) -> Seq<char>
    decreases s.len(),
{
    if s.len() == 0 {
        Seq::empty()
    } else if pat.len() > 0 && has_prefix(s, pat) {
        rep + replace_all(s.skip(pat.len() as int), pat, rep)
    } else {
        seq![s[0]] + replace_all(s.skip(1), pat, rep)
    }
}

/// `s` with every occurrence of `c` taken out.
pub open spec fn remove_char(s: Seq<char>, c: char) -> Seq<char>
    decreases s.len(),
{
    if s.len() == 0 {
        Seq::empty()
    } else if s[0] == c {
        remove_char(s.skip(1), c)
    } else {
        seq![s[0]] + remove_char(s.skip(1), c)
    }
}

// ---------------------------------------------------------------------------
// Conversions between strings and character vectors
// ---------------------------------------------------------------------------

/// Appends one character to a `String` (std's `String::push`).
#[verifier::external_body]
fn push_char(s: &mut String, c: char)
    ensures
        final(s)@ == old(s)@.push(c),
{
    s.push(c);
}

/// The characters of `s`, in order.
pub fn chars_of(s: &str) -> (out: Vec<char>)
    ensures
        out@ == s@,
{
    let mut out: Vec<char> = Vec::new();
    for c in it: s.chars()
        invariant
            out@ == it.seq().take(it.index() as int),
            it.seq() == s@,
    {
        out.push(c);
    }
    out
}

/// A `String` holding the characters of `v`, in order.
pub fn string_from_chars(v: &Vec<char>) -> (out: String)
    ensures
        out@ == v@,
{
    let mut out = String::new();
    let mut i: usize = 0;
    while i < v.len()
        invariant
            i <= v.len(),
            out@ == v@.take(i as int),
        decreases v.len() - i,
    {
        push_char(&mut out, v[i]);
        assert(v@.take(i as int).push(v@[i as int]) =~= v@.take(i + 1));
        i = i + 1;
    }
    assert(v@.take(v.len() as int) =~= v@);
    out
}

/// The concatenation of `a` and `b`.
pub fn concat_str(a: &str, b: &str) -> (out: String)
    ensures
        out@ == a@ + b@,
{
    let mut va = chars_of(a);
    let vb = chars_of(b);
    let mut i: usize = 0;
    while i < vb.len()
        invariant
            i <= vb.len(),
            vb@ == b@,
            va@ == a@ + b@.take(i as int),
        decreases vb.len() - i,
    {
        va.push(vb[i]);
        assert(a@ + b@.take(i as int).push(b@[i as int]) =~= a@ + b@.take(i + 1));
        i = i + 1;
    }
    assert(b@.take(b@.len() as int) =~= b@);
    string_from_chars(&va)
}

/// Whether `a` and `b` hold the same characters.
pub fn equal_str(a: &str, b: &str) -> (r: bool)
    ensures
        r == (a@ == b@),
{
    let va = chars_of(a);
    let vb = chars_of(b);
    if va.len() != vb.len() {
        return false;
    }
    let mut i: usize = 0;
    while i < va.len()
        invariant
            va@ == a@,
            vb@ == b@,
            va.len() == vb.len(),
            i <= va.len(),
            forall|j: int| 0 <= j < i ==> va@[j] == vb@[j],
        decreases va.len() - i,
    {
        if va[i] != vb[i] {
            assert(a@[i as int] != b@[i as int]);
            return false;
        }
        i = i + 1;
    }
    assert(va@ =~= vb@);
    true
}

// ---------------------------------------------------------------------------
// Searching
// ---------------------------------------------------------------------------

/// Whether `pat` occurs in `v` at position `i`.
pub fn matches_at(v: &Vec<char>, i: usize, pat: &Vec<char>) -> (r: bool)
    requires
        i <= v.len(),
    ensures
        r == occurs_at(v@, pat@, i as int),
{
    if pat.len() > v.len() - i {
        return false;
    }
    let mut k: usize = 0;
    while k < pat.len()
        invariant
            i + pat.len() <= v.len(),
            k <= pat.len(),
            forall|j: int| 0 <= j < k ==> v@[i + j] == pat@[j],
        decreases pat.len() - k,
    {
        if v[i + k] != pat[k] {
            assert(v@.subrange(i as int, i + pat.len())[k as int] != pat@[k as int]);
            return false;
        }
        k = k + 1;
    }
    assert(v@.subrange(i as int, i + pat.len()) =~= pat@);
    true
}

/// Whether `s` begins with `pre`.
pub fn starts_with_str(s: &str, pre: &str) -> (r: bool)
    ensures
        r == has_prefix(s@, pre@),
{
    let v = chars_of(s);
    let p = chars_of(pre);
    let r = matches_at(&v, 0, &p);
    proof {
        if r {
            assert(v@.take(p@.len() as int) =~= v@.subrange(0, p@.len() as int));
        } else if p@.len() <= v@.len() {
            assert(v@.take(p@.len() as int) =~= v@.subrange(0, p@.len() as int));
        }
    }
    r
}

/// Whether `needle` occurs in `hay` (std's `str::contains` with a string pattern).
pub fn contains_str(hay: &str, needle: &str) -> (r: bool)
    ensures
        r == has_infix(hay@, needle@),
{
    let v = chars_of(hay);
    let p = chars_of(needle);
    if p.len() > v.len() {
        proof {
            assert forall|i: int| !occurs_at(hay@, needle@, i) by {}
        }
        return false;
    }
    if p.len() == 0 {
        assert(hay@.subrange(0, 0) =~= needle@);
        assert(occurs_at(hay@, needle@, 0));
        return true;
    }
    let mut i: usize = 0;
    while p.len() <= v.len() - i
        invariant
            0 < p.len() <= v.len(),
            i <= v.len(),
            v@ == hay@,
            p@ == needle@,
            forall|j: int| 0 <= j < i ==> !occurs_at(hay@, needle@, j),
        decreases v.len() - i,
    {
        if matches_at(&v, i, &p) {
            return true;
        }
        i = i + 1;
    }
    proof {
        assert forall|j: int| !occurs_at(hay@, needle@, j) by {
            if 0 <= j < i {
            } else {
            }
        }
    }
    false
}

// ---------------------------------------------------------------------------
// Rewriting
// ---------------------------------------------------------------------------

proof fn lemma_replace_step(s: Seq<char>, i: int, pat: Seq<char>, rep: Seq<char>)
    requires
        0 <= i < s.len(),
    ensures
        pat.len() > 0 && occurs_at(s, pat, i) ==> replace_all(s.skip(i), pat, rep) == rep
            + replace_all(s.skip(i + pat.len()), pat, rep),
        !(pat.len() > 0 && occurs_at(s, pat, i)) ==> replace_all(s.skip(i), pat, rep) == seq![
            s[i],
        ] + replace_all(s.skip(i + 1), pat, rep),
{
    let t = s.skip(i);
    assert(t.len() > 0);
    if pat.len() <= t.len() {
        assert(t.take(pat.len() as int) =~= s.subrange(i, i + pat.len()));
    }
    if pat.len() > 0 && occurs_at(s, pat, i) {
        assert(t.skip(pat.len() as int) =~= s.skip(i + pat.len()));
    } else {
        assert(t.skip(1) =~= s.skip(i + 1));
    }
}

/// `v` with every non-overlapping occurrence of `pat` (scanned left to right) replaced by
/// `rep` (std's `str::replace` with a non-empty pattern).
pub fn replace_all_chars(v: &Vec<char>, pat: &Vec<char>, rep: &Vec<char>) -> (out: Vec<char>)
    requires
        pat.len() > 0,
    ensures
        out@ == replace_all(v@, pat@, rep@),
{
    let mut out: Vec<char> = Vec::new();
    let mut i: usize = 0;
    assert(v@.skip(0) =~= v@);
    assert(out@ + replace_all(v@, pat@, rep@) =~= replace_all(v@, pat@, rep@));
    while i < v.len()
        invariant
            pat.len() > 0,
            i <= v.len(),
            out@ + replace_all(v@.skip(i as int), pat@, rep@) == replace_all(v@, pat@, rep@),
        decreases v.len() - i,
    {
        proof {
            lemma_replace_step(v@, i as int, pat@, rep@);
        }
        if matches_at(v, i, pat) {
            let ghost before = out@;
            let mut k: usize = 0;
            while k < rep.len()
                invariant
                    k <= rep.len(),
                    out@ == before + rep@.take(k as int),
                decreases rep.len() - k,
            {
                out.push(rep[k]);
                assert(before + rep@.take(k as int).push(rep@[k as int]) =~= before + rep@.take(
                    k + 1,
                ));
                k = k + 1;
            }
            assert(rep@.take(rep.len() as int) =~= rep@);
            assert(before + rep@ + replace_all(v@.skip(i + pat.len()), pat@, rep@) =~= before + (
            rep@ + replace_all(v@.skip(i + pat.len()), pat@, rep@)));
            i = i + pat.len();
        } else {
            let ghost before = out@;
            out.push(v[i]);
            assert(before.push(v@[i as int]) + replace_all(v@.skip(i + 1), pat@, rep@) =~= before
                + (seq![v@[i as int]] + replace_all(v@.skip(i + 1), pat@, rep@)));
            i = i + 1;
        }
    }
    assert(v@.skip(v.len() as int) =~= Seq::<char>::empty());
    assert(out@ + Seq::<char>::empty() =~= out@);
    out
}

proof fn lemma_remove_step(s: Seq<char>, i: int, c: char)
    requires
        0 <= i < s.len(),
    ensures
        remove_char(s.skip(i), c) == (if s[i] == c {
            Seq::empty()
        } else {
            seq![s[i]]
        }) + remove_char(s.skip(i + 1), c),
{
    let t = s.skip(i);
    assert(t.skip(1) =~= s.skip(i + 1));
    if s[i] == c {
        assert(Seq::<char>::empty() + remove_char(s.skip(i + 1), c) =~= remove_char(
            s.skip(i + 1),
            c,
        ));
    }
}

/// `v` with every occurrence of `c` taken out.
pub fn remove_char_chars(v: &Vec<char>, c: char) -> (out: Vec<char>)
    ensures
        out@ == remove_char(v@, c),
{
    let mut out: Vec<char> = Vec::new();
    let mut i: usize = 0;
    assert(v@.skip(0) =~= v@);
    assert(out@ + remove_char(v@, c) =~= remove_char(v@, c));
    while i < v.len()
        invariant
            i <= v.len(),
            out@ + remove_char(v@.skip(i as int), c) == remove_char(v@, c),
        decreases v.len() - i,
    {
        proof {
            lemma_remove_step(v@, i as int, c);
        }
        let ghost before = out@;
        if v[i] != c {
            out.push(v[i]);
            assert(before.push(v@[i as int]) + remove_char(v@.skip(i + 1), c) =~= before + (seq![
                v@[i as int],
            ] + remove_char(v@.skip(i + 1), c)));
        } else {
            assert(before + remove_char(v@.skip(i + 1), c) =~= before + (Seq::<char>::empty()
                + remove_char(v@.skip(i + 1), c)));
        }
        i = i + 1;
    }
    assert(v@.skip(v.len() as int) =~= Seq::<char>::empty());
    assert(out@ + Seq::<char>::empty() =~= out@);
    out
}

/// No occurrence of `c` is left once it has been removed.
pub proof fn lemma_remove_char_absent(s: Seq<char>, c: char, d: char)
    ensures
        remove_char(s, c).contains(d) ==> d != c && s.contains(d),
    decreases s.len(),
{
    if s.len() > 0 {
        lemma_remove_char_absent(s.skip(1), c, d);
        if remove_char(s, c).contains(d) {
            let r = remove_char(s.skip(1), c);
            if s[0] != c {
                let k = choose|k: int| 0 <= k < remove_char(s, c).len() && remove_char(s, c)[k] == d;
                if k == 0 {
                    assert(s[0] == d);
                } else {
                    assert(r[k - 1] == d);
                    assert(r.contains(d));
                    let m = choose|m: int| 0 <= m < s.skip(1).len() && s.skip(1)[m] == d;
                    assert(s[m + 1] == d);
                }
            } else {
                assert(r.contains(d));
                let m = choose|m: int| 0 <= m < s.skip(1).len() && s.skip(1)[m] == d;
                assert(s[m + 1] == d);
            }
        }
    }
}

/// Removing a character that does not occur changes nothing.
pub proof fn lemma_remove_char_identity(s: Seq<char>, c: char)
    requires
        !s.contains(c),
    ensures
        remove_char(s, c) == s,
    decreases s.len(),
{
    if s.len() > 0 {
        assert(s[0] != c);
        assert forall|k: int| 0 <= k < s.skip(1).len() implies s.skip(1)[k] != c by {
            assert(s[k + 1] != c);
        }
        lemma_remove_char_identity(s.skip(1), c);
        assert(seq![s[0]] + s.skip(1) =~= s);
    }
}

/// The index of the first entry of `list` equal to `d`, if any.
pub fn index_of_text(list: &Vec<String>, d: &str) -> (r: Option<usize>)
    ensures
        r matches Some(k) ==> k < list.len() && list@[k as int]@ == d@ && forall|j: int|
            0 <= j < k ==> list@[j]@ != d@,
        r is None <==> !views_of(list@).contains(d@),
{
    let mut k: usize = 0;
    while k < list.len()
        invariant
            k <= list.len(),
            forall|j: int| 0 <= j < k ==> list@[j]@ != d@,
        decreases list.len() - k,
    {
        if equal_str(list[k].as_str(), d) {
            assert(views_of(list@)[k as int] == d@);
            return Some(k);
        }
        k = k + 1;
    }
    proof {
        if views_of(list@).contains(d@) {
            let j = choose|j: int| 0 <= j < views_of(list@).len() && views_of(list@)[j] == d@;
            assert(list@[j]@ == d@);
        }
    }
    None
}

} // verus!
