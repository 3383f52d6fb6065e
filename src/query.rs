use vstd::prelude::*;

verus! {

/// The pieces of `s` between occurrences of `sep`; always at least one piece.
pub open spec fn split_on(s: Seq<char>, sep: char) -> Seq<Seq<char>>
    decreases s.len(),
{
    if s.len() == 0 {
        seq![Seq::<char>::empty()]
    } else if s[0] == sep {
        seq![Seq::<char>::empty()] + split_on(s.subrange(1, s.len() as int), sep)
    } else {
        let rest = split_on(s.subrange(1, s.len() as int), sep);
        rest.update(0, seq![s[0]] + rest[0])
    }
}

pub open spec fn free_of(s: Seq<char>, c: char) -> bool {
    forall|i: int| 0 <= i < s.len() ==> s[i] != c
}

/// The name of a `name=value` query parameter: what precedes the first `=`.
pub open spec fn param_key(seg: Seq<char>) -> Seq<char> {
    split_on(seg, '=')[0]
}

/// The value of a `name=value` query parameter: what follows the first `=`.
pub open spec fn param_value(seg: Seq<char>) -> Seq<char> {
    seg.subrange(param_key(seg).len() + 1int, seg.len() as int)
}

/// The `(name, value)` pairs of a query string, in order.
pub open spec fn query_pairs(q: Seq<char>) -> Seq<(Seq<char>, Seq<char>)> {
    split_on(q, '&').map_values(|seg: Seq<char>| (param_key(seg), param_value(seg)))
}

pub proof fn lemma_split_nonempty(s: Seq<char>, sep: char)
    ensures
        split_on(s, sep).len() >= 1,
    decreases s.len(),
{
    if s.len() > 0 {
        lemma_split_nonempty(s.subrange(1, s.len() as int), sep);
    }
}

/// A prefix free of the separator joins the first piece of what follows it.
pub proof fn lemma_split_prefix(a: Seq<char>, b: Seq<char>, sep: char)
    requires
        free_of(a, sep),
    ensures
        split_on(a + b, sep) == split_on(b, sep).update(0, a + split_on(b, sep)[0]),
    decreases a.len(),
{
    lemma_split_nonempty(b, sep);
    if a.len() == 0 {
        assert(a + b =~= b);
        assert(split_on(b, sep).update(0, a + split_on(b, sep)[0]) =~= split_on(b, sep));
    } else {
        let t = a.subrange(1, a.len() as int);
        assert((a + b).subrange(1, (a + b).len() as int) =~= t + b);
        lemma_split_prefix(t, b, sep);
        let sb = split_on(b, sep);
        assert(seq![a[0]] + (t + sb[0]) =~= a + sb[0]);
        assert(split_on(a + b, sep) =~= sb.update(0, a + sb[0]));
    }
}

pub proof fn lemma_split_free(a: Seq<char>, sep: char)
    requires
        free_of(a, sep),
    ensures
        split_on(a, sep) == seq![a],
{
    lemma_split_prefix(a, Seq::empty(), sep);
    assert(a + Seq::<char>::empty() =~= a);
    assert(seq![Seq::<char>::empty()].update(0, a + Seq::<char>::empty()) =~= seq![a]);
}

/// Splitting at a separator that follows a separator-free prefix.
pub proof fn lemma_split_at(a: Seq<char>, b: Seq<char>, sep: char)
    requires
        free_of(a, sep),
    ensures
        split_on(a + seq![sep] + b, sep) == seq![a] + split_on(b, sep),
{
    let c = seq![sep] + b;
    assert(a + seq![sep] + b =~= a + c);
    lemma_split_prefix(a, c, sep);
    assert(c.subrange(1, c.len() as int) =~= b);
    assert(split_on(c, sep) == seq![Seq::<char>::empty()] + split_on(b, sep));
    assert(a + Seq::<char>::empty() =~= a);
    assert(split_on(c, sep).update(0, a + split_on(c, sep)[0]) =~= seq![a] + split_on(b, sep));
}

/// A `name=value` parameter with a name free of `=` reads back as that pair.
pub proof fn lemma_param(key: Seq<char>, value: Seq<char>)
    requires
        free_of(key, '='),
    ensures
        param_key(key + seq!['='] + value) == key,
        param_value(key + seq!['='] + value) == value,
{
    lemma_split_at(key, value, '=');
    let seg = key + seq!['='] + value;
    assert(seg.subrange(key.len() + 1int, seg.len() as int) =~= value);
}

} // verus!
