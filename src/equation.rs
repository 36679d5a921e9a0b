//! The equation record, its name rule, and the numbering of repeated names.
use vstd::prelude::*;
use crate::text::{decimal, decimal_string, digit_char, is_name_char, replace_disallowed, replace_disallowed_chars};

verus! {

/// The name given to an equation whose name is missing or sanitizes to nothing.
pub const FALLBACK_NAME: &'static str = "default_equation";

/// The text of the fallback name.
pub open spec fn fallback_name() -> Seq<char> {
    FALLBACK_NAME@
}

/// The filesystem-safe form of a raw name: disallowed characters become `_`,
/// and an empty result becomes the fallback name.
pub open spec fn sanitized(raw: Seq<char>) -> Seq<char> {
    if raw.len() == 0 {
        fallback_name()
    } else {
        replace_disallowed_chars(raw)
    }
}

/// How many times `x` occurs in `s`.
pub open spec fn count_of(s: Seq<Seq<char>>, x: Seq<char>) -> nat
    decreases s.len(),
{
    if s.len() == 0 {
        0
    } else {
        count_of(s.drop_last(), x) + if s.last() == x { 1nat } else { 0nat }
    }
}

/// The name given to the `i`-th entry of a batch of base names: the base
/// itself at its first occurrence, and `<base>_<k>` at its `k+1`-th.
pub open spec fn unique_name(bases: Seq<Seq<char>>, i: int) -> Seq<char> {
    let k = count_of(bases.take(i), bases[i]);
    if k == 0 {
        bases[i]
    } else {
        bases[i] + seq!['_'] + decimal(k)
    }
}

/// The text of each string of a sequence.
pub open spec fn views(v: Seq<String>) -> Seq<Seq<char>> {
    v.map_values(|s: String| s@)
}

/// The canonical record: whether to render it, its sanitized name, and its body.
#[derive(Debug, Clone)]
pub struct Equation {
    pub active: bool,
    pub name: String,
    pub body: String,
}

impl Equation {
    /// Every equation's name is non-empty and made of name characters only.
    pub open spec fn well_formed(&self) -> bool {
        name_is_safe(self.name@)
    }

    pub fn new(active: bool, name: &str, body: &str) -> (r: Equation)
        ensures
            r.active == active,
            r.name@ == sanitized(name@),
            r.body@ == body@,
            r.well_formed(),
    {
        let valid_name = Equation::sanitize_filename(name);
        Equation { active, name: valid_name, body: body.to_owned() }
    }

    fn sanitize_filename(name: &str) -> (r: String)
        ensures
            r@ == sanitized(name@),
            name_is_safe(r@),
    {
        proof {
            lemma_sanitized_is_safe(name@);
        }
        let replaced = replace_disallowed(name);
        if replaced.as_str().is_empty() {
            String::from_str(FALLBACK_NAME)
        } else {
            replaced
        }
    }
}

/// A name that is non-empty and made of name characters only.
pub open spec fn name_is_safe(s: Seq<char>) -> bool {
    s.len() > 0 && forall|i: int| 0 <= i < s.len() ==> crate::text::is_name_char(#[trigger] s[i])
}

/// Whatever the raw name, the sanitized name is non-empty and uses only
/// ASCII letters, digits, `_` and `.`; an empty raw name becomes the fallback name.
pub proof fn lemma_sanitized_is_safe(raw: Seq<char>)
    ensures
        name_is_safe(sanitized(raw)),
        raw.len() == 0 ==> sanitized(raw) == fallback_name(),
{
    reveal_strlit("default_equation");
    assert(fallback_name().len() > 0);
    assert forall|i: int| 0 <= i < fallback_name().len() implies crate::text::is_name_char(
        #[trigger] fallback_name()[i],
    ) by {
        reveal_strlit("default_equation");
    }
}

/// The names given to a batch of base names, in order: the first occurrence
/// of a base keeps it, later ones get `_1`, `_2`, ... counted per base.
pub fn assign_names(bases: &Vec<String>) -> (r: Vec<String>)
    ensures
        r.len() == bases.len(),
        forall|i: int| 0 <= i < r.len() ==> #[trigger] r[i]@ == unique_name(views(bases@), i),
{
    let ghost bs = views(bases@);
    let mut out: Vec<String> = Vec::new();
    for i in 0..bases.len()
        invariant
            bs == views(bases@),
            out.len() == i,
            forall|k: int| 0 <= k < i ==> #[trigger] out[k]@ == unique_name(bs, k),
    {
        let mut count: usize = 0;
        for j in 0..i
            invariant
                bs == views(bases@),
                i < bases.len(),
                count <= j,
                count == count_of(bs.take(j as int), bs[i as int]),
        {
            assert(bs.take(j + 1).drop_last() =~= bs.take(j as int));
            if bases[j] == bases[i] {
                count = count + 1;
            }
        }
        let mut name = bases[i].clone();
        if count > 0 {
            name.append("_");
            let digits = decimal_string(count);
            name.append(digits.as_str());
        }
        assert(name@ == unique_name(bs, i as int)) by {
            reveal_strlit("_");
        }
        out.push(name);
    }
    out
}

/// Equations built from parallel columns of flags, base names and bodies:
/// the `i`-th gets the `i`-th flag and body, and the sanitized form of the
/// name that `assign_names` gives the `i`-th base.
pub fn build_equations(actives: &Vec<bool>, bases: &Vec<String>, bodies: &Vec<String>) -> (r: Vec<
    Equation,
>)
    requires
        actives.len() == bases.len(),
        bodies.len() == bases.len(),
    ensures
        r.len() == bases.len(),
        forall|i: int|
            0 <= i < r.len() ==> {
                &&& (#[trigger] r[i]).active == actives[i]
                &&& r[i].name@ == sanitized(unique_name(views(bases@), i))
                &&& r[i].body@ == bodies[i]@
                &&& r[i].well_formed()
            },
{
    let names = assign_names(bases);
    let mut out: Vec<Equation> = Vec::new();
    for i in 0..names.len()
        invariant
            names.len() == bases.len(),
            actives.len() == bases.len(),
            bodies.len() == bases.len(),
            forall|k: int| 0 <= k < names.len() ==> #[trigger] names[k]@ == unique_name(views(bases@), k),
            out.len() == i,
            forall|k: int|
                0 <= k < i ==> {
                    &&& (#[trigger] out[k]).active == actives[k]
                    &&& out[k].name@ == sanitized(unique_name(views(bases@), k))
                    &&& out[k].body@ == bodies[k]@
                    &&& out[k].well_formed()
                },
    {
        out.push(Equation::new(actives[i], names[i].as_str(), bodies[i].as_str()));
    }
    out
}

proof fn lemma_decimal_nonempty(n: nat)
    ensures
        decimal(n).len() >= 1,
        n >= 10 ==> decimal(n).len() >= 2,
        forall|k: int| 0 <= k < decimal(n).len() ==> is_name_char(#[trigger] decimal(n)[k]),
    decreases n,
{
    if n >= 10 {
        lemma_decimal_nonempty(n / 10);
        let d = decimal(n / 10);
        assert forall|k: int| 0 <= k < decimal(n).len() implies is_name_char(
            #[trigger] decimal(n)[k],
        ) by {
            if k < d.len() {
                assert(decimal(n)[k] == d[k]);
            }
        }
    }
}

proof fn lemma_digit_injective(a: nat, b: nat)
    requires
        a < 10,
        b < 10,
        digit_char(a) == digit_char(b),
    ensures
        a == b,
{
}

proof fn lemma_decimal_injective(a: nat, b: nat)
    requires
        decimal(a) == decimal(b),
    ensures
        a == b,
    decreases a,
{
    lemma_decimal_nonempty(a);
    lemma_decimal_nonempty(b);
    if a >= 10 && b >= 10 {
        let da = decimal(a);
        assert(decimal(a / 10) =~= da.drop_last());
        assert(decimal(b / 10) =~= da.drop_last());
        assert(da.last() == digit_char(a % 10));
        assert(decimal(b).last() == digit_char(b % 10));
        lemma_digit_injective(a % 10, b % 10);
        lemma_decimal_injective(a / 10, b / 10);
    } else if a < 10 && b < 10 {
        assert(decimal(a) == seq![digit_char(a)]);
        assert(decimal(b) == seq![digit_char(b)]);
        assert(decimal(a)[0] == digit_char(a));
        assert(decimal(b)[0] == digit_char(b));
        lemma_digit_injective(a, b);
    }
}

proof fn lemma_count_grows(s: Seq<Seq<char>>, i: int, j: int)
    requires
        0 <= i < j <= s.len(),
    ensures
        count_of(s.take(j), s[i]) >= count_of(s.take(i), s[i]) + 1,
    decreases j - i,
{
    assert(s.take(j).drop_last() =~= s.take(j - 1));
    if j == i + 1 {
        assert(s.take(j).last() == s[i]);
    } else {
        lemma_count_grows(s, i, j - 1);
    }
}

proof fn lemma_sanitized_suffixed(base: Seq<char>, k: nat)
    ensures
        sanitized(base + seq!['_'] + decimal(k)) == replace_disallowed_chars(base) + seq!['_']
            + decimal(k),
{
    lemma_decimal_nonempty(k);
    let full = base + seq!['_'] + decimal(k);
    assert(replace_disallowed_chars(full) =~= replace_disallowed_chars(base) + seq!['_'] + decimal(
        k,
    )) by {
        assert forall|p: int| 0 <= p < full.len() implies #[trigger] replace_disallowed_chars(full)[p]
            == (replace_disallowed_chars(base) + seq!['_'] + decimal(k))[p] by {
            if p >= base.len() + 1 {
                assert(full[p] == decimal(k)[p - base.len() - 1]);
            }
        }
    }
}

/// Entries of a batch that share a base name get different names, both
/// before and after sanitizing: repeats are told apart by their suffixes.
pub proof fn lemma_repeated_bases_get_distinct_names(bases: Seq<Seq<char>>, i: int, j: int)
    requires
        0 <= i < j < bases.len(),
        bases[i] == bases[j],
    ensures
        unique_name(bases, i) != unique_name(bases, j),
        sanitized(unique_name(bases, i)) != sanitized(unique_name(bases, j)),
{
    let b = bases[i];
    let ki = count_of(bases.take(i), b);
    let kj = count_of(bases.take(j), b);
    lemma_count_grows(bases, i, j);
    lemma_decimal_nonempty(kj);
    lemma_sanitized_suffixed(b, kj);
    let nj = replace_disallowed_chars(b) + seq!['_'] + decimal(kj);
    if ki == 0 {
        assert(unique_name(bases, i).len() < unique_name(bases, j).len());
        if b.len() == 0 {
            reveal_strlit("default_equation");
            assert(nj[0] == '_');
            assert(fallback_name()[0] == 'd');
        } else {
            assert(sanitized(b).len() < nj.len());
        }
    } else {
        lemma_sanitized_suffixed(b, ki);
        let ni = replace_disallowed_chars(b) + seq!['_'] + decimal(ki);
        if ni == nj {
            let cut = b.len() + 1;
            assert(decimal(ki) =~= ni.subrange(cut as int, ni.len() as int));
            assert(decimal(kj) =~= nj.subrange(cut as int, nj.len() as int));
            lemma_decimal_injective(ki, kj);
        }
        if unique_name(bases, i) == unique_name(bases, j) {
            assert(sanitized(unique_name(bases, i)) == sanitized(unique_name(bases, j)));
        }
    }
}

} // verus!
