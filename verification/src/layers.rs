use vstd::prelude::*;
use vstd::set_lib::{set_int_range, lemma_int_range, lemma_map_size, lemma_len_subset};
use vstd::string::StringExecFns;
use crate::text::{decimal, digit_char, decimal_string};

verus! {

/// `base`, a space and the decimal representation of `n`: "arm 2", "arm 3", ...
pub open spec fn numbered_name(base: Seq<char>, n: nat) -> Seq<char> {
    base + " "@ + decimal(n)
}

/// The views of `names`.
pub open spec fn views(names: Seq<String>) -> Seq<Seq<char>> {
    names.map_values(|s: String| s@)
}

/// `r` is the layer name chosen for a new layer of part `base` among the names `existing`:
/// `base` itself when free, else the first of "base 2", "base 3", ... that is free.
pub open spec fn is_unique_layer_name(existing: Seq<Seq<char>>, base: Seq<char>, r: Seq<char>) -> bool {
    if !existing.contains(base) {
        r == base
    } else {
        exists|n: nat| {
            &&& n >= 2
            &&& r == numbered_name(base, n)
            &&& !existing.contains(r)
            &&& forall|m: nat| 2 <= m < n ==> existing.contains(#[trigger] numbered_name(base, m))
        }
    }
}

proof fn lemma_decimal_len(n: nat)
    ensures
        decimal(n).len() >= 1,
        n >= 10 ==> decimal(n).len() >= 2,
    decreases n,
{
    if n >= 10 {
        lemma_decimal_len(n / 10);
    }
}

/// Different numbers have different decimal representations.
pub proof fn lemma_decimal_injective(n: nat, m: nat)
    requires
        decimal(n) == decimal(m),
    ensures
        n == m,
    decreases n,
{
    lemma_decimal_len(n);
    lemma_decimal_len(m);
    if n >= 10 && m >= 10 {
        let dn = decimal(n);
        assert(dn.drop_last() =~= decimal(n / 10));
        assert(decimal(m).drop_last() =~= decimal(m / 10));
        assert(digit_char(n % 10) == dn.last());
        assert(digit_char(m % 10) == decimal(m).last());
        lemma_decimal_injective(n / 10, m / 10);
    } else if n < 10 && m < 10 {
        assert(decimal(n)[0] == digit_char(n));
        assert(decimal(m)[0] == digit_char(m));
    }
}

/// Different numbers give different numbered names.
proof fn lemma_numbered_injective(base: Seq<char>, n: nat, m: nat)
    requires
        numbered_name(base, n) == numbered_name(base, m),
    ensures
        n == m,
{
    reveal_strlit(" ");
    let k: int = base.len() as int + 1;
    assert(numbered_name(base, n).skip(k) =~= decimal(n));
    assert(numbered_name(base, m).skip(k) =~= decimal(m));
    lemma_decimal_injective(n, m);
}

/// When "base 2" ... "base (n-1)" all occur in `existing`, there are at most as many of them
/// as there are names.
proof fn lemma_names_bound(existing: Seq<Seq<char>>, base: Seq<char>, n: nat)
    requires
        n >= 2,
        forall|m: nat| 2 <= m < n ==> existing.contains(#[trigger] numbered_name(base, m)),
    ensures
        n - 2 <= existing.len(),
{
    let x = set_int_range(2, n as int);
    lemma_int_range(2, n as int);
    let f = |m: int| numbered_name(base, m as nat);
    let y = x.map(f);
    assert forall|a: int, b: int| x.contains(a) && x.contains(b) && #[trigger] f(a) == #[trigger] f(b) implies a == b by {
        lemma_numbered_injective(base, a as nat, b as nat);
    }
    lemma_map_size(x, y, f);
    assert forall|s: Seq<char>| y.contains(s) implies existing.to_set().contains(s) by {
        let a = choose|a: int| x.contains(a) && f(a) == s;
        assert(existing.contains(numbered_name(base, a as nat)));
    }
    existing.lemma_cardinality_of_set();
    lemma_len_subset(y, existing.to_set());
}

/// Whether `names` holds `s`.
pub fn contains_name(names: &Vec<String>, s: &String) -> (r: bool)
    ensures
        r == views(names@).contains(s@),
{
    let mut i: usize = 0;
    while i < names.len()
        invariant
            i <= names.len(),
            forall|j: int| 0 <= j < i ==> names@[j]@ != s@,
        decreases names.len() - i,
    {
        if names[i] == *s {
            assert(views(names@)[i as int] == s@);
            return true;
        }
        i = i + 1;
    }
    assert forall|j: int| 0 <= j < names.len() implies views(names@)[j] != s@ by {
        assert(views(names@)[j] == names@[j]@);
    }
    false
}

/// The name for a new layer of part `base`, unique among `existing`: `base` itself when free,
/// else the first of "base 2", "base 3", ... that is free.
pub fn unique_layer_name(existing: &Vec<String>, base: &str) -> (r: String)
    ensures
        is_unique_layer_name(views(existing@), base@, r@),
{
    let base_s = base.to_owned();
    if !contains_name(existing, &base_s) {
        return base_s;
    }
    let ghost names = views(existing@);
    let mut n: u128 = 2;
    loop
        invariant
            2 <= n <= existing.len() + 2,
            names == views(existing@),
            names.contains(base@),
            forall|m: nat| 2 <= m < n ==> names.contains(#[trigger] numbered_name(base@, m)),
        decreases existing.len() + 2 - n,
    {
        let mut cand = base.to_owned();
        cand.append(" ");
        let digits = decimal_string(n);
        cand.append(digits.as_str());
        proof { reveal_strlit(" "); }
        assert(cand@ == numbered_name(base@, n as nat));
        if !contains_name(existing, &cand) {
            return cand;
        }
        proof {
            assert forall|m: nat| 2 <= m < n + 1 implies names.contains(#[trigger] numbered_name(base@, m)) by {}
            lemma_names_bound(names, base@, (n + 1) as nat);
        }
        n = n + 1;
    }
}

} // verus!
