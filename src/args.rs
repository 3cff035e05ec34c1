use vstd::prelude::*;
use crate::model::MacroError;
use crate::text::{is_comma, is_ident, parses_as_ident, starts_with};

verus! {

/// Whether the tokens form `ident , ident , ...`, with an optional trailing comma.
pub open spec fn well_formed_args(ts: Seq<Seq<char>>) -> bool {
    forall|i: int|
        0 <= i < ts.len() ==> if i % 2 == 0 {
            parses_as_ident(#[trigger] ts[i])
        } else {
            ts[i] == seq![',']
        }
}

/// Whether every token at an odd position is a comma.
pub open spec fn commas_in_place(ts: Seq<Seq<char>>) -> bool {
    forall|i: int| 0 <= i < ts.len() && i % 2 == 1 ==> #[trigger] ts[i] == seq![',']
}

/// The identifiers of an argument list: the tokens at even positions.
pub open spec fn idents_of(ts: Seq<Seq<char>>) -> Seq<Seq<char>>
    decreases ts.len(),
{
    if ts.len() == 0 {
        Seq::empty()
    } else if (ts.len() - 1) % 2 == 0 {
        idents_of(ts.drop_last()).push(ts.last())
    } else {
        idents_of(ts.drop_last())
    }
}

/// The sequence with each later repetition of an element removed.
pub open spec fn dedup(s: Seq<Seq<char>>) -> Seq<Seq<char>>
    decreases s.len(),
{
    if s.len() == 0 {
        Seq::empty()
    } else {
        let d = dedup(s.drop_last());
        if d.contains(s.last()) {
            d
        } else {
            d.push(s.last())
        }
    }
}

/// Removing repetitions keeps exactly the elements and leaves none twice.
pub proof fn lemma_dedup(s: Seq<Seq<char>>)
    ensures
        forall|x: Seq<char>| dedup(s).contains(x) <==> s.contains(x),
        dedup(s).no_duplicates(),
    decreases s.len(),
{
    if s.len() > 0 {
        lemma_dedup(s.drop_last());
        let d = dedup(s.drop_last());
        assert forall|x: Seq<char>| s.contains(x) <==> (s.drop_last().contains(x) || x == s.last()) by {
            if s.contains(x) {
                let j = choose|j: int| 0 <= j < s.len() && s[j] == x;
                if j < s.len() - 1 {
                    assert(s.drop_last()[j] == x);
                }
            }
            if x == s.last() {
                assert(s[s.len() - 1] == x);
            }
            if s.drop_last().contains(x) {
                let j = choose|j: int| 0 <= j < s.len() - 1 && s.drop_last()[j] == x;
                assert(s[j] == x);
            }
        }
        if !d.contains(s.last()) {
            let e = d.push(s.last());
            assert forall|x: Seq<char>| e.contains(x) <==> (d.contains(x) || x == s.last()) by {
                if e.contains(x) {
                    let j = choose|j: int| 0 <= j < e.len() && e[j] == x;
                    if j < d.len() {
                        assert(d[j] == x);
                    }
                }
                if d.contains(x) {
                    let j = choose|j: int| 0 <= j < d.len() && d[j] == x;
                    assert(e[j] == x);
                }
                if x == s.last() {
                    assert(e[d.len() as int] == x);
                }
            }
        }
    }
}

/// Whether two texts are equal.
pub fn same_text(a: &str, b: &str) -> (r: bool)
    ensures
        r == (a@ == b@),
{
    if a.unicode_len() != b.unicode_len() {
        return false;
    }
    let r = starts_with(a, b);
    proof {
        if r {
            assert(a@ =~= b@);
        }
    }
    r
}

/// Whether one of the names is `s`.
pub fn contains_name(names: &Vec<String>, s: &str) -> (r: bool)
    ensures
        r == names@.map_values(|n: String| n@).contains(s@),
{
    let ghost vs = names@.map_values(|n: String| n@);
    let mut j: usize = 0;
    while j < names.len()
        invariant
            j <= names.len(),
            vs == names@.map_values(|n: String| n@),
            forall|k: int| 0 <= k < j ==> vs[k] != s@,
        decreases names.len() - j,
    {
        if same_text(names[j].as_str(), s) {
            assert(vs[j as int] == s@);
            return true;
        }
        j = j + 1;
    }
    false
}

/// Parses a directive's argument list, given as its tokens, into the distinct
/// identifiers it names, in order of first appearance. A list whose commas are
/// out of place is refused; so is one with a token that syn does not accept as an
/// identifier.
pub fn parse_args(tokens: &Vec<String>) -> (r: Result<Vec<String>, MacroError>)
    ensures
        ({
            let ts = tokens@.map_values(|t: String| t@);
            &&& !commas_in_place(ts) ==> r is Err
            &&& match r {
                Ok(names) => well_formed_args(ts) && names@.map_values(|n: String| n@) == dedup(
                    idents_of(ts),
                ),
                Err(e) => e is BadArguments && ts.len() > 0,
            }
        }),
{
    let ghost ts = tokens@.map_values(|t: String| t@);
    let mut names: Vec<String> = Vec::new();
    let mut i: usize = 0;
    while i < tokens.len()
        invariant
            i <= tokens.len(),
            ts == tokens@.map_values(|t: String| t@),
            well_formed_args(ts.take(i as int)),
            names@.map_values(|n: String| n@) == dedup(idents_of(ts.take(i as int))),
        decreases tokens.len() - i,
    {
        let ghost pre = ts.take(i as int);
        let ghost next = ts.take(i as int + 1);
        assert(next.drop_last() =~= pre);
        assert(next.last() == ts[i as int]);
        let t = tokens[i].as_str();
        if i % 2 == 0 {
            if !is_ident(t) {
                return Err(MacroError::BadArguments);
            }
            let ghost ids = idents_of(pre);
            assert(idents_of(next) == ids.push(t@));
            assert(ids.push(t@).drop_last() =~= ids);
            if !contains_name(&names, t) {
                names.push(String::from_str(t));
                assert(names@.map_values(|n: String| n@) =~= dedup(idents_of(pre)).push(t@));
            }
        } else {
            if !is_comma(t) {
                return Err(MacroError::BadArguments);
            }
            assert(idents_of(next) == idents_of(pre));
        }
        assert(well_formed_args(next)) by {
            assert forall|k: int| 0 <= k < next.len() implies (if k % 2 == 0 {
                parses_as_ident(#[trigger] next[k])
            } else {
                next[k] == seq![',']
            }) by {
                if k < i {
                    assert(next[k] == pre[k]);
                }
            }
        }
        i = i + 1;
    }
    assert(ts.take(i as int) =~= ts);
    assert(commas_in_place(ts)) by {
        assert forall|k: int| 0 <= k < ts.len() && k % 2 == 1 implies #[trigger] ts[k] == seq![','] by {
            assert(ts.take(i as int)[k] == ts[k]);
        }
    }
    Ok(names)
}

/// Whether the names ask for a `Default` implementation.
pub fn wants_default(names: &Vec<String>) -> (r: bool)
    ensures
        r == names@.map_values(|n: String| n@).contains("default"@),
{
    contains_name(names, "default")
}

} // verus!
