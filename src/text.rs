use vstd::prelude::*;
use vstd::string::*;

verus! {

/// Whether proc-macro2's own lexer, then syn's parser, accept the text as one Rust type.
pub uninterp spec fn parses_as_type(s: Seq<char>) -> bool;

/// Whether proc-macro2's own lexer, then syn's parser, accept the text as one
/// identifier that is not a keyword.
pub uninterp spec fn parses_as_ident(s: Seq<char>) -> bool;

/// Whether proc-macro2's own lexer accepts the text as tokens with balanced delimiters.
pub uninterp spec fn lexes_as_tokens(s: Seq<char>) -> bool;

/// Relies on `syn::parse_str::<syn::Type>`: accepting the text means it is one
/// complete type. Inside a compiler the compiler's lexer must accept it too, so a
/// refusal says nothing.
#[verifier::external_body]
pub(crate) fn is_type(s: &str) -> (r: bool)
    ensures
        r ==> parses_as_type(s@),
{
    syn::parse_str::<syn::Type>(s).is_ok()
}

/// Relies on `syn::parse_str::<syn::Ident>`: accepting the text means it is one
/// identifier; a refusal says nothing.
#[verifier::external_body]
pub(crate) fn is_ident(s: &str) -> (r: bool)
    ensures
        r ==> parses_as_ident(s@),
{
    syn::parse_str::<syn::Ident>(s).is_ok()
}

/// Relies on `proc_macro2::TokenStream::from_str`: accepting the text means that
/// proc-macro2's own lexer accepts it; a refusal says nothing.
#[verifier::external_body]
pub(crate) fn lexes(s: &str) -> (r: bool)
    ensures
        r ==> lexes_as_tokens(s@),
{
    <proc_macro2::TokenStream as std::str::FromStr>::from_str(s).is_ok()
}

/// The text with every `<` written as `::<`, the form a type takes in expression position.
pub open spec fn turbofish_of(t: Seq<char>) -> Seq<char>
    decreases t.len(),
{
    if t.len() == 0 {
        Seq::empty()
    } else {
        let rest = turbofish_of(t.drop_last());
        if t.last() == '<' {
            rest + seq![':', ':', '<']
        } else {
            rest.push(t.last())
        }
    }
}

/// Whether `s` begins with `p`.
pub fn starts_with(s: &str, p: &str) -> (r: bool)
    ensures
        r == p@.is_prefix_of(s@),
{
    let n = s.unicode_len();
    let m = p.unicode_len();
    if m > n {
        return false;
    }
    let mut i: usize = 0;
    while i < m
        invariant
            m <= n,
            n == s@.len(),
            m == p@.len(),
            i <= m,
            forall|j: int| 0 <= j < i ==> s@[j] == p@[j],
        decreases m - i,
    {
        if s.get_char(i) != p.get_char(i) {
            assert(p@[i as int] != s@.subrange(0, m as int)[i as int]);
            return false;
        }
        i = i + 1;
    }
    assert(p@ =~= s@.subrange(0, m as int));
    true
}

/// `s` without its first `k` characters.
pub fn drop_chars(s: &str, k: usize) -> (r: String)
    requires
        k <= s@.len(),
    ensures
        r@ == s@.skip(k as int),
{
    let n = s.unicode_len();
    String::from_str(s.substring_char(k, n))
}

/// The concatenation of `a` and `b`.
pub fn join(a: &str, b: &str) -> (r: String)
    ensures
        r@ == a@ + b@,
{
    String::from_str(a).concat(b)
}

/// Whether the text is exactly one comma.
pub fn is_comma(s: &str) -> (r: bool)
    ensures
        r == (s@ == seq![',']),
{
    if s.unicode_len() != 1 {
        return false;
    }
    let c = s.get_char(0);
    if c == ',' {
        assert(s@ =~= seq![',']);
        true
    } else {
        false
    }
}

/// The text with every `<` written as `::<`.
pub fn turbofish(t: &str) -> (r: String)
    ensures
        r@ == turbofish_of(t@),
{
    let n = t.unicode_len();
    let mut r = String::new();
    let mut i: usize = 0;
    while i < n
        invariant
            n == t@.len(),
            i <= n,
            r@ == turbofish_of(t@.take(i as int)),
        decreases n - i,
    {
        assert(t@.take(i as int + 1).drop_last() =~= t@.take(i as int));
        let c = t.get_char(i);
        if c == '<' {
            r.append("::<");
            proof {
                reveal_strlit("::<");
                assert("::<"@ =~= seq![':', ':', '<']);
            }
        } else {
            r.append(t.substring_char(i, i + 1));
            assert(t@.subrange(i as int, i as int + 1) =~= seq![c]);
        }
        i = i + 1;
    }
    assert(t@.take(n as int) =~= t@);
    r
}

} // verus!
