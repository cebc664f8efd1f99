//! Small verified operations on strings that the rest of the library shares.
use vstd::prelude::*;
use vstd::string::StringExecFns;

verus! {

/// Relies on `String::push`: appends one character.
#[verifier::external_body]
pub(crate) fn push_char(s: &mut String, c: char)
    ensures
        final(s)@ == old(s)@.push(c),
{
    s.push(c)
}

/// The character contents of a list of strings.
pub open spec fn texts(v: Seq<String>) -> Seq<Seq<char>> {
    v.map_values(|s: String| s@)
}

/// Words joined by single spaces.
pub open spec fn joined(ws: Seq<Seq<char>>) -> Seq<char>
    decreases ws.len(),
{
    if ws.len() == 0 {
        Seq::empty()
    } else if ws.len() == 1 {
        ws[0]
    } else {
        joined(ws.drop_last()) + seq![' '] + ws.last()
    }
}

/// A sequence with one more element contains what it contained, and that element.
pub proof fn lemma_contains_push<A>(s: Seq<A>, d: A, c: A)
    ensures
        s.push(d).contains(c) == (s.contains(c) || d == c),
{
    if s.contains(c) {
        let j = choose|j: int| 0 <= j < s.len() && s[j] == c;
        assert(s.push(d)[j] == c);
    }
    if d == c {
        assert(s.push(d)[s.len() as int] == c);
    }
    if s.push(d).contains(c) {
        let j = choose|j: int| 0 <= j < s.push(d).len() && s.push(d)[j] == c;
        if j < s.len() {
            assert(s[j] == c);
        }
    }
}

/// Whether `c` occurs in `s`.
pub fn contains_char(s: &str, c: char) -> (r: bool)
    ensures
        r == s@.contains(c),
{
    let ghost chars = s@;
    let mut found = false;
    for d in it: s.chars()
        invariant
            it.seq() == chars,
            found == chars.take(it.index() as int).contains(c),
    {
        let ghost i = it.index() as int;
        proof {
            assert(chars.take(i + 1) =~= chars.take(i).push(d));
            assert(d == chars[i]);
            lemma_contains_push(chars.take(i), d, c);
        }
        found = found || d == c;
    }
    proof {
        assert(chars.take(chars.len() as int) =~= chars);
    }
    found
}

/// The characters of `s`, in order.
pub fn char_vec(s: &str) -> (v: Vec<char>)
    ensures
        v@ == s@,
{
    let ghost chars = s@;
    let mut v: Vec<char> = Vec::new();
    for d in it: s.chars()
        invariant
            it.seq() == chars,
            v@ == chars.take(it.index() as int),
    {
        proof {
            assert(chars.take(it.index() + 1) =~= chars.take(it.index() as int).push(d));
        }
        v.push(d);
    }
    proof {
        assert(chars.take(chars.len() as int) =~= chars);
    }
    v
}

/// Whether `a` and `b` hold the same characters.
pub fn same_text(a: &str, b: &str) -> (r: bool)
    ensures
        r == (a@ == b@),
{
    let x = char_vec(a);
    let y = char_vec(b);
    if x.len() != y.len() {
        return false;
    }
    let mut i: usize = 0;
    while i < x.len()
        invariant
            x.len() == y.len(),
            x@ == a@,
            y@ == b@,
            i <= x.len(),
            forall|j: int| 0 <= j < i ==> x@[j] == y@[j],
        decreases x.len() - i,
    {
        if x[i] != y[i] {
            proof {
                assert(x@[i as int] != y@[i as int]);
            }
            return false;
        }
        i = i + 1;
    }
    proof {
        assert(x@ =~= y@);
    }
    true
}

/// A new string that holds `a` followed by `b`.
pub fn concat2(a: &str, b: &str) -> (r: String)
    ensures
        r@ == a@ + b@,
{
    let mut r = String::from_str(a);
    r.append(b);
    r
}

/// A new string that holds `a`, `b` and `c` in turn.
pub fn concat3(a: &str, b: &str, c: &str) -> (r: String)
    ensures
        r@ == a@ + b@ + c@,
{
    let mut r = String::from_str(a);
    r.append(b);
    r.append(c);
    r
}

} // verus!
