//! Character-level string operations with their mathematical meaning.

use vstd::prelude::*;

verus! {

/// `p` is a prefix of `s`.
pub open spec fn has_prefix(s: Seq<char>, p: Seq<char>) -> bool {
    p.len() <= s.len() && s.subrange(0, p.len() as int) == p
}

/// `p` occurs in `s` starting at index `i`.
pub open spec fn occurs_at(s: Seq<char>, p: Seq<char>, i: int) -> bool {
    0 <= i && i + p.len() <= s.len() && s.subrange(i, i + p.len()) == p
}

/// `p` occurs somewhere in `s`.
pub open spec fn has_infix(s: Seq<char>, p: Seq<char>) -> bool {
    exists|i: int| occurs_at(s, p, i)
}

/// Every occurrence of `from` in `s`, taken left to right without overlap,
/// replaced by `to`. An empty `from` matches before every character and at
/// the end.
pub open spec fn replace_all(s: Seq<char>, from: Seq<char>, to: Seq<char>) -> Seq<char>
    decreases s.len(),
{
    if from.len() == 0 {
        if s.len() == 0 {
            to
        } else {
            to + seq![s[0]] + replace_all(s.drop_first(), from, to)
        }
    } else if s.len() < from.len() {
        s
    } else if has_prefix(s, from) {
        to + replace_all(s.skip(from.len() as int), from, to)
    } else {
        seq![s[0]] + replace_all(s.drop_first(), from, to)
    }
}

/// What `str::to_lowercase` returns for a string: its lowercase equivalent
/// under Unicode's lowercase mapping.
pub uninterp spec fn lowercase_of(s: Seq<char>) -> Seq<char>;

/// Calls `str::to_lowercase`. The contract names the result `lowercase_of`
/// of the input and says nothing more of it.
#[verifier::external_body]
pub(crate) fn to_lowercase(s: &str) -> (r: String)
    ensures
        r@ == lowercase_of(s@),
{
    s.to_lowercase()
}

/// What `String::from_utf8_lossy` returns for a byte sequence: its UTF-8
/// decoding, with each invalid sequence replaced by U+FFFD.
pub uninterp spec fn utf8_lossy_of(bytes: Seq<u8>) -> Seq<char>;

/// Calls `String::from_utf8_lossy`. The contract names the result
/// `utf8_lossy_of` of the input; for valid UTF-8, which the function
/// converts without replacing anything, the result is its decoding.
#[verifier::external_body]
pub(crate) fn from_utf8_lossy(bytes: &[u8]) -> (r: String)
    ensures
        r@ == utf8_lossy_of(bytes@),
        vstd::utf8::valid_utf8(bytes@) ==> r@ == vstd::utf8::decode_utf8(bytes@),
{
    String::from_utf8_lossy(bytes).to_string()
}

/// Appends one character to a string.
#[verifier::external_body]
pub(crate) fn string_push(s: &mut String, c: char)
    ensures
        final(s)@ == old(s)@.push(c),
{
    s.push(c)
}

/// The characters of `s`, in order.
pub fn chars_of(s: &str) -> (v: Vec<char>)
    ensures
        v@ == s@,
{
    broadcast use vstd::string::group_string_axioms;

    let mut v: Vec<char> = Vec::new();
    for c in it: s.chars()
        invariant
            v@.len() == it.index(),
            forall|k: int| 0 <= k < v@.len() ==> v@[k] == it.seq()[k],
            it.seq() == s@,
    {
        v.push(c);
    }
    assert(v@ =~= s@);
    v
}

/// The string made of the characters of `v`.
pub fn string_from_chars(v: &[char]) -> (s: String)
    ensures
        s@ == v@,
{
    let mut s = String::new();
    let mut i: usize = 0;
    while i < v.len()
        invariant
            i <= v@.len(),
            s@ == v@.subrange(0, i as int),
        decreases v@.len() - i,
    {
        string_push(&mut s, v[i]);
        i = i + 1;
        assert(s@ =~= v@.subrange(0, i as int));
    }
    assert(v@.subrange(0, v@.len() as int) =~= v@);
    s
}

/// Whether `p` occurs in `s` at index `i`.
fn occurs_at_exec(s: &Vec<char>, p: &Vec<char>, i: usize) -> (r: bool)
    ensures
        r == occurs_at(s@, p@, i as int),
{
    if p.len() > s.len() || i > s.len() - p.len() {
        return false;
    }
    let mut k: usize = 0;
    while k < p.len()
        invariant
            k <= p@.len(),
            i + p@.len() <= s.len(),
            forall|j: int| 0 <= j < k ==> s@[i + j] == p@[j],
        decreases p@.len() - k,
    {
        if s[i + k] != p[k] {
            assert(s@.subrange(i as int, i + p@.len())[k as int] != p@[k as int]);
            return false;
        }
        k = k + 1;
    }
    assert(s@.subrange(i as int, i + p@.len()) =~= p@);
    true
}

/// Whether `s` and `t` are the same string.
pub fn str_eq(s: &str, t: &str) -> (r: bool)
    ensures
        r == (s@ == t@),
{
    let sv = chars_of(s);
    let tv = chars_of(t);
    if sv.len() != tv.len() {
        return false;
    }
    let r = occurs_at_exec(&sv, &tv, 0);
    assert(sv@.subrange(0, sv@.len() as int) =~= sv@);
    r
}

/// Whether `s` begins with `p`.
pub fn starts_with_str(s: &str, p: &str) -> (r: bool)
    ensures
        r == has_prefix(s@, p@),
{
    let sv = chars_of(s);
    let pv = chars_of(p);
    occurs_at_exec(&sv, &pv, 0)
}

/// Whether `p` occurs in `s`.
pub fn contains_str(s: &str, p: &str) -> (r: bool)
    ensures
        r == has_infix(s@, p@),
{
    let sv = chars_of(s);
    let pv = chars_of(p);
    if pv.len() == 0 {
        assert(sv@.subrange(0, 0) =~= pv@);
        assert(occurs_at(s@, p@, 0));
        return true;
    }
    let mut i: usize = 0;
    while i < sv.len()
        invariant
            i <= sv@.len(),
            pv@.len() > 0,
            sv@ == s@,
            pv@ == p@,
            forall|j: int| 0 <= j < i ==> !occurs_at(s@, p@, j),
        decreases sv@.len() - i,
    {
        if pv.len() <= sv.len() - i && occurs_at_exec(&sv, &pv, i) {
            assert(occurs_at(s@, p@, i as int));
            return true;
        }
        i = i + 1;
    }
    false
}

proof fn lemma_skip_prefix(s: Seq<char>, from: Seq<char>, i: int)
    requires
        0 <= i,
        i + from.len() <= s.len(),
    ensures
        has_prefix(s.skip(i), from) == occurs_at(s, from, i),
        s.skip(i).skip(from.len() as int) == s.skip(i + from.len()),
{
    assert(s.skip(i).subrange(0, from.len() as int) =~= s.subrange(i, i + from.len()));
    assert(s.skip(i).skip(from.len() as int) =~= s.skip(i + from.len()));
}

/// Replacing a character by nothing leaves no occurrence of it.
pub proof fn lemma_remove_char(s: Seq<char>, c: char)
    ensures
        !replace_all(s, seq![c], Seq::<char>::empty()).contains(c),
    decreases s.len(),
{
    let r = replace_all(s, seq![c], Seq::<char>::empty());
    if s.len() > 0 {
        lemma_remove_char(s.drop_first(), c);
        assert(s.skip(1) =~= s.drop_first());
        let rest = replace_all(s.drop_first(), seq![c], Seq::<char>::empty());
        if has_prefix(s, seq![c]) {
            assert(r =~= rest);
        } else {
            assert(s.subrange(0, 1) =~= seq![s[0]]);
            assert(s[0] != c);
            assert(r =~= seq![s[0]] + rest);
            assert forall|k: int| 0 <= k < r.len() implies r[k] != c by {
                if k > 0 {
                    assert(r[k] == rest[k - 1]);
                }
            }
        }
    }
}

/// `s` with every occurrence of `from` replaced by `to`.
pub fn replace_str(s: &str, from: &str, to: &str) -> (r: String)
    ensures
        r@ == replace_all(s@, from@, to@),
{
    let sv = chars_of(s);
    let fv = chars_of(from);
    let mut res = String::new();
    let mut i: usize = 0;
    assert(sv@.skip(0) =~= sv@);
    assert(res@ + replace_all(sv@, fv@, to@) =~= replace_all(sv@, fv@, to@));
    if fv.len() == 0 {
        while i < sv.len()
            invariant
                i <= sv@.len(),
                fv@.len() == 0,
                res@ + replace_all(sv@.skip(i as int), fv@, to@) == replace_all(sv@, fv@, to@),
            decreases sv@.len() - i,
        {
            assert(sv@.skip(i as int).drop_first() =~= sv@.skip(i + 1));
            res.append(to);
            string_push(&mut res, sv[i]);
            i = i + 1;
            assert(res@ + replace_all(sv@.skip(i as int), fv@, to@) =~= replace_all(sv@, fv@, to@));
        }
        res.append(to);
        assert(sv@.skip(i as int).len() == 0);
        assert(res@ =~= replace_all(sv@, fv@, to@));
        return res;
    }
    while i < sv.len()
        invariant
            i <= sv@.len(),
            fv@.len() > 0,
            res@ + replace_all(sv@.skip(i as int), fv@, to@) == replace_all(sv@, fv@, to@),
        decreases sv@.len() - i,
    {
        let ghost rest = sv@.skip(i as int);
        if fv.len() <= sv.len() - i && occurs_at_exec(&sv, &fv, i) {
            proof {
                lemma_skip_prefix(sv@, fv@, i as int);
            }
            res.append(to);
            i = i + fv.len();
            assert(res@ + replace_all(sv@.skip(i as int), fv@, to@) =~= replace_all(sv@, fv@, to@));
        } else {
            proof {
                if fv@.len() <= sv@.len() - i {
                    lemma_skip_prefix(sv@, fv@, i as int);
                }
                assert(rest.drop_first() =~= sv@.skip(i + 1));
                if rest.len() < fv@.len() {
                    assert(replace_all(rest.drop_first(), fv@, to@) == rest.drop_first());
                    assert(rest =~= seq![rest[0]] + rest.drop_first());
                }
            }
            string_push(&mut res, sv[i]);
            i = i + 1;
            assert(res@ + replace_all(sv@.skip(i as int), fv@, to@) =~= replace_all(sv@, fv@, to@));
        }
    }
    assert(sv@.skip(i as int).len() == 0);
    assert(res@ =~= replace_all(sv@, fv@, to@));
    res
}

} // verus!
