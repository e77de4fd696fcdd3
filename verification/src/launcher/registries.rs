//! The build id that the official launcher records in the Windows
//! registry.

use vstd::prelude::*;
use vstd::string::StringExecFns;

use vstd::utf8::{decode_utf8, encode_utf8, is_ascii_chars, valid_utf8};

use crate::text::{
    contains_str, from_utf8_lossy, has_infix, has_prefix, replace_all, replace_str, utf8_lossy_of,
};

verus! {

/// The part of the name of the registry value that holds the build id.
pub const BUILD_ID_KEY: &'static str = "buildId_v2_Production";

/// The index of the last name that holds `BUILD_ID_KEY`, or -1.
pub open spec fn last_build_id_index(names: Seq<Seq<char>>) -> int
    decreases names.len(),
{
    if names.len() == 0 {
        -1
    } else if has_infix(names.last(), BUILD_ID_KEY@) {
        names.len() - 1
    } else {
        last_build_id_index(names.drop_last())
    }
}

proof fn lemma_last_index_bounds(names: Seq<Seq<char>>)
    ensures
        -1 <= last_build_id_index(names) < names.len(),
        last_build_id_index(names) >= 0 ==> has_infix(
            names[last_build_id_index(names)],
            BUILD_ID_KEY@,
        ),
    decreases names.len(),
{
    if names.len() > 0 {
        lemma_last_index_bounds(names.drop_last());
    }
}

/// A string read from the registry without its NUL characters.
pub open spec fn without_nul(s: Seq<char>) -> Seq<char> {
    replace_all(s, "\u{0}"@, ""@)
}

/// Removes the NUL characters of a registry string.
pub fn registry_string(raw: &str) -> (r: String)
    ensures
        r@ == without_nul(raw@),
{
    replace_str(raw, "\u{0}", "")
}

/// The bytes Windows stores for an ASCII string: UTF-16 little-endian,
/// each character's byte followed by a zero byte.
pub open spec fn utf16le_ascii(s: Seq<char>) -> Seq<u8> {
    Seq::new(2 * s.len(), |i: int| if i % 2 == 0 { s[i / 2] as u8 } else { 0u8 })
}

/// Each character followed by a NUL character.
pub open spec fn with_nuls(s: Seq<char>) -> Seq<char> {
    Seq::new(2 * s.len(), |i: int| if i % 2 == 0 { s[i / 2] } else { '\0' })
}

/// No character is NUL.
pub open spec fn no_nul(s: Seq<char>) -> bool {
    forall|k: int| 0 <= k < s.len() ==> s[k] != '\0'
}

/// Every character is NUL.
pub open spec fn all_nul(s: Seq<char>) -> bool {
    forall|k: int| 0 <= k < s.len() ==> s[k] == '\0'
}

/// The characters that are not NUL, in order.
pub open spec fn drop_nuls(s: Seq<char>) -> Seq<char>
    decreases s.len(),
{
    if s.len() == 0 {
        seq![]
    } else if s[0] == '\0' {
        drop_nuls(s.drop_first())
    } else {
        seq![s[0]] + drop_nuls(s.drop_first())
    }
}

proof fn lemma_with_nuls_unfold(s: Seq<char>)
    requires
        s.len() > 0,
    ensures
        with_nuls(s) == seq![s[0], '\0'] + with_nuls(s.drop_first()),
{
    assert(with_nuls(s) =~= seq![s[0], '\0'] + with_nuls(s.drop_first()));
}

proof fn lemma_strip_with_nuls(s: Seq<char>)
    ensures
        replace_all(with_nuls(s), seq!['\0'], Seq::<char>::empty()) == drop_nuls(s),
    decreases s.len(),
{
    let nul = seq!['\0'];
    let e = Seq::<char>::empty();
    if s.len() == 0 {
        assert(with_nuls(s) =~= e);
    } else {
        lemma_with_nuls_unfold(s);
        lemma_strip_with_nuls(s.drop_first());
        let w = with_nuls(s);
        let rest = with_nuls(s.drop_first());
        let tail = seq!['\0'] + rest;
        assert(w.skip(1) =~= tail);
        assert(w.drop_first() =~= tail);
        assert(tail.subrange(0, 1) =~= nul);
        assert(tail.skip(1) =~= rest);
        assert(replace_all(tail, nul, e) == e + replace_all(tail.skip(1), nul, e));
        assert(replace_all(tail, nul, e) =~= replace_all(rest, nul, e));
        if s[0] == '\0' {
            assert(w.subrange(0, 1) =~= nul);
            assert(replace_all(w, nul, e) == e + replace_all(w.skip(1), nul, e));
            assert(replace_all(w, nul, e) =~= drop_nuls(s));
        } else {
            assert(w[0] == s[0]);
            assert(w.subrange(0, 1)[0] != nul[0]);
            assert(!has_prefix(w, nul));
            assert(replace_all(w, nul, e) == seq![w[0]] + replace_all(w.drop_first(), nul, e));
            assert(replace_all(w, nul, e) =~= drop_nuls(s));
        }
    }
}

proof fn lemma_drop_nuls_split(b: Seq<char>, z: Seq<char>)
    requires
        no_nul(b),
        all_nul(z),
    ensures
        drop_nuls(b + z) == b,
    decreases b.len() + z.len(),
{
    if b.len() > 0 {
        assert((b + z).drop_first() =~= b.drop_first() + z);
        lemma_drop_nuls_split(b.drop_first(), z);
        assert(b =~= seq![b[0]] + b.drop_first());
    } else if z.len() > 0 {
        assert((b + z).drop_first() =~= b + z.drop_first());
        lemma_drop_nuls_split(b, z.drop_first());
    } else {
        assert(b + z =~= b);
    }
}

proof fn lemma_utf16le_ascii_decodes(s: Seq<char>)
    requires
        is_ascii_chars(s),
    ensures
        valid_utf8(utf16le_ascii(s)),
        decode_utf8(utf16le_ascii(s)) == with_nuls(s),
{
    let w = with_nuls(s);
    assert(is_ascii_chars(w)) by {
        assert forall|i: int| 0 <= i < w.len() implies '\0' <= #[trigger] w[i] <= '\u{7f}' by {
            if i % 2 == 0 {
                assert(w[i] == s[i / 2]);
            }
        }
    }
    vstd::utf8::is_ascii_chars_encode_utf8(w);
    assert(encode_utf8(w) =~= utf16le_ascii(s)) by {
        assert forall|i: int| 0 <= i < w.len() implies encode_utf8(w)[i] == #[trigger] utf16le_ascii(
            s,
        )[i] by {
            assert(w[i] as u8 == encode_utf8(w)[i]);
        }
    }
    vstd::utf8::encode_utf8_valid_utf8(w);
    vstd::utf8::encode_utf8_decode_utf8(w);
}

/// The names of registry values.
pub open spec fn value_names(values: Seq<(String, Vec<u8>)>) -> Seq<Seq<char>> {
    values.map_values(|v: (String, Vec<u8>)| v.0@)
}

/// The recorded build id among the launcher's registry values: the data of
/// the last value whose name holds `BUILD_ID_KEY`, decoded as UTF-8
/// (lossily) and without NUL characters; `None` when no name holds it.
pub fn find_build_id(values: &Vec<(String, Vec<u8>)>) -> (r: Option<String>)
    ensures
        ({
            let j = last_build_id_index(value_names(values@));
            if j < 0 {
                r is None
            } else {
                r matches Some(s) && s@ == without_nul(utf8_lossy_of(values@[j].1@))
            }
        }),
        forall|b: Seq<char>, z: Seq<char>|
            #![trigger utf16le_ascii(b + z)]
            last_build_id_index(value_names(values@)) >= 0 && values@[last_build_id_index(
                value_names(values@),
            )].1@ == utf16le_ascii(b + z) && is_ascii_chars(b) && no_nul(b) && all_nul(z) ==> (r matches Some(
                s,
            ) && s@ == b),
{
    let ghost names = value_names(values@);
    let mut found: Option<usize> = None;
    let mut i: usize = 0;
    while i < values.len()
        invariant
            i <= values@.len(),
            names == value_names(values@),
            match found {
                Some(j) => j as int == last_build_id_index(names.subrange(0, i as int)),
                None => last_build_id_index(names.subrange(0, i as int)) == -1,
            },
        decreases values@.len() - i,
    {
        assert(names.subrange(0, i + 1).drop_last() =~= names.subrange(0, i as int));
        assert(names.subrange(0, i + 1).last() == values@[i as int].0@);
        if contains_str(values[i].0.as_str(), BUILD_ID_KEY) {
            found = Some(i);
        }
        i = i + 1;
    }
    assert(names.subrange(0, values@.len() as int) =~= names);
    proof {
        lemma_last_index_bounds(names);
    }
    match found {
        Some(j) => {
            let text = from_utf8_lossy(values[j].1.as_slice());
            let r = registry_string(text.as_str());
            proof {
                reveal_strlit("\u{0}");
                reveal_strlit("");
                assert("\u{0}"@ =~= seq!['\0']);
                assert(""@ =~= Seq::<char>::empty());
                assert forall|b: Seq<char>, z: Seq<char>|
                    #![trigger utf16le_ascii(b + z)]
                    values@[j as int].1@ == utf16le_ascii(b + z) && is_ascii_chars(b) && no_nul(b)
                        && all_nul(z) implies r@ == b by {
                    assert(is_ascii_chars(b + z)) by {
                        assert forall|i: int| 0 <= i < (b + z).len() implies '\0' <= #[trigger] (
                        b + z)[i] <= '\u{7f}' by {
                            if i >= b.len() {
                                assert((b + z)[i] == z[i - b.len()]);
                            }
                        }
                    }
                    lemma_utf16le_ascii_decodes(b + z);
                    lemma_strip_with_nuls(b + z);
                    lemma_drop_nuls_split(b, z);
                }
            }
            Some(r)
        },
        None => None,
    }
}

/// The name of the registry value to write the build id to: the last of
/// the names that holds `BUILD_ID_KEY`, or `None`.
pub fn find_build_id_key(names: &Vec<String>) -> (r: Option<String>)
    ensures
        ({
            let j = last_build_id_index(names@.map_values(|s: String| s@));
            if j < 0 {
                r is None
            } else {
                r matches Some(s) && s@ == names@[j]@
            }
        }),
{
    let ghost views = names@.map_values(|s: String| s@);
    let mut found: Option<usize> = None;
    let mut i: usize = 0;
    while i < names.len()
        invariant
            i <= names@.len(),
            views == names@.map_values(|s: String| s@),
            match found {
                Some(j) => j as int == last_build_id_index(views.subrange(0, i as int)),
                None => last_build_id_index(views.subrange(0, i as int)) == -1,
            },
        decreases names@.len() - i,
    {
        assert(views.subrange(0, i + 1).drop_last() =~= views.subrange(0, i as int));
        assert(views.subrange(0, i + 1).last() == names@[i as int]@);
        if contains_str(names[i].as_str(), BUILD_ID_KEY) {
            found = Some(i);
        }
        i = i + 1;
    }
    assert(views.subrange(0, names@.len() as int) =~= views);
    proof {
        lemma_last_index_bounds(views);
    }
    match found {
        Some(j) => Some(names[j].clone()),
        None => None,
    }
}

/// The data written for a build id: the id and a NUL character.
pub fn build_id_registry_value(build_id: &str) -> (r: String)
    ensures
        r@ == build_id@ + "\u{0}"@,
{
    let mut r = String::from_str(build_id);
    r.append("\u{0}");
    r
}

} // verus!
