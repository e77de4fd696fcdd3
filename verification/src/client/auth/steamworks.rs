//! Steam sign-in: the credentials the service issues for a Steam session
//! ticket, and the ticket's hexadecimal form.

use vstd::prelude::*;

use crate::client::{concat_params, param, Params};
use crate::text::string_push;

verus! {

/// The lowercase hexadecimal digit for `n` (0 to 15).
pub open spec fn hex_digit(n: int) -> char {
    if n < 10 {
        (n + 48) as char
    } else {
        (n + 87) as char
    }
}

/// Lowercase hexadecimal, two digits per byte, most significant first.
pub open spec fn hex_of(bytes: Seq<u8>) -> Seq<char>
    decreases bytes.len(),
{
    if bytes.len() == 0 {
        seq![]
    } else {
        hex_of(bytes.drop_last()) + seq![
            hex_digit(bytes.last() as int / 16),
            hex_digit(bytes.last() as int % 16),
        ]
    }
}

fn hex_char(n: u8) -> (c: char)
    requires
        n < 16,
    ensures
        c == hex_digit(n as int),
{
    if n < 10 {
        (n + 48) as char
    } else {
        (n + 87) as char
    }
}

/// A lowercase hexadecimal digit: `0`-`9` or `a`-`f`.
pub open spec fn is_lower_hex_digit(c: char) -> bool {
    (48 <= c as int <= 57) || (97 <= c as int <= 102)
}

/// The bytes in lowercase hexadecimal, two digits per byte.
pub fn encode_hex(bytes: &[u8]) -> (s: String)
    ensures
        s@ == hex_of(bytes@),
        s@.len() == 2 * bytes@.len(),
        forall|k: int| 0 <= k < s@.len() ==> is_lower_hex_digit(#[trigger] s@[k]),
{
    proof {
        lemma_hex_of_len(bytes@);
        lemma_hex_of_digits(bytes@);
    }
    let mut s = String::new();
    let mut i: usize = 0;
    while i < bytes.len()
        invariant
            i <= bytes@.len(),
            s@ == hex_of(bytes@.subrange(0, i as int)),
        decreases bytes@.len() - i,
    {
        let b: u8 = bytes[i];
        string_push(&mut s, hex_char(b / 16));
        string_push(&mut s, hex_char(b % 16));
        assert(bytes@.subrange(0, i + 1).drop_last() =~= bytes@.subrange(0, i as int));
        i = i + 1;
    }
    assert(bytes@.subrange(0, bytes@.len() as int) =~= bytes@);
    s
}

/// Two hexadecimal digits per byte.
pub proof fn lemma_hex_of_len(bytes: Seq<u8>)
    ensures
        hex_of(bytes).len() == 2 * bytes.len(),
    decreases bytes.len(),
{
    if bytes.len() > 0 {
        lemma_hex_of_len(bytes.drop_last());
    }
}

/// Every character of the hexadecimal form is a lowercase hexadecimal digit.
pub proof fn lemma_hex_of_digits(bytes: Seq<u8>)
    ensures
        forall|k: int| 0 <= k < hex_of(bytes).len() ==> is_lower_hex_digit(#[trigger] hex_of(bytes)[k]),
    decreases bytes.len(),
{
    if bytes.len() > 0 {
        lemma_hex_of_digits(bytes.drop_last());
        let a = bytes.last() as int / 16;
        let b = bytes.last() as int % 16;
        assert(hex_digit(a) as int == if a < 10 { a + 48 } else { a + 87 });
        assert(hex_digit(b) as int == if b < 10 { b + 48 } else { b + 87 });
        let h = hex_of(bytes.drop_last());
        let t = seq![hex_digit(a), hex_digit(b)];
        assert(hex_of(bytes) == h + t);
        assert forall|k: int| 0 <= k < hex_of(bytes).len() implies is_lower_hex_digit(
            #[trigger] hex_of(bytes)[k],
        ) by {
            if k < h.len() {
                assert(hex_of(bytes)[k] == h[k]);
            } else {
                assert(hex_of(bytes)[k] == t[k - h.len()]);
            }
        }
    }
}

proof fn lemma_hex_digit_injective(a: int, b: int)
    requires
        0 <= a < 16,
        0 <= b < 16,
        hex_digit(a) == hex_digit(b),
    ensures
        a == b,
{
    assert(hex_digit(a) as int == if a < 10 { a + 48 } else { a + 87 });
    assert(hex_digit(b) as int == if b < 10 { b + 48 } else { b + 87 });
}

/// Different byte strings have different hexadecimal forms, so comparing
/// hexadecimal checksums compares the digests themselves.
pub proof fn lemma_hex_of_injective(a: Seq<u8>, b: Seq<u8>)
    requires
        hex_of(a) == hex_of(b),
    ensures
        a == b,
    decreases a.len(),
{
    lemma_hex_of_len(a);
    lemma_hex_of_len(b);
    if a.len() > 0 {
        let ha = hex_of(a.drop_last());
        let hb = hex_of(b.drop_last());
        lemma_hex_of_len(a.drop_last());
        lemma_hex_of_len(b.drop_last());
        let n: int = ha.len() as int;
        let ta = seq![hex_digit(a.last() as int / 16), hex_digit(a.last() as int % 16)];
        let tb = seq![hex_digit(b.last() as int / 16), hex_digit(b.last() as int % 16)];
        assert(hex_of(a) == ha + ta);
        assert(hex_of(b) == hb + tb);
        assert((ha + ta)[n] == ta[0]);
        assert((hb + tb)[n] == tb[0]);
        assert((ha + ta)[n + 1] == ta[1]);
        assert((hb + tb)[n + 1] == tb[1]);
        assert(hex_of(a)[n] == hex_of(b)[n]);
        assert(hex_of(a)[n + 1] == hex_of(b)[n + 1]);
        lemma_hex_digit_injective(a.last() as int / 16, b.last() as int / 16);
        lemma_hex_digit_injective(a.last() as int % 16, b.last() as int % 16);
        assert(a.last() == b.last());
        assert(ha =~= hex_of(a).subrange(0, n));
        assert(hb =~= hex_of(b).subrange(0, n));
        lemma_hex_of_injective(a.drop_last(), b.drop_last());
        assert(a =~= a.drop_last().push(a.last()));
        assert(b =~= b.drop_last().push(b.last()));
    } else {
        assert(b.len() == 0);
        assert(a =~= b);
    }
}

/// What the service issues for a Steam session ticket.
#[derive(Debug, Clone)]
pub struct Credentials {
    pub guid: String,
    pub secret: String,
    pub platform_token: String,
    pub name: String,
    pub name_chosen: String,
    pub access_token: String,
    pub access_token_timestamp: String,
    pub access_token_expiration: String,
}

/// The path of the request that exchanges a Steam session ticket for credentials.
pub const CREDENTIALS_PATH: &'static str = "steamworks/getcredentials";

/// The form of the credentials request: the session ticket, then the
/// session's default parameters.
pub fn credentials_params(session_token: &str, defaults: &Params) -> (r: Params)
    ensures
        r.deep_view() == seq![("sessionticket"@, session_token@)] + defaults.deep_view(),
{
    concat_params(param("sessionticket", session_token), defaults)
}

} // verus!
