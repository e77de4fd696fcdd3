//! Saved sign-ins, the device token, and a counting predicate.

use sha1::Digest;

use vstd::prelude::*;
use vstd::string::StringExecFns;
use vstd::utf8::encode_utf8;

use crate::client::auth::steamworks::{encode_hex, hex_of, is_lower_hex_digit};
use crate::text::{from_utf8_lossy, utf8_lossy_of};

verus! {

/// A user name and password as the launcher keeps them.
#[derive(Debug)]
pub struct LauncherAuth {
    pub guid: String,
    pub password: String,
}

impl Default for LauncherAuth {
    /// No user name and no password.
    fn default() -> (r: Self)
        ensures
            r.guid@ == Seq::<char>::empty(),
            r.password@ == Seq::<char>::empty(),
    {
        LauncherAuth { guid: String::new(), password: String::new() }
    }
}

/// The sign-ins the launcher keeps, and which of them is in use.
#[derive(Debug)]
pub struct SavedLauncherAuth {
    pub saved: Vec<LauncherAuth>,
    pub current: usize,
}

impl Default for SavedLauncherAuth {
    /// No saved sign-ins; the first would be in use.
    fn default() -> (r: Self)
        ensures
            r.saved@.len() == 0,
            r.current == 0,
    {
        SavedLauncherAuth { saved: Vec::new(), current: 0 }
    }
}

impl SavedLauncherAuth {
    /// The sign-in in use, if `current` points at a saved one.
    pub fn current_auth(&self) -> (r: Option<&LauncherAuth>)
        ensures
            self.current < self.saved@.len() ==> r == Some(&self.saved@[self.current as int]),
            self.current >= self.saved@.len() ==> r is None,
    {
        if self.current < self.saved.len() {
            Some(&self.saved[self.current])
        } else {
            None
        }
    }
}

/// What `sha1::Sha1::digest` returns for a byte sequence: its SHA-1 digest.
pub uninterp spec fn sha1_of(data: Seq<u8>) -> Seq<u8>;

/// Calls `sha1::Sha1::digest` and hands back the 20 bytes of the digest,
/// which the contract names `sha1_of` of the input.
#[verifier::external_body]
fn sha1_digest(data: &[u8]) -> (r: Vec<u8>)
    ensures
        r@ == sha1_of(data@),
        r@.len() == 20,
{
    sha1::Sha1::digest(data).to_vec()
}

/// What the device token is made from: the baseboard's and the system's
/// serial numbers, or `None0` when both are missing or empty, followed by
/// the operating system's product id when there is one.
pub open spec fn device_token_input(
    baseboard_serial: Option<Seq<char>>,
    system_serial: Option<Seq<char>>,
    product_id: Option<Seq<char>>,
) -> Seq<char> {
    let serials = match baseboard_serial {
        Some(b) => b,
        None => Seq::<char>::empty(),
    } + match system_serial {
        Some(s) => s,
        None => Seq::<char>::empty(),
    };
    let base = if serials.len() == 0 {
        "None0"@
    } else {
        serials
    };
    base + match product_id {
        Some(p) => p,
        None => Seq::<char>::empty(),
    }
}

/// The device token hashes `None0` and the product id exactly when both
/// serial numbers are missing or empty, and otherwise the baseboard
/// serial, the system serial and the product id, one after the other.
pub proof fn lemma_device_token_input(
    baseboard_serial: Option<Seq<char>>,
    system_serial: Option<Seq<char>>,
    product_id: Option<Seq<char>>,
)
    ensures
        ({
            let b = if baseboard_serial is Some { baseboard_serial->0 } else { Seq::<char>::empty() };
            let s = if system_serial is Some { system_serial->0 } else { Seq::<char>::empty() };
            let p = if product_id is Some { product_id->0 } else { Seq::<char>::empty() };
            let r = device_token_input(baseboard_serial, system_serial, product_id);
            &&& b.len() == 0 && s.len() == 0 ==> r == "None0"@ + p
            &&& b.len() > 0 || s.len() > 0 ==> r == b + s + p
        }),
{
}

/// Lifts an optional string to its view.
pub open spec fn opt_view(s: Option<&str>) -> Option<Seq<char>> {
    match s {
        Some(x) => Some(x@),
        None => None,
    }
}

/// The string the device token hashes (see `device_token_input`).
pub fn device_token_source(
    baseboard_serial: Option<&str>,
    system_serial: Option<&str>,
    product_id: Option<&str>,
) -> (r: String)
    ensures
        r@ == device_token_input(
            opt_view(baseboard_serial),
            opt_view(system_serial),
            opt_view(product_id),
        ),
{
    let mut concat = String::new();
    match baseboard_serial {
        Some(b) => concat.append(b),
        None => {},
    }
    match system_serial {
        Some(s) => concat.append(s),
        None => {},
    }
    if concat.as_str().is_empty() {
        concat.append("None0");
    }
    match product_id {
        Some(p) => concat.append(p),
        None => {},
    }
    assert(concat@ =~= device_token_input(
        opt_view(baseboard_serial),
        opt_view(system_serial),
        opt_view(product_id),
    ));
    concat
}

/// The token that identifies this device to the service: the lowercase
/// hexadecimal SHA-1 digest of the UTF-8 bytes of `device_token_input`.
pub fn device_token(
    baseboard_serial: Option<&str>,
    system_serial: Option<&str>,
    product_id: Option<&str>,
) -> (r: String)
    ensures
        r@ == hex_of(
            sha1_of(
                encode_utf8(
                    device_token_input(
                        opt_view(baseboard_serial),
                        opt_view(system_serial),
                        opt_view(product_id),
                    ),
                ),
            ),
        ),
        r@.len() == 40,
        forall|k: int| 0 <= k < r@.len() ==> is_lower_hex_digit(#[trigger] r@[k]),
{
    let source = device_token_source(baseboard_serial, system_serial, product_id);
    let digest = sha1_digest(source.as_str().as_bytes());
    encode_hex(digest.as_slice())
}

/// What `regex::Regex::new(pattern)` followed by `captures(text)` gives for
/// one group: the text of the group in the first match, or `None` when the
/// pattern is not a valid expression, nothing matches, or the group took no
/// part in the match.
pub uninterp spec fn regex_capture_of(pattern: Seq<char>, text: Seq<char>, group: nat) -> Option<
    Seq<char>,
>;

/// Compiles the pattern with `regex::Regex::new`, calls `captures` and
/// takes the group's text; the result is named `regex_capture_of`.
#[verifier::external_body]
fn regex_capture(pattern: &str, text: &str, group: usize) -> (r: Option<String>)
    ensures
        match r {
            Some(s) => regex_capture_of(pattern@, text@, group as nat) == Some(s@),
            None => regex_capture_of(pattern@, text@, group as nat) is None,
        },
{
    match regex::Regex::new(pattern) {
        Ok(re) => match re.captures(text) {
            Some(caps) => match caps.get(group) {
                Some(m) => Some(m.as_str().to_string()),
                None => None,
            },
            None => None,
        },
        Err(_) => None,
    }
}

/// The line after which `wmic os get SerialNumber` prints the serial number.
pub const SERIAL_NUMBER_PATTERN: &'static str = "SerialNumber\\s*\\r\\n([^\\s\\\\]*)";

/// The bytes without their zero bytes, in order.
pub open spec fn without_zeros(bytes: Seq<u8>) -> Seq<u8>
    decreases bytes.len(),
{
    if bytes.len() == 0 {
        seq![]
    } else if bytes.last() == 0 {
        without_zeros(bytes.drop_last())
    } else {
        without_zeros(bytes.drop_last()).push(bytes.last())
    }
}

/// Removes the zero bytes (the output of `wmic` is UTF-16).
pub fn strip_zero_bytes(bytes: &[u8]) -> (r: Vec<u8>)
    ensures
        r@ == without_zeros(bytes@),
{
    let mut r: Vec<u8> = Vec::new();
    let mut i: usize = 0;
    while i < bytes.len()
        invariant
            i <= bytes@.len(),
            r@ == without_zeros(bytes@.subrange(0, i as int)),
        decreases bytes@.len() - i,
    {
        assert(bytes@.subrange(0, i + 1).drop_last() =~= bytes@.subrange(0, i as int));
        if bytes[i] != 0 {
            r.push(bytes[i]);
        }
        i = i + 1;
    }
    assert(bytes@.subrange(0, bytes@.len() as int) =~= bytes@);
    r
}

/// The product id in the output of `wmic os get SerialNumber`: the output
/// without zero bytes, decoded as UTF-8 (lossily), and the first group of
/// `SERIAL_NUMBER_PATTERN` in it.
pub fn extract_serial_number(output: &[u8]) -> (r: Option<String>)
    ensures
        match r {
            Some(s) => regex_capture_of(
                SERIAL_NUMBER_PATTERN@,
                utf8_lossy_of(without_zeros(output@)),
                1,
            ) == Some(s@),
            None => regex_capture_of(
                SERIAL_NUMBER_PATTERN@,
                utf8_lossy_of(without_zeros(output@)),
                1,
            ) is None,
        },
{
    let stripped = strip_zero_bytes(output);
    let text = from_utf8_lossy(stripped.as_slice());
    regex_capture(SERIAL_NUMBER_PATTERN, text.as_str(), 1)
}

/// A predicate together with a count of the items it has been asked about.
pub struct WithIndex<F> {
    pub f: F,
    pub index: usize,
}

/// A predicate on items made from one on (index, item): the n-th item it
/// is asked about is passed on with index n, counting from 0.
pub fn with_index<F>(f: F) -> (r: WithIndex<F>)
    ensures
        r.f == f,
        r.index == 0,
{
    WithIndex { f, index: 0 }
}

impl<F> WithIndex<F> {
    /// Asks the predicate about the next item, with its index.
    pub fn call<T>(&mut self, item: &T) -> (r: bool) where F: Fn(usize, &T) -> bool
        requires
            old(self).index < usize::MAX,
            call_requires(old(self).f, (old(self).index, item)),
        ensures
            call_ensures(old(self).f, (old(self).index, item), r),
            final(self).index == old(self).index + 1,
            final(self).f == old(self).f,
    {
        let r = (self.f)(self.index, item);
        self.index = self.index + 1;
        r
    }

    /// Asks the predicate about each item in turn: the k-th item is handed
    /// on with the count of earlier items asked about plus k, and its answer
    /// is the k-th result.
    pub fn call_all<T>(&mut self, items: &Vec<T>) -> (r: Vec<bool>) where F: Fn(usize, &T) -> bool
        requires
            old(self).index + items@.len() <= usize::MAX,
            forall|k: int|
                0 <= k < items@.len() ==> call_requires(
                    old(self).f,
                    ((old(self).index + k) as usize, #[trigger] &items@[k]),
                ),
        ensures
            r@.len() == items@.len(),
            forall|k: int|
                0 <= k < items@.len() ==> call_ensures(
                    old(self).f,
                    ((old(self).index + k) as usize, #[trigger] &items@[k]),
                    r@[k],
                ),
            final(self).index == old(self).index + items@.len(),
            final(self).f == old(self).f,
    {
        let ghost start = self.index;
        let ghost f0 = self.f;
        let mut r: Vec<bool> = Vec::new();
        let mut i: usize = 0;
        while i < items.len()
            invariant
                i <= items@.len(),
                self.index == start + i,
                self.f == f0,
                start + items@.len() <= usize::MAX,
                r@.len() == i,
                forall|k: int|
                    0 <= k < items@.len() ==> call_requires(
                        f0,
                        ((start + k) as usize, #[trigger] &items@[k]),
                    ),
                forall|k: int|
                    0 <= k < i ==> call_ensures(
                        f0,
                        ((start + k) as usize, #[trigger] &items@[k]),
                        r@[k],
                    ),
            decreases items@.len() - i,
        {
            assert(call_requires(f0, ((start + i) as usize, &items@[i as int])));
            let b = self.call(&items[i]);
            r.push(b);
            i = i + 1;
        }
        r
    }
}

} // verus!
