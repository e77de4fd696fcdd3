//! Downloading the game: where each file is fetched from, whether a file
//! on disk is current, unpacking, and how often a file is retried.

use std::io::Read;

use vstd::prelude::*;
use vstd::string::StringExecFns;

use crate::client::auth::steamworks::{encode_hex, hex_of};
use crate::text::str_eq;

pub mod err;

use err::UpdateError;

verus! {

/// One game file and the MD5 checksum (lowercase hexadecimal) it must have.
#[derive(Debug)]
pub struct File {
    pub file: String,
    pub checksum: String,
}

/// The file list of a build.
#[derive(Debug)]
pub struct ChecksumFiles {
    pub files: Vec<File>,
}

/// What `md5::compute` returns for a byte sequence: its MD5 digest.
pub uninterp spec fn md5_of(data: Seq<u8>) -> Seq<u8>;

/// Calls `md5::compute` and hands back the 16 bytes of the digest, which
/// the contract names `md5_of` of the input.
#[verifier::external_body]
fn md5_digest(data: &[u8]) -> (r: Vec<u8>)
    ensures
        r@ == md5_of(data@),
        r@.len() == 16,
{
    md5::compute(data).0.to_vec()
}

/// What reading a `flate2::read::MultiGzDecoder` over a byte sequence to
/// the end gives: the decompressed contents of all its gzip members, or,
/// when the data is not valid gzip, the text of the I/O error it reports.
pub uninterp spec fn gunzip_of(data: Seq<u8>) -> Result<Seq<u8>, Seq<char>>;

/// Reads a `flate2::read::MultiGzDecoder` over the bytes to the end, and
/// hands back the contents or the error's text; the result is named
/// `gunzip_of` of the input.
#[verifier::external_body]
fn gunzip(data: &[u8]) -> (r: Result<Vec<u8>, String>)
    ensures
        match r {
            Ok(v) => gunzip_of(data@) == Ok::<Seq<u8>, Seq<char>>(v@),
            Err(e) => gunzip_of(data@) == Err::<Seq<u8>, Seq<char>>(e@),
        },
{
    let mut out = Vec::new();
    match flate2::read::MultiGzDecoder::new(data).read_to_end(&mut out) {
        Ok(_) => Ok(out),
        Err(e) => Err(e.to_string()),
    }
}

/// Whether file contents match a checksum: the checksum is the lowercase
/// hexadecimal form of the contents' MD5 digest.
pub fn checksum_matches(checksum: &str, contents: &[u8]) -> (r: bool)
    ensures
        r == (checksum@ == hex_of(md5_of(contents@))),
{
    let digest = md5_digest(contents);
    digest_matches(checksum, digest.as_slice())
}

/// Whether a checksum is the lowercase hexadecimal form of a digest.
pub fn digest_matches(checksum: &str, digest: &[u8]) -> (r: bool)
    ensures
        r == (checksum@ == hex_of(digest@)),
{
    let hex = encode_hex(digest);
    str_eq(checksum, hex.as_str())
}

/// The name under which a file is served: the file name and `.gz`.
pub fn compressed_file_name(file: &str) -> (r: String)
    ensures
        r@ == file@ + ".gz"@,
{
    let mut r = String::from_str(file);
    r.append(".gz");
    r
}

/// Where a file of a build is served, relative to the build server:
/// `build-release/<build hash>/<platform>/<file>`.
pub fn build_release_path(build_hash: &str, platform: &str, file: &str) -> (r: String)
    ensures
        r@ == "build-release/"@ + build_hash@ + "/"@ + platform@ + "/"@ + file@,
{
    let mut r = String::from_str("build-release/");
    r.append(build_hash);
    r.append("/");
    r.append(platform);
    r.append("/");
    r.append(file);
    r
}

/// The address of the build server.
pub const BUILD_SERVER: &'static str = "https://rotmg-build.decagames.com/";

/// The full address of a file of a build: the build server's address
/// followed by `build-release/<build hash>/<platform>/<file>`.
pub fn build_file_url(build_hash: &str, platform: &str, file: &str) -> (r: String)
    ensures
        r@ == BUILD_SERVER@ + "build-release/"@ + build_hash@ + "/"@ + platform@ + "/"@ + file@,
{
    let mut r = String::from_str(BUILD_SERVER);
    let path = build_release_path(build_hash, platform, file);
    r.append(path.as_str());
    assert(r@ =~= BUILD_SERVER@ + "build-release/"@ + build_hash@ + "/"@ + platform@ + "/"@ + file@);
    r
}

/// The contents of a downloaded file, unpacked from gzip, or the text of
/// the decoder's error when the download is not valid gzip.
pub fn unpack_download(compressed: &[u8]) -> (r: Result<Vec<u8>, String>)
    ensures
        match r {
            Ok(v) => gunzip_of(compressed@) == Ok::<Seq<u8>, Seq<char>>(v@),
            Err(e) => gunzip_of(compressed@) == Err::<Seq<u8>, Seq<char>>(e@),
        },
{
    gunzip(compressed)
}

/// The error given when a file still does not match its checksum after
/// being downloaded: `Failed to download <file>`.
pub fn failed_download_error(file: &str) -> (e: UpdateError)
    ensures
        e.0@ == "Failed to download "@ + file@,
{
    let mut msg = String::from_str("Failed to download ");
    msg.append(file);
    UpdateError(msg)
}

/// What one check-and-fetch of a file found.
#[derive(Clone, Copy, Debug, PartialEq, Eq, Structural)]
pub enum FetchOutcome {
    /// The file on disk matched its checksum; nothing was fetched.
    AlreadyValid,
    /// The file did not match and was fetched and written anew.
    Replaced,
    /// Checking or fetching the file failed.
    Failed,
}

/// What to do next with a file.
#[derive(Clone, Copy, Debug, PartialEq, Eq, Structural)]
pub enum RetryStep {
    /// Check and fetch the file again.
    Fetch,
    /// The file is current.
    Done,
    /// Give up on the file. `unverified` is true when the last attempt
    /// failed because the file still did not match after a fetch (the error
    /// is then `Failed to download <file>`), false when it failed with the
    /// error of the fetch itself.
    GiveUp { unverified: bool },
}

/// The number of retries after a file's first attempt.
pub const MAX_RETRIES: u8 = 2;

/// Where the download of one file stands: which attempt (from 0 to
/// `MAX_RETRIES`), and which check-and-fetch within it (0 or 1).
#[derive(Clone, Copy, Debug, PartialEq, Eq, Structural)]
pub struct RetryState {
    pub attempt: u8,
    pub check: u8,
}

/// Within the bounds of the retry policy.
pub open spec fn retry_wf(s: RetryState) -> bool {
    s.attempt <= MAX_RETRIES && s.check <= 1
}

/// How many check-and-fetches have happened before the current one.
pub open spec fn fetches_before(s: RetryState) -> int {
    2 * s.attempt + s.check
}

/// An attempt has failed: the next attempt starts, or, after the last, the
/// file is given up.
pub open spec fn after_failed_attempt(s: RetryState, unverified: bool) -> (RetryState, RetryStep) {
    if s.attempt >= MAX_RETRIES {
        (s, RetryStep::GiveUp { unverified })
    } else {
        (RetryState { attempt: (s.attempt + 1) as u8, check: 0 }, RetryStep::Fetch)
    }
}

/// The retry policy. An attempt checks and fetches a file up to twice: a
/// file that matches is done; one that was fetched is checked once more;
/// one still not matching after that, or a failed fetch, fails the
/// attempt. A failed attempt is retried up to `MAX_RETRIES` times.
pub open spec fn spec_next(s: RetryState, outcome: FetchOutcome) -> (RetryState, RetryStep) {
    match outcome {
        FetchOutcome::AlreadyValid => (s, RetryStep::Done),
        FetchOutcome::Replaced => if s.check == 0 {
            (RetryState { attempt: s.attempt, check: 1 }, RetryStep::Fetch)
        } else {
            after_failed_attempt(s, true)
        },
        FetchOutcome::Failed => after_failed_attempt(s, false),
    }
}

impl RetryState {
    /// The first check-and-fetch of the first attempt.
    pub fn new() -> (s: RetryState)
        ensures
            s == (RetryState { attempt: 0, check: 0 }),
    {
        RetryState { attempt: 0, check: 0 }
    }

    /// Records the outcome of the current check-and-fetch and says what to
    /// do next.
    pub fn next(&mut self, outcome: FetchOutcome) -> (step: RetryStep)
        requires
            retry_wf(*old(self)),
        ensures
            (*final(self), step) == spec_next(*old(self), outcome),
            retry_wf(*final(self)),
            step is Fetch ==> fetches_before(*final(self)) > fetches_before(*old(self)),
    {
        match outcome {
            FetchOutcome::AlreadyValid => RetryStep::Done,
            FetchOutcome::Replaced => {
                if self.check == 0 {
                    self.check = 1;
                    RetryStep::Fetch
                } else {
                    self.fail_attempt(true)
                }
            },
            FetchOutcome::Failed => self.fail_attempt(false),
        }
    }

    fn fail_attempt(&mut self, unverified: bool) -> (step: RetryStep)
        requires
            retry_wf(*old(self)),
        ensures
            (*final(self), step) == after_failed_attempt(*old(self), unverified),
            retry_wf(*final(self)),
    {
        if self.attempt >= MAX_RETRIES {
            RetryStep::GiveUp { unverified }
        } else {
            self.attempt = self.attempt + 1;
            self.check = 0;
            RetryStep::Fetch
        }
    }
}

/// A file is checked and fetched at most six times: every further
/// check-and-fetch the policy asks for comes with a larger count of
/// earlier ones, and that count stays below six.
pub proof fn lemma_retry_bounded(s: RetryState, outcome: FetchOutcome)
    requires
        retry_wf(s),
    ensures
        0 <= fetches_before(s) < 6,
        spec_next(s, outcome).1 is Fetch ==> retry_wf(spec_next(s, outcome).0) && fetches_before(
            spec_next(s, outcome).0,
        ) > fetches_before(s),
{
}

/// Every attempt begins with its first check-and-fetch; a file that was
/// fetched is checked once more within the same attempt; and a file is
/// given up as not matching only after it was fetched and then fetched
/// again in that same attempt.
pub proof fn lemma_retry_attempts(s: RetryState, outcome: FetchOutcome)
    requires
        retry_wf(s),
    ensures
        ({
            let (n, step) = spec_next(s, outcome);
            &&& step is Fetch && n.attempt != s.attempt ==> n.attempt == s.attempt + 1 && n.check
                == 0
            &&& outcome is Failed && s.attempt < MAX_RETRIES ==> step is Fetch && n.attempt
                == s.attempt + 1 && n.check == 0
            &&& outcome is Replaced && s.check == 0 ==> step is Fetch && n.attempt == s.attempt
                && n.check == 1
            &&& step == (RetryStep::GiveUp { unverified: true }) ==> outcome is Replaced && s.check
                == 1
        }),
{
}

/// A file is done exactly when the check found it matching, and it is
/// given up only in its last attempt.
pub proof fn lemma_retry_outcomes(s: RetryState, outcome: FetchOutcome)
    requires
        retry_wf(s),
    ensures
        spec_next(s, outcome).1 is Done <==> outcome is AlreadyValid,
        spec_next(s, outcome).1 is GiveUp ==> s.attempt == MAX_RETRIES && outcome !is AlreadyValid,
        spec_next(s, outcome).1 matches RetryStep::GiveUp { unverified } ==> (unverified
            <==> outcome is Replaced),
{
}

} // verus!
