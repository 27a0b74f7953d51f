use std::io::{Read, Write};

use sha2::Digest;
use vstd::prelude::*;

use crate::utils::text::{chars_of, decimal, push_char, push_decimal, str_eq};

verus! {

// ---------------------------------------------------------------------------------------
// Outside computations: gzip (flate2) and SHA-256 (sha2)
// ---------------------------------------------------------------------------------------

/// What reading at most `cap` bytes from flate2's `GzDecoder` over `data` yields:
/// `Some` of the bytes read, or `None` when the read fails.
pub uninterp spec fn gz_decoded_prefix(data: Seq<u8>, cap: nat) -> Option<Seq<u8>>;

/// The SHA-256 digest of `data`, as computed by the sha2 crate.
pub uninterp spec fn sha256_digest(data: Seq<u8>) -> Seq<u8>;

/// The first `cap` bytes of `data` (all of it when it is shorter).
pub open spec fn prefix(data: Seq<u8>, cap: nat) -> Seq<u8> {
    if data.len() <= cap {
        data
    } else {
        data.take(cap as int)
    }
}

/// Compresses `data` with flate2's `GzEncoder` (`write_all`, then `finish`) into a fresh
/// `Vec`. Claims: it succeeds (the encoder only fails on an I/O error of the writer it
/// wraps, and writing into a `Vec` has none), and decoding the result again with flate2's
/// `GzDecoder`, reading at most `cap` bytes, gives back the first `cap` bytes of `data`.
/// Which compressed bytes come out is not stated: deflate runs in the zlib that the system
/// links, and its output differs between zlib releases. The `Err` arm only carries the
/// `io::Error`'s message through.
#[verifier::external_body]
fn gz_encode(data: &[u8]) -> (res: Result<Vec<u8>, String>)
    ensures
        res is Ok,
        res matches Ok(z) ==> forall|cap: nat| #[trigger]
            gz_decoded_prefix(z@, cap) == Some(prefix(data@, cap)),
{
    let mut encoder = flate2::write::GzEncoder::new(Vec::new(), flate2::Compression::default());
    encoder.write_all(data).map_err(|e| e.to_string())?;
    encoder.finish().map_err(|e| e.to_string())
}

/// Reads at most `cap` bytes out of flate2's `GzDecoder` over `data` (`take(cap)` then
/// `read_to_end`). Claims: the outcome is `gz_decoded_prefix(data, cap)`, and no more than
/// `cap` bytes come back (as `Take` documents). On failure, the `io::Error`'s message is
/// handed back; which message it is, is not stated.
#[verifier::external_body]
fn gz_decode_capped(data: &[u8], cap: u64) -> (res: Result<Vec<u8>, String>)
    ensures
        res is Ok <==> gz_decoded_prefix(data@, cap as nat) is Some,
        res matches Ok(out) ==> gz_decoded_prefix(data@, cap as nat) == Some(out@),
        res matches Ok(out) ==> out@.len() <= cap,
{
    let mut out = Vec::new();
    flate2::read::GzDecoder::new(data).take(cap).read_to_end(&mut out).map_err(|e| e.to_string())?;
    Ok(out)
}

/// SHA-256 of `data` through the sha2 crate's `Sha256::digest`. Claims: the result is
/// `sha256_digest(data)` and is 32 bytes long (the digest's fixed output size).
#[verifier::external_body]
fn sha256(data: &[u8]) -> (res: Vec<u8>)
    ensures
        res@ == sha256_digest(data@),
        res@.len() == 32,
{
    sha2::Sha256::digest(data).to_vec()
}

// ---------------------------------------------------------------------------------------
// Errors
// ---------------------------------------------------------------------------------------

/// Why preparing or applying a sync failed.
#[derive(Debug, PartialEq, Eq)]
pub enum SyncError {
    /// Gzip compression of the local database failed (the compressor's message).
    Compress(String),
    /// The repo's blob could not be gunzipped (the decompressor's message).
    Decompress(String),
    /// The repo's blob expands past `MAX_DB_BYTES`.
    TooLarge,
    /// The repo has no database file to restore.
    MissingRemoteFile,
}

impl SyncError {
    /// The message shown to the user.
    pub fn message(&self) -> (res: String)
        ensures
            self is TooLarge ==> res@ == too_large_message(),
            self is MissingRemoteFile ==> res@ == "the sync repo's database file is missing"@,
            self matches SyncError::Compress(m) ==> res@ == m@,
            self matches SyncError::Decompress(m) ==> res@ == m@,
    {
        match self {
            SyncError::Compress(m) => m.clone(),
            SyncError::Decompress(m) => m.clone(),
            SyncError::TooLarge => {
                let mut out = "the sync repo's database expands to more than ".to_owned();
                push_decimal(&mut out, MAX_DB_BYTES / 1024 / 1024);
                out.append(" MiB; refusing to unpack it");
                out
            },
            SyncError::MissingRemoteFile => "the sync repo's database file is missing".to_owned(),
        }
    }
}

/// The message for a blob that expands past `MAX_DB_BYTES`, which it names in MiB.
pub open spec fn too_large_message() -> Seq<char> {
    "the sync repo's database expands to more than "@ + decimal((MAX_DB_BYTES / 1024 / 1024) as nat)
        + " MiB; refusing to unpack it"@
}

// ---------------------------------------------------------------------------------------
// gzip / gunzip / hash
// ---------------------------------------------------------------------------------------

/// Largest database `gunzip` will expand to. A gzip stream can expand by
/// ~1000x, so decompressing the repo's blob unbounded lets a malformed or
/// tampered-with file exhaust memory before anything checks it.
pub const MAX_DB_BYTES: u64 = 512 * 1024 * 1024;

/// Why a blob could not be unpacked.
#[derive(Debug, Clone, Copy, PartialEq, Eq)]
pub enum UnpackFailure {
    /// The blob is not a readable gzip stream.
    Unreadable,
    /// The blob expands past `MAX_DB_BYTES`.
    TooLarge,
}

/// What `gunzip` makes of `data`: the database, or why it refuses.
pub open spec fn gunzip_outcome(data: Seq<u8>) -> Result<Seq<u8>, UnpackFailure> {
    match gz_decoded_prefix(data, (MAX_DB_BYTES + 1) as nat) {
        None => Err(UnpackFailure::Unreadable),
        Some(out) => if out.len() > MAX_DB_BYTES {
            Err(UnpackFailure::TooLarge)
        } else {
            Ok(out)
        },
    }
}

/// Compresses `data` with gzip. It always succeeds.
///
/// Whatever comes out unpacks with `gunzip` to `data` again when `data` is no larger than
/// `MAX_DB_BYTES`, and is refused as too large otherwise.
pub fn gzip(data: &[u8]) -> (res: Result<Vec<u8>, SyncError>)
    ensures
        res is Ok,
        res matches Ok(z) ==> gunzip_outcome(z@) == (if data@.len() <= MAX_DB_BYTES {
            Ok::<Seq<u8>, UnpackFailure>(data@)
        } else {
            Err::<Seq<u8>, UnpackFailure>(UnpackFailure::TooLarge)
        }),
{
    match gz_encode(data) {
        Ok(z) => {
            proof {
                let cap = (MAX_DB_BYTES + 1) as nat;
                assert(gz_decoded_prefix(z@, cap) == Some(prefix(data@, cap)));
            }
            Ok(z)
        },
        Err(m) => Err(SyncError::Compress(m)),
    }
}

/// Decompresses gzip-compressed `data`, refusing anything over `MAX_DB_BYTES`.
pub fn gunzip(data: &[u8]) -> (res: Result<Vec<u8>, SyncError>)
    ensures
        match gunzip_outcome(data@) {
            Ok(out) => res matches Ok(v) && v@ == out,
            Err(UnpackFailure::TooLarge) => res == Err::<Vec<u8>, SyncError>(SyncError::TooLarge),
            Err(UnpackFailure::Unreadable) => res matches Err(e) && e is Decompress,
        },
{
    // Read one byte past the cap so a file sitting exactly on it still fails
    // rather than being silently truncated into a corrupt database.
    match gz_decode_capped(data, MAX_DB_BYTES + 1) {
        Err(m) => Err(SyncError::Decompress(m)),
        Ok(out) => {
            if out.len() as u64 > MAX_DB_BYTES {
                Err(SyncError::TooLarge)
            } else {
                Ok(out)
            }
        },
    }
}

/// The lowercase hex digit for `n` (`0 <= n < 16`).
pub open spec fn hex_digit(n: u8) -> char {
    if n < 10 {
        (48 + n) as char
    } else {
        (87 + n) as char
    }
}

/// Lowercase hex encoding: two digits per byte, high nibble first.
pub open spec fn hex_lower(bytes: Seq<u8>) -> Seq<char>
    decreases bytes.len(),
{
    if bytes.len() == 0 {
        Seq::empty()
    } else {
        let b = bytes.last();
        hex_lower(bytes.drop_last()).push(hex_digit(b / 16)).push(hex_digit(b % 16))
    }
}

fn hex_char(n: u8) -> (c: char)
    requires
        n < 16,
    ensures
        c == hex_digit(n),
{
    if n < 10 {
        (48 + n) as char
    } else {
        (87 + n) as char
    }
}

/// Lowercase hex encoding of `bytes`.
pub fn to_hex_lower(bytes: &[u8]) -> (res: String)
    ensures
        res@ == hex_lower(bytes@),
{
    let mut res = String::new();
    let mut i: usize = 0;
    while i < bytes.len()
        invariant
            i <= bytes@.len(),
            res@ == hex_lower(bytes@.take(i as int)),
        decreases bytes.len() - i,
    {
        let b = bytes[i];
        assert(bytes@.take(i + 1).drop_last() =~= bytes@.take(i as int));
        push_char(&mut res, hex_char(b / 16));
        push_char(&mut res, hex_char(b % 16));
        i = i + 1;
    }
    assert(bytes@.take(bytes@.len() as int) =~= bytes@);
    res
}

/// A lowercase hex digit: `0`–`9` or `a`–`f`.
pub open spec fn is_lower_hex_digit(c: char) -> bool {
    ('0' <= c && c <= '9') || ('a' <= c && c <= 'f')
}

/// Hex encoding gives two lowercase hex digits per byte.
pub proof fn lemma_hex_lower_shape(bytes: Seq<u8>)
    ensures
        hex_lower(bytes).len() == 2 * bytes.len(),
        forall|i: int| 0 <= i < hex_lower(bytes).len() ==> is_lower_hex_digit(
            #[trigger] hex_lower(bytes)[i],
        ),
    decreases bytes.len(),
{
    if bytes.len() > 0 {
        lemma_hex_lower_shape(bytes.drop_last());
        let b = bytes.last();
        assert(is_lower_hex_digit(hex_digit(b / 16)));
        assert(is_lower_hex_digit(hex_digit(b % 16)));
        let prev = hex_lower(bytes.drop_last());
        assert forall|i: int| 0 <= i < hex_lower(bytes).len() implies is_lower_hex_digit(
            #[trigger] hex_lower(bytes)[i],
        ) by {
            if i < prev.len() {
                assert(hex_lower(bytes)[i] == prev[i]);
            }
        }
    }
}

/// The hash the sync compares: lowercase hex of the SHA-256 of a blob.
pub open spec fn blob_hash(data: Seq<u8>) -> Seq<char> {
    hex_lower(sha256_digest(data))
}

/// Returns the lowercase hex-encoded SHA-256 hash of `data`: 64 lowercase hex digits.
pub fn hash(data: &[u8]) -> (res: String)
    ensures
        res@ == blob_hash(data@),
        res@.len() == 64,
        forall|i: int| 0 <= i < res@.len() ==> is_lower_hex_digit(#[trigger] res@[i]),
{
    let digest = sha256(data);
    proof {
        lemma_hex_lower_shape(digest@);
    }
    to_hex_lower(digest.as_slice())
}

// ---------------------------------------------------------------------------------------
// Deciding what a sync does
// ---------------------------------------------------------------------------------------

/// What a sync does once the local and remote hashes are known.
#[derive(Clone, Copy, Debug, PartialEq, Eq, Structural)]
pub enum SyncPlan {
    /// The repo has nothing pushed yet: push, without comparing anything.
    PushToEmptyRepo,
    /// Neither side changed since the last sync.
    UpToDate,
    /// Only the local database changed.
    Push,
    /// Only the repo changed.
    Pull,
    /// Both changed: the user has to pick a side.
    AskUser,
}

impl SyncPlan {
    /// The line printed once the comparison has decided the plan.
    pub fn announcement(&self) -> (res: &'static str)
        ensures
            res@ == match *self {
                SyncPlan::PushToEmptyRepo => "repo on github is empty — pushing"@,
                SyncPlan::UpToDate => "nothing changed since the last sync, already up to date"@,
                SyncPlan::Push => "local database changed, github did not — pushing"@,
                SyncPlan::Pull => "database on github changed, local did not — pulling"@,
                SyncPlan::AskUser => "both the local database and the github repo have changed since the last sync."@,
            },
    {
        match self {
            SyncPlan::PushToEmptyRepo => "repo on github is empty — pushing",
            SyncPlan::UpToDate => "nothing changed since the last sync, already up to date",
            SyncPlan::Push => "local database changed, github did not — pushing",
            SyncPlan::Pull => "database on github changed, local did not — pulling",
            SyncPlan::AskUser => "both the local database and the github repo have changed since the last sync.",
        }
    }
}

/// The commit message of a push made at the moment written as `when`.
pub fn commit_message(when: &str) -> (res: String)
    ensures
        res@ == "sync: "@ + when@,
{
    let mut out = "sync: ".to_owned();
    out.append(when);
    out
}

pub open spec fn opt_str_view(o: Option<&str>) -> Option<Seq<char>> {
    match o {
        Some(s) => Some(s@),
        None => None,
    }
}

pub open spec fn opt_string_view(o: Option<String>) -> Option<Seq<char>> {
    match o {
        Some(s) => Some(s@),
        None => None,
    }
}

/// The local database differs from what was last synced.
pub open spec fn local_changed(local: Seq<char>, last: Option<Seq<char>>) -> bool {
    last != Some(local)
}

/// The repo's copy differs from what was last synced.
pub open spec fn remote_changed(remote: Option<Seq<char>>, last: Option<Seq<char>>) -> bool {
    remote != last
}

/// The sync plan: an empty repo is pushed to unconditionally; otherwise local and remote
/// are each compared with the last synced hash (never with each other).
pub open spec fn sync_plan(
    local: Seq<char>,
    remote: Option<Seq<char>>,
    last: Option<Seq<char>>,
) -> SyncPlan {
    if remote is None {
        SyncPlan::PushToEmptyRepo
    } else {
        let l = local_changed(local, last);
        let r = remote_changed(remote, last);
        if !l && !r {
            SyncPlan::UpToDate
        } else if l && !r {
            SyncPlan::Push
        } else if !l && r {
            SyncPlan::Pull
        } else {
            SyncPlan::AskUser
        }
    }
}

fn opt_str_eq(a: Option<&str>, b: Option<&str>) -> (res: bool)
    ensures
        res == (opt_str_view(a) == opt_str_view(b)),
{
    match (a, b) {
        (Some(x), Some(y)) => str_eq(x, y),
        (None, None) => true,
        _ => false,
    }
}

/// Decides what a sync does from the hash of the local database, the hash of the repo's
/// copy (`None` when nothing was ever pushed) and the hash recorded after the last
/// successful sync.
pub fn plan_sync(local_hash: &str, remote_hash: Option<&str>, last_synced_hash: Option<&str>) -> (res:
    SyncPlan)
    ensures
        res == sync_plan(local_hash@, opt_str_view(remote_hash), opt_str_view(last_synced_hash)),
{
    if remote_hash.is_none() {
        return SyncPlan::PushToEmptyRepo;
    }
    let local_changed = !opt_str_eq(last_synced_hash, Some(local_hash));
    let remote_changed = !opt_str_eq(remote_hash, last_synced_hash);
    match (local_changed, remote_changed) {
        (false, false) => SyncPlan::UpToDate,
        (true, false) => SyncPlan::Push,
        (false, true) => SyncPlan::Pull,
        (true, true) => SyncPlan::AskUser,
    }
}

/// Everything a sync needs once the local database and the repo's blob have been read.
pub struct SyncComparison {
    /// The local database, gzipped.
    pub local_gz: Vec<u8>,
    /// Hash of `local_gz`.
    pub local_hash: String,
    /// The repo's blob, if anything was ever pushed.
    pub remote_gz: Option<Vec<u8>>,
    /// Hash of `remote_gz`.
    pub remote_hash: Option<String>,
    /// What the sync does.
    pub plan: SyncPlan,
}

/// Gzips and hashes the local database `db`, hashes the repo's blob `remote_gz`, and
/// decides, against `last_synced_hash`, whether to push, pull, do nothing or ask.
pub fn compare(db: &[u8], remote_gz: Option<Vec<u8>>, last_synced_hash: Option<String>) -> (res:
    Result<SyncComparison, SyncError>)
    ensures
        res is Ok,
        res matches Ok(c) ==> {
            &&& gunzip_outcome(c.local_gz@) == (if db@.len() <= MAX_DB_BYTES {
                Ok::<Seq<u8>, UnpackFailure>(db@)
            } else {
                Err::<Seq<u8>, UnpackFailure>(UnpackFailure::TooLarge)
            })
            &&& c.local_hash@ == blob_hash(c.local_gz@)
            &&& c.remote_gz == remote_gz
            &&& c.remote_hash is Some <==> remote_gz is Some
            &&& remote_gz matches Some(r) ==> c.remote_hash->0@ == blob_hash(r@)
            &&& c.plan == sync_plan(
                c.local_hash@,
                opt_string_view(c.remote_hash),
                opt_string_view(last_synced_hash),
            )
        },
{
    let local_gz = gzip(db)?;
    let local_hash = hash(local_gz.as_slice());
    let remote_hash = match &remote_gz {
        Some(r) => Some(hash(r.as_slice())),
        None => None,
    };
    let remote_ref: Option<&str> = match &remote_hash {
        Some(h) => Some(h.as_str()),
        None => None,
    };
    let last_ref: Option<&str> = match &last_synced_hash {
        Some(h) => Some(h.as_str()),
        None => None,
    };
    let plan = plan_sync(local_hash.as_str(), remote_ref, last_ref);
    Ok(SyncComparison { local_gz, local_hash, remote_gz, remote_hash, plan })
}

/// Unpacks the repo's blob for restoring the local database.
pub fn restore_blob(gz: Option<Vec<u8>>) -> (res: Result<Vec<u8>, SyncError>)
    ensures
        gz is None ==> res == Err::<Vec<u8>, SyncError>(SyncError::MissingRemoteFile),
        gz matches Some(g) ==> match gunzip_outcome(g@) {
            Ok(out) => res matches Ok(v) && v@ == out,
            Err(UnpackFailure::TooLarge) => res == Err::<Vec<u8>, SyncError>(SyncError::TooLarge),
            Err(UnpackFailure::Unreadable) => res matches Err(e) && e is Decompress,
        },
{
    match gz {
        None => Err(SyncError::MissingRemoteFile),
        Some(g) => gunzip(g.as_slice()),
    }
}

/// After pushing, the hash recorded is the pushed one and the repo holds exactly that
/// blob, so the next sync finds nothing to do.
pub proof fn lemma_sync_after_push_is_up_to_date(pushed_hash: Seq<char>)
    ensures
        sync_plan(pushed_hash, Some(pushed_hash), Some(pushed_hash)) == SyncPlan::UpToDate,
{
}

/// An empty repo is always pushed to, whatever hash a previous sync left behind.
pub proof fn lemma_empty_repo_is_pushed(local: Seq<char>, last: Option<Seq<char>>)
    ensures
        sync_plan(local, None, last) == SyncPlan::PushToEmptyRepo,
{
}

/// A conflict is never resolved automatically: when both sides changed since the last
/// sync, the plan is to ask, and no plan overwrites a side that changed unless the other
/// side did not.
pub proof fn lemma_conflicts_are_never_resolved_automatically(
    local: Seq<char>,
    remote: Option<Seq<char>>,
    last: Option<Seq<char>>,
)
    ensures
        remote is Some && local_changed(local, last) && remote_changed(remote, last) ==> sync_plan(
            local,
            remote,
            last,
        ) == SyncPlan::AskUser,
        sync_plan(local, remote, last) == SyncPlan::Push ==> !remote_changed(remote, last),
        sync_plan(local, remote, last) == SyncPlan::Pull ==> !local_changed(local, last),
{
}

/// Which way a local/remote drift is decided, in terms of what was last synced: a side
/// counts as changed exactly when its hash differs from the last synced one.
pub proof fn lemma_plan_follows_last_synced(local: Seq<char>, remote: Seq<char>, last: Seq<char>)
    ensures
        sync_plan(local, Some(remote), Some(last)) == (if local == last && remote == last {
            SyncPlan::UpToDate
        } else if remote == last {
            SyncPlan::Push
        } else if local == last {
            SyncPlan::Pull
        } else {
            SyncPlan::AskUser
        }),
{
}

// ---------------------------------------------------------------------------------------
// The answer to a conflict prompt
// ---------------------------------------------------------------------------------------

/// Which side the user keeps when both changed.
#[derive(Clone, Copy, Debug, PartialEq, Eq, Structural)]
pub enum ConflictChoice {
    /// Push, overwriting the repo.
    KeepLocal,
    /// Pull, overwriting the local database.
    KeepRemote,
    /// Do nothing on either side.
    Cancel,
}

/// The characters `str::trim` strips: Unicode `White_Space`.
pub open spec fn is_unicode_whitespace(c: char) -> bool {
    ||| ('\u{9}' <= c && c <= '\u{d}')
    ||| c == ' '
    ||| c == '\u{85}'
    ||| c == '\u{a0}'
    ||| c == '\u{1680}'
    ||| ('\u{2000}' <= c && c <= '\u{200a}')
    ||| c == '\u{2028}'
    ||| c == '\u{2029}'
    ||| c == '\u{202f}'
    ||| c == '\u{205f}'
    ||| c == '\u{3000}'
}

pub open spec fn trim_start(s: Seq<char>) -> Seq<char>
    decreases s.len(),
{
    if s.len() > 0 && is_unicode_whitespace(s[0]) {
        trim_start(s.drop_first())
    } else {
        s
    }
}

pub open spec fn trim_end(s: Seq<char>) -> Seq<char>
    decreases s.len(),
{
    if s.len() > 0 && is_unicode_whitespace(s.last()) {
        trim_end(s.drop_last())
    } else {
        s
    }
}

/// `s` with leading and trailing whitespace removed.
pub open spec fn trimmed(s: Seq<char>) -> Seq<char> {
    trim_end(trim_start(s))
}

pub open spec fn ascii_lower(c: char) -> char {
    if 'A' <= c && c <= 'Z' {
        ((c as u8) + 32) as char
    } else {
        c
    }
}

/// `s` lowercases to `word`, a word of lowercase ASCII letters. (No character outside ASCII
/// lowercases to one of the letters of the words compared here, so ASCII case folding
/// decides it.)
pub open spec fn lowercases_to(s: Seq<char>, word: Seq<char>) -> bool {
    &&& s.len() == word.len()
    &&& forall|i: int| 0 <= i < s.len() ==> ascii_lower(#[trigger] s[i]) == word[i]
}

/// The choice an answer to the conflict prompt makes: `l`/`local` keeps the local
/// database, `r`/`remote` the repo's, in any case and with surrounding whitespace;
/// anything else cancels.
pub open spec fn conflict_choice(answer: Seq<char>) -> ConflictChoice {
    let t = trimmed(answer);
    if lowercases_to(t, seq!['l']) || lowercases_to(t, seq!['l', 'o', 'c', 'a', 'l']) {
        ConflictChoice::KeepLocal
    } else if lowercases_to(t, seq!['r']) || lowercases_to(t, seq!['r', 'e', 'm', 'o', 't', 'e']) {
        ConflictChoice::KeepRemote
    } else {
        ConflictChoice::Cancel
    }
}

proof fn lemma_blank_trims_to_empty(s: Seq<char>)
    requires
        forall|i: int| 0 <= i < s.len() ==> is_unicode_whitespace(#[trigger] s[i]),
    ensures
        trim_start(s).len() == 0,
    decreases s.len(),
{
    if s.len() > 0 {
        assert(is_unicode_whitespace(s[0]));
        assert forall|i: int| 0 <= i < s.drop_first().len() implies is_unicode_whitespace(
            #[trigger] s.drop_first()[i],
        ) by {
            assert(s.drop_first()[i] == s[i + 1]);
        }
        lemma_blank_trims_to_empty(s.drop_first());
    }
}

/// An empty or blank answer (just Enter, or end of input when no terminal is attached)
/// cancels the sync: a conflict is never resolved without an explicit choice.
pub proof fn lemma_blank_answer_cancels(answer: Seq<char>)
    requires
        forall|i: int| 0 <= i < answer.len() ==> is_unicode_whitespace(#[trigger] answer[i]),
    ensures
        conflict_choice(answer) == ConflictChoice::Cancel,
{
    lemma_blank_trims_to_empty(answer);
    assert(trimmed(answer).len() == 0);
}

fn is_ws(c: char) -> (res: bool)
    ensures
        res == is_unicode_whitespace(c),
{
    ('\u{9}' <= c && c <= '\u{d}') || c == ' ' || c == '\u{85}' || c == '\u{a0}' || c
        == '\u{1680}' || ('\u{2000}' <= c && c <= '\u{200a}') || c == '\u{2028}' || c
        == '\u{2029}' || c == '\u{202f}' || c == '\u{205f}' || c == '\u{3000}'
}

fn lower(c: char) -> (res: char)
    ensures
        res == ascii_lower(c),
{
    if 'A' <= c && c <= 'Z' {
        ((c as u8) + 32) as char
    } else {
        c
    }
}

/// Whether `s[start..end]` lowercases to `word`.
fn range_lowercases_to(s: &Vec<char>, start: usize, end: usize, word: &Vec<char>) -> (res: bool)
    requires
        start <= end <= s@.len(),
    ensures
        res == lowercases_to(s@.subrange(start as int, end as int), word@),
{
    if end - start != word.len() {
        return false;
    }
    let ghost t = s@.subrange(start as int, end as int);
    let mut i: usize = 0;
    while i < word.len()
        invariant
            start <= end <= s@.len(),
            end - start == word@.len(),
            t == s@.subrange(start as int, end as int),
            i <= word@.len(),
            forall|j: int| 0 <= j < i ==> ascii_lower(#[trigger] t[j]) == word@[j],
        decreases word.len() - i,
    {
        if lower(s[start + i]) != word[i] {
            assert(ascii_lower(t[i as int]) != word@[i as int]);
            return false;
        }
        i = i + 1;
    }
    true
}

/// Reads the answer to the conflict prompt.
pub fn parse_conflict_answer(answer: &str) -> (res: ConflictChoice)
    ensures
        res == conflict_choice(answer@),
{
    let s = chars_of(answer);
    let n = s.len();
    let mut start: usize = 0;
    assert(s@.subrange(0, n as int) =~= s@);
    while start < n && is_ws(s[start])
        invariant
            n == s@.len(),
            start <= n,
            trim_start(s@) == trim_start(s@.subrange(start as int, n as int)),
        decreases n - start,
    {
        assert(s@.subrange(start as int, n as int).drop_first() =~= s@.subrange(
            start + 1,
            n as int,
        ));
        start = start + 1;
    }
    let ghost ts = s@.subrange(start as int, n as int);
    assert(trim_start(ts) == ts);
    let mut end: usize = n;
    while end > start && is_ws(s[end - 1])
        invariant
            n == s@.len(),
            start <= end <= n,
            ts == s@.subrange(start as int, n as int),
            trim_end(ts) == trim_end(s@.subrange(start as int, end as int)),
        decreases end - start,
    {
        assert(s@.subrange(start as int, end as int).drop_last() =~= s@.subrange(
            start as int,
            end - 1,
        ));
        end = end - 1;
    }
    assert(trim_end(s@.subrange(start as int, end as int)) == s@.subrange(
        start as int,
        end as int,
    ));
    assert(trimmed(answer@) == s@.subrange(start as int, end as int));
    let l = vec!['l'];
    let local = vec!['l', 'o', 'c', 'a', 'l'];
    let r = vec!['r'];
    let remote = vec!['r', 'e', 'm', 'o', 't', 'e'];
    assert(l@ =~= seq!['l']);
    assert(local@ =~= seq!['l', 'o', 'c', 'a', 'l']);
    assert(r@ =~= seq!['r']);
    assert(remote@ =~= seq!['r', 'e', 'm', 'o', 't', 'e']);
    if range_lowercases_to(&s, start, end, &l) || range_lowercases_to(&s, start, end, &local) {
        ConflictChoice::KeepLocal
    } else if range_lowercases_to(&s, start, end, &r) || range_lowercases_to(
        &s,
        start,
        end,
        &remote,
    ) {
        ConflictChoice::KeepRemote
    } else {
        ConflictChoice::Cancel
    }
}

} // verus!
