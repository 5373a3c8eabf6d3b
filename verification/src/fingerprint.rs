use vstd::prelude::*;
use crate::errors::AgentError;

verus! {

// ---------------------------------------------------------------------------
// Content fingerprinting
// ---------------------------------------------------------------------------

/// The hexadecimal SHA-256 digest of a string's bytes. The digest is a
/// function of the characters alone; its value is not axiomatised here.
pub uninterp spec fn sha256_hex_of(s: Seq<char>) -> Seq<char>;

/// Relies on `dusa_collection_utils::platform::functions::create_hash`:
/// it feeds the string's UTF-8 bytes to SHA-256 and hex-encodes the digest,
/// so the result depends on the characters alone and is 64 hexadecimal
/// characters long (two for each of the digest's 32 bytes).
#[verifier::external_body]
fn hash_content(data: &str) -> (r: String)
    ensures
        r@ == sha256_hex_of(data@),
        r@.len() == 64,
{
    dusa_collection_utils::platform::functions::create_hash(data.to_string()).to_string()
}

/// Relies on `dusa_collection_utils::platform::functions::truncate`:
/// it keeps the first `max_chars` characters of the string, or the whole
/// string when it is shorter than that.
#[verifier::external_body]
fn truncate_chars(s: &str, max_chars: usize) -> (r: String)
    ensures
        r@ == (if max_chars as int <= s@.len() {
            s@.take(max_chars as int)
        } else {
            s@
        }),
{
    dusa_collection_utils::platform::functions::truncate(s.to_string(), max_chars).to_string()
}

/// The text that is hashed for a directive: the raw manifest characters,
/// a separator, and the normalized target identity.
pub open spec fn fingerprint_input(content: Seq<char>, service_id: Seq<char>) -> Seq<char> {
    content + "_"@ + service_id
}

/// The full fingerprint of a directive version for a target.
pub open spec fn fingerprint_of(content: Seq<char>, service_id: Seq<char>) -> Seq<char> {
    sha256_hex_of(fingerprint_input(content, service_id))
}

/// The number of fingerprint characters that name a marker file.
pub const MARKER_TOKEN_LEN: usize = 8;

/// The marker token: the fingerprint truncated to a fixed short prefix.
pub open spec fn marker_token_of(content: Seq<char>, service_id: Seq<char>) -> Seq<char> {
    if MARKER_TOKEN_LEN as int <= fingerprint_of(content, service_id).len() {
        fingerprint_of(content, service_id).take(MARKER_TOKEN_LEN as int)
    } else {
        fingerprint_of(content, service_id)
    }
}

/// Computes the content fingerprint of a directive for a deployment target.
pub fn fingerprint(content: &str, service_id: &str) -> (r: String)
    ensures
        r@ == fingerprint_of(content@, service_id@),
        r@.len() == 64,
{
    let mut input = content.to_owned();
    input.append("_");
    input.append(service_id);
    proof {
        assert(input@ =~= fingerprint_input(content@, service_id@));
    }
    hash_content(input.as_str())
}

/// Computes the marker file name for a directive version and target: an
/// eight-character token.
pub fn marker_filename(content: &str, service_id: &str) -> (r: String)
    ensures
        r@ == marker_token_of(content@, service_id@),
        r@.len() == MARKER_TOKEN_LEN as int,
{
    let full = fingerprint(content, service_id);
    truncate_chars(full.as_str(), MARKER_TOKEN_LEN)
}

/// The path of a marker file under the system scratch directory.
pub open spec fn marker_path_of(content: Seq<char>, service_id: Seq<char>) -> Seq<char> {
    "/tmp/"@ + marker_token_of(content, service_id)
}

/// Computes the full path of the marker file for a directive and target.
pub fn marker_path(content: &str, service_id: &str) -> (r: String)
    ensures
        r@ == marker_path_of(content@, service_id@),
{
    let name = marker_filename(content, service_id);
    let mut path = "/tmp/".to_owned();
    path.append(name.as_str());
    proof {
        assert(path@ =~= marker_path_of(content@, service_id@));
    }
    path
}

// ---------------------------------------------------------------------------
// Recording execution
// ---------------------------------------------------------------------------

/// Records that a directive version has been applied: the marker holds the
/// raw manifest text. A copy that moved zero bytes produced an empty marker;
/// that marker is dropped and the write reported as an integrity failure, so
/// an empty marker never gates a future run as done.
pub fn record_marker(marker: &mut Option<String>, content: &str, bytes_copied: u64) -> (r: Result<
    (),
    AgentError,
>)
    ensures
        bytes_copied == 0 ==> (*final(marker)) is None && (r matches Err(e) && e is Integrity),
        bytes_copied > 0 ==> ((*final(marker)) matches Some(m) && m@ == content@) && r is Ok,
{
    if bytes_copied == 0 {
        *marker = None;
        Err(AgentError::Integrity(
            "copying the directive into its marker reported a size of zero".to_owned(),
        ))
    } else {
        *marker = Some(content.to_owned());
        Ok(())
    }
}

// ---------------------------------------------------------------------------
// Laws
// ---------------------------------------------------------------------------

/// Fingerprinting is deterministic: the same manifest text and the same
/// target identity always yield the same fingerprint and the same marker
/// token, across any two polls.
pub proof fn lemma_fingerprint_deterministic(
    c1: Seq<char>,
    t1: Seq<char>,
    c2: Seq<char>,
    t2: Seq<char>,
)
    requires
        c1 == c2,
        t1 == t2,
    ensures
        fingerprint_of(c1, t1) == fingerprint_of(c2, t2),
        marker_token_of(c1, t1) == marker_token_of(c2, t2),
{
}

/// Fingerprint sensitivity: changing any character of the manifest (a
/// comment-only line included) changes the hashed input for that target, so
/// re-execution is forced as far as the digest separates distinct inputs.
/// That the digest itself separates them is the collision resistance of
/// SHA-256, which is relied on and not provable here.
pub proof fn lemma_fingerprint_input_sensitive(c1: Seq<char>, c2: Seq<char>, t: Seq<char>)
    requires
        c1 != c2,
    ensures
        fingerprint_input(c1, t) != fingerprint_input(c2, t),
{
    if c1.len() == c2.len() {
        if fingerprint_input(c1, t) == fingerprint_input(c2, t) {
            assert forall|i: int| 0 <= i < c1.len() implies c1[i] == c2[i] by {
                assert(fingerprint_input(c1, t)[i] == c1[i]);
                assert(fingerprint_input(c2, t)[i] == c2[i]);
            }
            assert(c1 =~= c2);
        }
    } else {
        assert(fingerprint_input(c1, t).len() != fingerprint_input(c2, t).len());
    }
}

} // verus!
