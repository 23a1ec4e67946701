//! Secrets and credentials on the control plane: how secrets are hashed and stable ids
//! derived, what a request's headers carry, and how a node's credential and an
//! enrollment claim are judged.
use vstd::prelude::*;

use sha2::Digest;
use vstd::string::StringSliceAdditionalSpecFns;

use crate::policy::{auth_error, error_parts, AppError, ErrorClass};
use crate::states::{EnrollmentState, NodePresence};
use crate::text::{
    chars_of, concat2, concat3, has_prefix, hex_of, hex_prefix, starts_with_chars, str_eq, string_from,
    string_of, subrange_chars, trim, trim_str,
};

verus! {

/// The SHA-256 digest of `data`.
pub uninterp spec fn sha256_digest(data: Seq<u8>) -> Seq<u8>;

/// `sha2::Sha256::digest`: the SHA-256 digest of `data`, which is 32 bytes long.
#[verifier::external_body]
fn sha256(data: &[u8]) -> (r: Vec<u8>)
    ensures
        r@ == sha256_digest(data@),
        r@.len() == 32,
{
    sha2::Sha256::digest(data).to_vec()
}

/// The UTF-8 bytes of a string.
pub open spec fn utf8(s: Seq<char>) -> Seq<u8> {
    vstd::utf8::encode_utf8(s)
}

/// The stored form of a secret: the hex of its SHA-256 digest.
pub open spec fn secret_hash_spec(secret_bytes: Seq<u8>) -> Seq<char> {
    hex_of(sha256_digest(secret_bytes))
}

pub fn hash_secret(secret: &str) -> (r: String)
    ensures
        r@ == secret_hash_spec(utf8(secret@)),
{
    let digest = sha256(secret.as_bytes());
    let r = hex_prefix(digest.as_slice(), digest.len());
    assert(digest@.take(digest@.len() as int) =~= digest@);
    r
}

/// An id derived from a node and a workspace path: `prefix` and the hex of the first 16
/// bytes of the digest of `node:path`.
pub open spec fn stable_id_spec(prefix: Seq<char>, key_bytes: Seq<u8>) -> Seq<char> {
    prefix + hex_of(sha256_digest(key_bytes).take(16))
}

fn stable_id(prefix: &str, node_id: &str, workspace_path: &str) -> (r: String)
    ensures
        r@ == stable_id_spec(prefix@, utf8(node_id@ + ":"@ + workspace_path@)),
{
    let key = concat3(node_id, ":", workspace_path);
    let digest = sha256(key.as_str().as_bytes());
    let hex = hex_prefix(digest.as_slice(), 16);
    concat2(prefix, hex.as_str())
}

/// The placement id of a workspace path on a node.
pub fn stable_placement_id(node_id: &str, workspace_path: &str) -> (r: String)
    ensures
        r@ == stable_id_spec("placement-"@, utf8(node_id@ + ":"@ + workspace_path@)),
{
    stable_id("placement-", node_id, workspace_path)
}

/// The project id of a workspace path on a node.
pub fn stable_project_id(node_id: &str, workspace_path: &str) -> (r: String)
    ensures
        r@ == stable_id_spec("project-"@, utf8(node_id@ + ":"@ + workspace_path@)),
{
    stable_id("project-", node_id, workspace_path)
}

/// A new secret: `prefix`, a dash, and a fresh random identifier, which nothing states.
pub fn new_secret(prefix: &str) -> (r: String)
    ensures
        has_prefix(r@, prefix@ + "-"@),
{
    let id = crate::system::new_uuid();
    let r = concat3(prefix, "-", id.as_str());
    assert(r@.take((prefix@ + "-"@).len() as int) =~= prefix@ + "-"@);
    r
}

/// A header as the control plane reads it: present and not empty.
pub open spec fn header_spec(value: Option<Seq<char>>) -> Option<Seq<char>> {
    match value {
        Some(v) => if v.len() > 0 {
            Some(v)
        } else {
            None
        },
        None => None,
    }
}

/// The token of a `Bearer` authorization header, when there is one and it is not
/// empty.
pub open spec fn bearer_token_spec(authorization: Option<Seq<char>>) -> Option<Seq<char>> {
    match header_spec(authorization) {
        Some(a) => if has_prefix(a, "Bearer "@) && a.len() > "Bearer "@.len() {
            Some(a.skip("Bearer "@.len() as int))
        } else {
            None
        },
        None => None,
    }
}

pub fn bearer_token(authorization: Option<&str>) -> (r: Option<String>)
    ensures
        match r {
            Some(t) => bearer_token_spec(
                match authorization {
                    Some(a) => Some(a@),
                    None => None,
                },
            ) == Some(t@),
            None => bearer_token_spec(
                match authorization {
                    Some(a) => Some(a@),
                    None => None,
                },
            ) is None,
        },
{
    let a = match authorization {
        Some(a) => a,
        None => {
            return None;
        },
    };
    if a.is_empty() {
        return None;
    }
    let cs = chars_of(a);
    let p = chars_of("Bearer ");
    if starts_with_chars(&cs, &p) && cs.len() > p.len() {
        let rest = subrange_chars(&cs, p.len(), cs.len());
        assert(rest@ =~= cs@.skip("Bearer "@.len() as int));
        Some(string_of(&rest))
    } else {
        None
    }
}

/// The correlation id a request carries: its correlation header, or else its request
/// id header, trimmed; nothing when the header used is blank.
pub open spec fn correlation_spec(correlation: Option<Seq<char>>, request_id: Option<Seq<char>>) -> Option<Seq<char>> {
    let h = match header_spec(correlation) {
        Some(c) => Some(c),
        None => header_spec(request_id),
    };
    match h {
        Some(v) => if trim(v).len() > 0 {
            Some(trim(v))
        } else {
            None
        },
        None => None,
    }
}

/// The correlation id of a request: the one its headers carry, else a fresh random one,
/// which nothing states.
pub fn request_correlation_id(correlation: Option<&str>, request_id: Option<&str>) -> (r: String)
    ensures
        correlation_spec(
            match correlation {
                Some(a) => Some(a@),
                None => None,
            },
            match request_id {
                Some(a) => Some(a@),
                None => None,
            },
        ) matches Some(c) ==> r@ == c,
{
    let h: Option<&str> = match correlation {
        Some(c) => if c.is_empty() {
            match request_id {
                Some(q) => if q.is_empty() {
                    None
                } else {
                    Some(q)
                },
                None => None,
            }
        } else {
            Some(c)
        },
        None => match request_id {
            Some(q) => if q.is_empty() {
                None
            } else {
                Some(q)
            },
            None => None,
        },
    };
    match h {
        Some(v) => {
            let t = trim_str(v);
            if t.as_str().is_empty() {
                crate::system::new_uuid()
            } else {
                t
            }
        },
        None => crate::system::new_uuid(),
    }
}

/// What the control plane knows of a node that presents a credential: its presence and
/// the hash of its credential, if one was issued.
pub struct NodeCredentialRecord {
    pub presence: NodePresence,
    pub credential_hash: Option<String>,
}

/// The verdict on a node's credential: it is required, the node must be known, not
/// revoked, and hold a credential whose hash matches.
pub open spec fn credential_verdict(
    credential: Option<Seq<char>>,
    credential_bytes: Seq<u8>,
    node: Option<(NodePresence, Option<Seq<char>>)>,
) -> Option<(Seq<char>, Seq<char>)> {
    match credential {
        None => Some(("auth_dev.credential_required"@, "Node credential is required"@)),
        Some(c) => if c.len() == 0 {
            Some(("auth_dev.credential_required"@, "Node credential is required"@))
        } else {
            match node {
                None => Some(("auth_dev.node_unknown"@, "Node is not enrolled"@)),
                Some((presence, hash)) => if presence == NodePresence::Revoked {
                    Some(("auth_dev.node_revoked"@, "Node has been revoked"@))
                } else {
                    match hash {
                        None => Some(("auth_dev.credential_missing"@, "Node credential is missing"@)),
                        Some(h) => if h != secret_hash_spec(credential_bytes) {
                            Some(("auth_dev.credential_invalid"@, "Node credential is invalid"@))
                        } else {
                            None
                        },
                    }
                },
            }
        },
    }
}

/// Checks a node's credential against what is recorded of the node.
pub fn verify_node_credential(credential: Option<&str>, node: Option<&NodeCredentialRecord>) -> (r: Result<
    (),
    AppError,
>)
    ensures
        match credential_verdict(
            match credential {
                Some(c) => Some(c@),
                None => None,
            },
            match credential {
                Some(c) => utf8(c@),
                None => seq![],
            },
            match node {
                Some(n) => Some(
                    (
                        n.presence,
                        match n.credential_hash {
                            Some(h) => Some(h@),
                            None => None,
                        },
                    ),
                ),
                None => None,
            },
        ) {
            Some((code, message)) => r matches Err(e) && error_parts(e) == (ErrorClass::Auth, code, message),
            None => r is Ok,
        },
{
    let c = match credential {
        Some(c) => if c.is_empty() {
            return Err(auth_error("auth_dev.credential_required", "Node credential is required"));
        } else {
            c
        },
        None => {
            return Err(auth_error("auth_dev.credential_required", "Node credential is required"));
        },
    };
    let n = match node {
        Some(n) => n,
        None => {
            return Err(auth_error("auth_dev.node_unknown", "Node is not enrolled"));
        },
    };
    if n.presence == NodePresence::Revoked {
        return Err(auth_error("auth_dev.node_revoked", "Node has been revoked"));
    }
    let h = match &n.credential_hash {
        Some(h) => h,
        None => {
            return Err(auth_error("auth_dev.credential_missing", "Node credential is missing"));
        },
    };
    let computed = hash_secret(c);
    if !str_eq(h.as_str(), computed.as_str()) {
        return Err(auth_error("auth_dev.credential_invalid", "Node credential is invalid"));
    }
    Ok(())
}

/// What an enrollment claim comes to.
pub enum ClaimDecision {
    /// The enrollment expired; it is to be marked so.
    Expired,
    /// The pairing code does not match.
    InvalidPairingCode,
    /// The enrollment was claimed before; its credential is not handed out again.
    AlreadyClaimed,
    /// The enrollment ended as expired, rejected or revoked.
    Terminal(EnrollmentState),
    /// The enrollment waits for a user's approval.
    Pending,
    /// The claim succeeds: a node and a credential are to be issued.
    Accept,
}

/// How a claim of an enrollment is decided: expiry first, then the pairing code, then
/// the enrollment's state, then its approval (given, or automatic).
pub open spec fn claim_spec(
    now: i64,
    expires_at: i64,
    status: EnrollmentState,
    stored_pairing_hash: Seq<char>,
    pairing_bytes: Seq<u8>,
    approved_at_set: bool,
    auto_approve: bool,
) -> ClaimDecision {
    if expires_at <= now {
        ClaimDecision::Expired
    } else if stored_pairing_hash != secret_hash_spec(pairing_bytes) {
        ClaimDecision::InvalidPairingCode
    } else if status == EnrollmentState::Registered {
        ClaimDecision::AlreadyClaimed
    } else if status == EnrollmentState::Expired || status == EnrollmentState::Rejected || status
        == EnrollmentState::Revoked {
        ClaimDecision::Terminal(status)
    } else if !(approved_at_set || status == EnrollmentState::Approved || auto_approve) {
        ClaimDecision::Pending
    } else {
        ClaimDecision::Accept
    }
}

pub fn claim_enrollment_decision(
    now: i64,
    expires_at: i64,
    status: EnrollmentState,
    stored_pairing_hash: &str,
    pairing_code: &str,
    approved_at_set: bool,
    auto_approve: bool,
) -> (r: ClaimDecision)
    ensures
        r == claim_spec(
            now,
            expires_at,
            status,
            stored_pairing_hash@,
            utf8(pairing_code@),
            approved_at_set,
            auto_approve,
        ),
        r == ClaimDecision::Accept ==> (status == EnrollmentState::Unregistered || status
            == EnrollmentState::PendingUserApproval || status == EnrollmentState::Approved),
        now < expires_at && stored_pairing_hash@ == secret_hash_spec(utf8(pairing_code@)) && (status
            == EnrollmentState::Expired || status == EnrollmentState::Rejected || status
            == EnrollmentState::Revoked) ==> r == ClaimDecision::Terminal(status),
{
    proof {
        lemma_ended_enrollments_are_not_claimed(
            now,
            expires_at,
            status,
            stored_pairing_hash@,
            utf8(pairing_code@),
            approved_at_set,
            auto_approve,
        );
    }
    if expires_at <= now {
        return ClaimDecision::Expired;
    }
    let h = hash_secret(pairing_code);
    if !str_eq(stored_pairing_hash, h.as_str()) {
        return ClaimDecision::InvalidPairingCode;
    }
    if status == EnrollmentState::Registered {
        return ClaimDecision::AlreadyClaimed;
    }
    if status == EnrollmentState::Expired || status == EnrollmentState::Rejected || status
        == EnrollmentState::Revoked {
        return ClaimDecision::Terminal(status);
    }
    if !(approved_at_set || status == EnrollmentState::Approved || auto_approve) {
        return ClaimDecision::Pending;
    }
    ClaimDecision::Accept
}

/// The message of a claim that is not accepted; for a terminal enrollment, its state.
pub open spec fn claim_message_spec(d: ClaimDecision) -> Seq<char> {
    match d {
        ClaimDecision::Expired => "Enrollment expired"@,
        ClaimDecision::InvalidPairingCode => "Pairing code is invalid"@,
        ClaimDecision::AlreadyClaimed => "Enrollment already claimed; existing credential is not returned"@,
        ClaimDecision::Terminal(s) => "Enrollment is "@ + crate::states::enrollment_state_name(s),
        ClaimDecision::Pending => "Enrollment is waiting for approval"@,
        ClaimDecision::Accept => "Enrollment claimed"@,
    }
}

pub fn claim_message(d: &ClaimDecision) -> (r: String)
    ensures
        r@ == claim_message_spec(*d),
{
    match d {
        ClaimDecision::Expired => string_from("Enrollment expired"),
        ClaimDecision::InvalidPairingCode => string_from("Pairing code is invalid"),
        ClaimDecision::AlreadyClaimed => string_from(
            "Enrollment already claimed; existing credential is not returned",
        ),
        ClaimDecision::Terminal(s) => concat2(
            "Enrollment is ",
            crate::states::format_enrollment_state(*s),
        ),
        ClaimDecision::Pending => string_from("Enrollment is waiting for approval"),
        ClaimDecision::Accept => string_from("Enrollment claimed"),
    }
}


/// The answer to a claim, as the node receives it.
pub struct ClaimResponse {
    pub accepted: bool,
    pub pending: bool,
    pub node_id: Option<String>,
    pub credential: Option<String>,
    pub message: String,
}

/// What a claim comes to: the answer, the state the enrollment is to be written with
/// (none when it stays as it is), and the hash of the credential issued to a new node.
pub struct ClaimOutcome {
    pub response: ClaimResponse,
    pub new_status: Option<EnrollmentState>,
    pub issued_credential_hash: Option<String>,
}

/// `o` is what a claim decided as `d` comes to, for an enrollment in state `status` that
/// may already have registered `claimed_node_id`: an expired enrollment is marked so and
/// refused; one already claimed answers with its node but no credential; a terminal one
/// or one waiting for approval is refused, the latter as pending; an accepted claim
/// registers the enrollment and hands out a new node id and a `node-` credential whose
/// hash is stored. The node id and the credential are fresh; beyond its prefix and
/// stored hash, nothing is stated of them.
pub open spec fn claim_outcome_spec(o: ClaimOutcome, d: ClaimDecision, status: EnrollmentState, claimed_node_id: Option<Seq<char>>) -> bool {
    &&& o.response.message@ == claim_message_spec(d)
    &&& match d {
        ClaimDecision::Expired => {
            &&& !o.response.accepted && !o.response.pending
            &&& o.response.node_id is None && o.response.credential is None
            &&& o.new_status == Some(expired_state_spec(status))
            &&& o.issued_credential_hash is None
        },
        ClaimDecision::AlreadyClaimed => {
            &&& o.response.accepted && !o.response.pending
            &&& crate::protocol::opt_view(o.response.node_id) == claimed_node_id
            &&& o.response.credential is None
            &&& o.new_status is None
            &&& o.issued_credential_hash is None
        },
        ClaimDecision::Pending => {
            &&& !o.response.accepted && o.response.pending
            &&& o.response.node_id is None && o.response.credential is None
            &&& o.new_status is None
            &&& o.issued_credential_hash is None
        },
        ClaimDecision::Accept => {
            &&& o.response.accepted && !o.response.pending
            &&& o.response.node_id is Some
            &&& o.response.credential is Some
            &&& has_prefix(o.response.credential->0@, "node-"@)
            &&& o.issued_credential_hash is Some
            &&& o.issued_credential_hash->0@ == secret_hash_spec(utf8(o.response.credential->0@))
            &&& o.new_status == Some(EnrollmentState::Registered)
        },
        _ => {
            &&& !o.response.accepted && !o.response.pending
            &&& o.response.node_id is None && o.response.credential is None
            &&& o.new_status is None
            &&& o.issued_credential_hash is None
        },
    }
}

fn refusal(d: &ClaimDecision, pending: bool) -> (o: ClaimOutcome)
    ensures
        !o.response.accepted && o.response.pending == pending,
        o.response.node_id is None && o.response.credential is None,
        o.response.message@ == claim_message_spec(*d),
        o.new_status is None && o.issued_credential_hash is None,
{
    ClaimOutcome {
        response: ClaimResponse {
            accepted: false,
            pending,
            node_id: None,
            credential: None,
            message: claim_message(d),
        },
        new_status: None,
        issued_credential_hash: None,
    }
}

/// What a decided claim comes to; a wrong pairing code is refused as unauthorized.
pub fn claim_outcome(d: &ClaimDecision, status: EnrollmentState, claimed_node_id: Option<String>) -> (r: Result<
    ClaimOutcome,
    AppError,
>)
    ensures
        r is Err <==> *d is InvalidPairingCode,
        r matches Err(e) ==> error_parts(e) == (
            ErrorClass::Auth,
            "auth_dev.invalid_pairing_code"@,
            "Pairing code is invalid"@,
        ),
        r matches Ok(o) ==> claim_outcome_spec(o, *d, status, crate::protocol::opt_view(claimed_node_id)),
{
    match d {
        ClaimDecision::InvalidPairingCode => Err(auth_error("auth_dev.invalid_pairing_code", "Pairing code is invalid")),
        ClaimDecision::Expired => {
            let mut o = refusal(d, false);
            o.new_status = Some(expire_enrollment_state(status));
            Ok(o)
        },
        ClaimDecision::AlreadyClaimed => Ok(
            ClaimOutcome {
                response: ClaimResponse {
                    accepted: true,
                    pending: false,
                    node_id: claimed_node_id,
                    credential: None,
                    message: claim_message(d),
                },
                new_status: None,
                issued_credential_hash: None,
            },
        ),
        ClaimDecision::Terminal(_) => Ok(refusal(d, false)),
        ClaimDecision::Pending => Ok(refusal(d, true)),
        ClaimDecision::Accept => {
            let credential = new_secret("node");
            proof {
                reveal_strlit("node");
                reveal_strlit("-");
                reveal_strlit("node-");
                assert("node"@ + "-"@ =~= "node-"@);
            }
            let hash = hash_secret(credential.as_str());
            Ok(
                ClaimOutcome {
                    response: ClaimResponse {
                        accepted: true,
                        pending: false,
                        node_id: Some(crate::system::new_uuid()),
                        credential: Some(credential),
                        message: claim_message(d),
                    },
                    new_status: Some(EnrollmentState::Registered),
                    issued_credential_hash: Some(hash),
                },
            )
        },
    }
}

/// Decides a claim of an enrollment, found in state `status` with the stored pairing
/// hash, and says what it comes to.
pub fn claim_enrollment(
    now: i64,
    expires_at: i64,
    status: EnrollmentState,
    stored_pairing_hash: &str,
    pairing_code: &str,
    approved_at_set: bool,
    auto_approve: bool,
    claimed_node_id: Option<String>,
) -> (r: Result<ClaimOutcome, AppError>)
    ensures
        ({
            let d = claim_spec(
                now,
                expires_at,
                status,
                stored_pairing_hash@,
                utf8(pairing_code@),
                approved_at_set,
                auto_approve,
            );
            &&& (r is Err <==> d is InvalidPairingCode)
            &&& (r matches Err(e) ==> error_parts(e) == (
                ErrorClass::Auth,
                "auth_dev.invalid_pairing_code"@,
                "Pairing code is invalid"@,
            ))
            &&& (r matches Ok(o) ==> claim_outcome_spec(o, d, status, crate::protocol::opt_view(claimed_node_id)))
        }),
{
    let d = claim_enrollment_decision(
        now,
        expires_at,
        status,
        stored_pairing_hash,
        pairing_code,
        approved_at_set,
        auto_approve,
    );
    claim_outcome(&d, status, claimed_node_id)
}

/// A new enrollment as it is stored: its pairing code (handed to the node once) and the
/// code's hash, its state, and when it expires and was approved (milliseconds).
pub struct NewEnrollment {
    pub enrollment_id: String,
    pub display_name: String,
    pub pairing_code: String,
    pub pairing_code_hash: String,
    pub status: EnrollmentState,
    pub expires_at: i64,
    pub approved_at: Option<i64>,
}

/// Opens an enrollment for a node that asked at `now`: the display name must hold more
/// than whitespace and is kept trimmed; the enrollment expires `ttl_seconds` later; with
/// automatic approval it is approved at once, else it waits for a user. The id and the
/// pairing code are fresh; only the code's prefix and its stored hash are stated.
pub fn open_enrollment(display_name: &str, now: i64, ttl_seconds: i64, auto_approve: bool) -> (r: Result<
    NewEnrollment,
    AppError,
>)
    requires
        i64::MIN <= now + ttl_seconds * 1000 <= i64::MAX,
    ensures
        r is Err <==> trim(display_name@).len() == 0,
        r matches Err(e) ==> error_parts(e) == (
            ErrorClass::BadRequest,
            "validation.display_name_required"@,
            "Display name is required"@,
        ),
        r matches Ok(n) ==> {
            &&& n.display_name@ == trim(display_name@)
            &&& has_prefix(n.pairing_code@, "pair-"@)
            &&& n.pairing_code_hash@ == secret_hash_spec(utf8(n.pairing_code@))
            &&& n.expires_at == now + ttl_seconds * 1000
            &&& n.status == if auto_approve {
                EnrollmentState::Approved
            } else {
                EnrollmentState::PendingUserApproval
            }
            &&& n.approved_at == if auto_approve {
                Some(now)
            } else {
                None
            }
        },
{
    let name = trim_str(display_name);
    if name.as_str().is_empty() {
        return Err(crate::policy::bad_request("validation.display_name_required", "Display name is required"));
    }
    let pairing_code = new_secret("pair");
    proof {
        reveal_strlit("pair");
        reveal_strlit("-");
        reveal_strlit("pair-");
        assert("pair"@ + "-"@ =~= "pair-"@);
    }
    let pairing_code_hash = hash_secret(pairing_code.as_str());
    let expires_at = ((now as i128) + (ttl_seconds as i128) * 1000) as i64;
    Ok(
        NewEnrollment {
            enrollment_id: crate::system::new_uuid(),
            display_name: name,
            pairing_code,
            pairing_code_hash,
            status: if auto_approve {
                EnrollmentState::Approved
            } else {
                EnrollmentState::PendingUserApproval
            },
            expires_at,
            approved_at: if auto_approve {
                Some(now)
            } else {
                None
            },
        },
    )
}

/// A user may approve an enrollment only while it waits for approval, has not been
/// approved, and has not expired.
pub open spec fn approvable_spec(status: EnrollmentState, approved_at_set: bool, expires_at: i64, now: i64) -> bool {
    status == EnrollmentState::PendingUserApproval && !approved_at_set && expires_at > now
}

/// Approves an enrollment at `now`: its new state and approval time, or the refusal
/// when it is missing from the store, expired, or not waiting for approval.
pub fn approve_enrollment(
    found: bool,
    status: EnrollmentState,
    approved_at: Option<i64>,
    expires_at: i64,
    now: i64,
) -> (r: Result<(EnrollmentState, i64), AppError>)
    ensures
        r is Ok <==> found && approvable_spec(status, approved_at is Some, expires_at, now),
        r matches Ok((s, t)) ==> s == EnrollmentState::Approved && t == now,
        r matches Err(e) ==> error_parts(e) == (
            ErrorClass::BadRequest,
            "node_enrollment.not_approvable"@,
            "Enrollment is missing, expired or already claimed"@,
        ),
{
    if found && status == EnrollmentState::PendingUserApproval && approved_at.is_none() && expires_at > now {
        Ok((EnrollmentState::Approved, now))
    } else {
        Err(
            crate::policy::bad_request(
                "node_enrollment.not_approvable",
                "Enrollment is missing, expired or already claimed",
            ),
        )
    }
}

/// The state an enrollment takes when it is found expired: waiting or approved
/// enrollments expire; any other keeps its state.
pub open spec fn expired_state_spec(status: EnrollmentState) -> EnrollmentState {
    if status == EnrollmentState::PendingUserApproval || status == EnrollmentState::Approved {
        EnrollmentState::Expired
    } else {
        status
    }
}

pub fn expire_enrollment_state(status: EnrollmentState) -> (r: EnrollmentState)
    ensures
        r == expired_state_spec(status),
{
    if status == EnrollmentState::PendingUserApproval || status == EnrollmentState::Approved {
        EnrollmentState::Expired
    } else {
        status
    }
}


/// Only a live enrollment can be claimed. A claim is accepted only before the
/// enrollment expires, with its own pairing code, and only while it is unregistered,
/// waiting for approval or approved; so an enrollment that expired, was rejected or was
/// revoked never yields a node or a credential, whatever its approval says. Claimed
/// before it expires with the right code, such an enrollment is refused as terminal
/// with its own state, and a registered one as already claimed. An expired claim is
/// refused as expired whatever code it carries; a wrong code on a live enrollment is
/// refused as invalid; a live enrollment claimed with its code is accepted once
/// approved (or approved automatically) and pending before.
pub proof fn lemma_ended_enrollments_are_not_claimed(
    now: i64,
    expires_at: i64,
    status: EnrollmentState,
    stored_pairing_hash: Seq<char>,
    pairing_bytes: Seq<u8>,
    approved_at_set: bool,
    auto_approve: bool,
)
    ensures
        ({
            let d = claim_spec(
                now,
                expires_at,
                status,
                stored_pairing_hash,
                pairing_bytes,
                approved_at_set,
                auto_approve,
            );
            &&& d == ClaimDecision::Accept ==> now < expires_at && stored_pairing_hash
                == secret_hash_spec(pairing_bytes) && (status == EnrollmentState::Unregistered
                || status == EnrollmentState::PendingUserApproval || status == EnrollmentState::Approved)
            &&& now < expires_at && stored_pairing_hash == secret_hash_spec(pairing_bytes) && (status
                == EnrollmentState::Expired || status == EnrollmentState::Rejected || status
                == EnrollmentState::Revoked) ==> d == ClaimDecision::Terminal(status)
            &&& now < expires_at && stored_pairing_hash == secret_hash_spec(pairing_bytes) && status
                == EnrollmentState::Registered ==> d == ClaimDecision::AlreadyClaimed
            &&& status == EnrollmentState::Revoked ==> d != ClaimDecision::Accept
            &&& expires_at <= now ==> d == ClaimDecision::Expired
            &&& now < expires_at && stored_pairing_hash != secret_hash_spec(pairing_bytes) ==> d
                == ClaimDecision::InvalidPairingCode
            &&& now < expires_at && stored_pairing_hash == secret_hash_spec(pairing_bytes) && (status
                == EnrollmentState::Unregistered || status == EnrollmentState::PendingUserApproval
                || status == EnrollmentState::Approved) ==> d == if approved_at_set || auto_approve
                || status == EnrollmentState::Approved {
                ClaimDecision::Accept
            } else {
                ClaimDecision::Pending
            }
        }),
{
}

/// The pairing code an enrollment was opened with claims it before it expires: while it
/// waits for a user it stays pending, unless approval is automatic, and once approved
/// it is accepted. A second approval of an approved enrollment is refused.
pub proof fn lemma_pairing_code_claims_enrollment(pairing_code: Seq<char>, now: i64, expires_at: i64, auto_approve: bool)
    requires
        now < expires_at,
    ensures
        claim_spec(
            now,
            expires_at,
            EnrollmentState::PendingUserApproval,
            secret_hash_spec(utf8(pairing_code)),
            utf8(pairing_code),
            false,
            auto_approve,
        ) == if auto_approve {
            ClaimDecision::Accept
        } else {
            ClaimDecision::Pending
        },
        claim_spec(
            now,
            expires_at,
            EnrollmentState::Approved,
            secret_hash_spec(utf8(pairing_code)),
            utf8(pairing_code),
            true,
            auto_approve,
        ) == ClaimDecision::Accept,
        !approvable_spec(EnrollmentState::Approved, true, expires_at, now),
{
}


/// A node whose stored hash is that of the credential it was issued is let in with that
/// credential until it is revoked, and never once it is.
pub proof fn lemma_issued_credential_verifies(credential: Seq<char>, presence: NodePresence)
    requires
        credential.len() > 0,
    ensures
        credential_verdict(
            Some(credential),
            utf8(credential),
            Some((presence, Some(secret_hash_spec(utf8(credential))))),
        ) is None <==> presence != NodePresence::Revoked,
{
}

} // verus!
