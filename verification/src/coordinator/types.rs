//! Requests and responses exchanged with the MPC coordinator service.

use vstd::prelude::*;
use base64::Engine;
use crate::text::owned;
use crate::types::unix_time;

verus! {

/// The character of the standard base64 alphabet for a value below 64:
/// `A`-`Z`, `a`-`z`, `0`-`9`, `+`, `/`.
pub open spec fn base64_char(v: nat) -> char {
    if v < 26 {
        (65 + v) as char
    } else if v < 52 {
        (97 + (v - 26)) as char
    } else if v < 62 {
        (48 + (v - 52)) as char
    } else if v == 62 {
        '+'
    } else {
        '/'
    }
}

/// Standard padded base64 text of `data` (RFC 4648): each group of three
/// bytes becomes four characters of six bits each; a last group of one or
/// two bytes is padded with `=` to four characters.
pub open spec fn base64_standard(data: Seq<u8>) -> Seq<char>
    decreases data.len(),
{
    if data.len() == 0 {
        Seq::empty()
    } else if data.len() == 1 {
        let a = data[0] as nat;
        seq![base64_char(a / 4), base64_char((a % 4) * 16), '=', '=']
    } else if data.len() == 2 {
        let a = data[0] as nat;
        let b = data[1] as nat;
        seq![base64_char(a / 4), base64_char((a % 4) * 16 + b / 16), base64_char((b % 16) * 4), '=']
    } else {
        let a = data[0] as nat;
        let b = data[1] as nat;
        let c = data[2] as nat;
        seq![
            base64_char(a / 4),
            base64_char((a % 4) * 16 + b / 16),
            base64_char((b % 16) * 4 + c / 64),
            base64_char(c % 64),
        ] + base64_standard(data.subrange(3, data.len() as int))
    }
}

/// What `base64`'s `STANDARD` engine decodes `text` to: `None` when the text
/// is not valid standard base64.
pub uninterp spec fn base64_standard_decoded(text: Seq<char>) -> Option<Seq<u8>>;

/// The length of padded base64 text for `n` bytes.
pub open spec fn base64_len(n: nat) -> nat {
    4 * ((n + 2) / 3)
}

/// Calls `base64::engine::general_purpose::STANDARD.encode(data)`. Claimed:
/// the text is the standard padded encoding [`base64_standard`]; it has the
/// padded length that `base64::encoded_len` documents; and decoding it gives
/// the bytes back. The call panics when that length does not fit in `usize`,
/// which `requires` rules out.
#[verifier::external_body]
fn base64_encode(data: &[u8]) -> (s: String)
    requires
        base64_len(data@.len()) <= usize::MAX,
    ensures
        s@ == base64_standard(data@),
        s@.len() == base64_len(data@.len()),
        base64_standard_decoded(s@) == Some(data@),
{
    base64::engine::general_purpose::STANDARD.encode(data)
}

/// Calls `base64::engine::general_purpose::STANDARD.decode(text)`. Claimed:
/// the outcome is a function of the text, named [`base64_standard_decoded`].
#[verifier::external_body]
fn base64_decode(text: &str) -> (r: Option<Vec<u8>>)
    ensures
        base64_standard_decoded(text@) == (match r {
            Some(v) => Some(v@),
            None => None,
        }),
{
    base64::engine::general_purpose::STANDARD.decode(text).ok()
}

/// Calls `uuid::Uuid::new_v4().to_string()`: a random identifier in the
/// hyphenated form, which the `uuid` documentation gives as 36 characters.
/// Nothing else is claimed: the value is random.
#[verifier::external_body]
fn fresh_uuid_text() -> (s: String)
    ensures
        s@.len() == 36,
{
    uuid::Uuid::new_v4().to_string()
}

/// Kinds of job the coordinator runs.
#[derive(Clone, Copy, Debug, PartialEq, Eq, Structural)]
pub enum JobType {
    AuthorizeTransfer,
    ConfidentialTransfer,
    CreateConfidentialAccount,
    ClaimConfidentialAccount,
    WrapMint,
    SetAuditor,
    DistributedDecrypt,
    GenerateRangeProof,
}

/// Status of a job.
#[derive(Clone, Copy, Debug, PartialEq, Eq, Structural)]
pub enum JobStatus {
    Queued,
    Assigned,
    Preprocessing,
    Executing,
    Signing,
    Complete,
    Failed,
}

/// The name of a status, as its `Debug` text.
pub open spec fn job_status_name(s: JobStatus) -> Seq<char> {
    match s {
        JobStatus::Queued => "Queued"@,
        JobStatus::Assigned => "Assigned"@,
        JobStatus::Preprocessing => "Preprocessing"@,
        JobStatus::Executing => "Executing"@,
        JobStatus::Signing => "Signing"@,
        JobStatus::Complete => "Complete"@,
        JobStatus::Failed => "Failed"@,
    }
}

impl JobStatus {
    /// Whether the job has finished, successfully or not.
    pub open spec fn terminal(self) -> bool {
        self is Complete || self is Failed
    }

    /// Whether the job has reached a final state.
    pub fn is_terminal(&self) -> (b: bool)
        ensures
            b == self.terminal(),
    {
        match self {
            JobStatus::Complete | JobStatus::Failed => true,
            _ => false,
        }
    }

    /// Whether the job is still running.
    pub fn is_in_progress(&self) -> (b: bool)
        ensures
            b == !self.terminal(),
    {
        !self.is_terminal()
    }

    /// The name of the status, as its `Debug` text.
    pub fn name(&self) -> (s: String)
        ensures
            s@ == job_status_name(*self),
    {
        match self {
            JobStatus::Queued => owned("Queued"),
            JobStatus::Assigned => owned("Assigned"),
            JobStatus::Preprocessing => owned("Preprocessing"),
            JobStatus::Executing => owned("Executing"),
            JobStatus::Signing => owned("Signing"),
            JobStatus::Complete => owned("Complete"),
            JobStatus::Failed => owned("Failed"),
        }
    }
}

/// One input of a job: base64 data of a client, secret or public.
#[derive(Clone, Debug)]
pub struct ClientInput {
    /// The client the input belongs to.
    pub client_id: String,
    /// Position of the input.
    pub index: u32,
    /// Base64 (standard, padded) of the input bytes.
    pub data: String,
    /// Whether the input is secret.
    pub is_secret: bool,
}

impl ClientInput {
    /// A secret input holding `data` in base64.
    pub fn secret(client_id: &str, index: u32, data: &[u8]) -> (c: Self)
        requires
            base64_len(data@.len()) <= usize::MAX,
        ensures
            c.client_id@ == client_id@,
            c.index == index,
            c.data@ == base64_standard(data@),
            base64_standard_decoded(c.data@) == Some(data@),
            c.is_secret,
    {
        ClientInput { client_id: owned(client_id), index, data: base64_encode(data), is_secret: true }
    }

    /// A public input holding `data` in base64.
    pub fn public(client_id: &str, index: u32, data: &[u8]) -> (c: Self)
        requires
            base64_len(data@.len()) <= usize::MAX,
        ensures
            c.client_id@ == client_id@,
            c.index == index,
            c.data@ == base64_standard(data@),
            base64_standard_decoded(c.data@) == Some(data@),
            !c.is_secret,
    {
        ClientInput { client_id: owned(client_id), index, data: base64_encode(data), is_secret: false }
    }
}

/// A job for the coordinator.
#[derive(Clone, Debug)]
pub struct JobRequest {
    /// Kind of job.
    pub job_type: JobType,
    /// Hash of the program to run.
    pub program_hash: String,
    /// Inputs of the job.
    pub inputs: Vec<ClientInput>,
    /// Key that makes resubmission safe.
    pub idempotency_key: String,
    /// Key to use.
    pub key_id: String,
    /// Client submitting the job.
    pub client_id: String,
    /// Time of the request, in seconds since the Unix epoch.
    pub request_ts: u64,
}

impl JobRequest {
    /// A builder for a job of `job_type` from `client_id`.
    pub fn builder(job_type: JobType, client_id: &str) -> (b: JobRequestBuilder)
        ensures
            b@ == JobRequestBuilder::initial(job_type, client_id@),
    {
        JobRequestBuilder::new(job_type, client_id)
    }
}

/// Builder for a [`JobRequest`].
#[derive(Clone, Debug)]
pub struct JobRequestBuilder {
    job_type: JobType,
    program_hash: String,
    inputs: Vec<ClientInput>,
    idempotency_key: Option<String>,
    key_id: String,
    client_id: String,
}

/// What a builder holds, as plain values.
#[verifier::ext_equal]
pub struct JobRequestBuilderView {
    pub job_type: JobType,
    pub program_hash: Seq<char>,
    pub inputs: Seq<ClientInput>,
    pub idempotency_key: Option<Seq<char>>,
    pub key_id: Seq<char>,
    pub client_id: Seq<char>,
}

impl View for JobRequestBuilder {
    type V = JobRequestBuilderView;

    closed spec fn view(&self) -> JobRequestBuilderView {
        JobRequestBuilderView {
            job_type: self.job_type,
            program_hash: self.program_hash@,
            inputs: self.inputs@,
            idempotency_key: match self.idempotency_key {
                Some(k) => Some(k@),
                None => None,
            },
            key_id: self.key_id@,
            client_id: self.client_id@,
        }
    }
}

impl JobRequestBuilder {
    /// What a new builder holds.
    pub open spec fn initial(job_type: JobType, client_id: Seq<char>) -> JobRequestBuilderView {
        JobRequestBuilderView {
            job_type,
            program_hash: Seq::empty(),
            inputs: Seq::empty(),
            idempotency_key: None,
            key_id: "default-key-v1"@,
            client_id,
        }
    }

    /// A builder with no program hash, no inputs, no idempotency key and the
    /// key `default-key-v1`.
    pub fn new(job_type: JobType, client_id: &str) -> (b: Self)
        ensures
            b@ == Self::initial(job_type, client_id@),
    {
        let b = JobRequestBuilder {
            job_type,
            program_hash: String::new(),
            inputs: Vec::new(),
            idempotency_key: None,
            key_id: owned("default-key-v1"),
            client_id: owned(client_id),
        };
        assert(b@ =~= Self::initial(job_type, client_id@));
        b
    }

    /// Sets the program hash.
    pub fn program_hash(self, hash: &str) -> (b: Self)
        ensures
            b@ == (JobRequestBuilderView { program_hash: hash@, ..self@ }),
    {
        let b = JobRequestBuilder { program_hash: owned(hash), ..self };
        assert(b@ =~= (JobRequestBuilderView { program_hash: hash@, ..self@ }));
        b
    }

    /// Appends one input.
    pub fn input(self, input: ClientInput) -> (b: Self)
        ensures
            b@ == (JobRequestBuilderView { inputs: self@.inputs.push(input), ..self@ }),
    {
        let mut b = self;
        b.inputs.push(input);
        assert(b@ =~= (JobRequestBuilderView { inputs: self@.inputs.push(input), ..self@ }));
        b
    }

    /// Appends several inputs, in order.
    pub fn inputs(self, inputs: Vec<ClientInput>) -> (b: Self)
        ensures
            b@ == (JobRequestBuilderView { inputs: self@.inputs + inputs@, ..self@ }),
    {
        let mut b = self;
        let mut more = inputs;
        b.inputs.append(&mut more);
        assert(b@ =~= (JobRequestBuilderView { inputs: self@.inputs + inputs@, ..self@ }));
        b
    }

    /// Sets the idempotency key.
    pub fn idempotency_key(self, key: &str) -> (b: Self)
        ensures
            b@ == (JobRequestBuilderView { idempotency_key: Some(key@), ..self@ }),
    {
        let b = JobRequestBuilder { idempotency_key: Some(owned(key)), ..self };
        assert(b@ =~= (JobRequestBuilderView { idempotency_key: Some(key@), ..self@ }));
        b
    }

    /// Sets the key id.
    pub fn key_id(self, key_id: &str) -> (b: Self)
        ensures
            b@ == (JobRequestBuilderView { key_id: key_id@, ..self@ }),
    {
        let b = JobRequestBuilder { key_id: owned(key_id), ..self };
        assert(b@ =~= (JobRequestBuilderView { key_id: key_id@, ..self@ }));
        b
    }

    /// Builds the request, with a fresh random idempotency key when none was
    /// set and the current time as its timestamp: the whole seconds since the
    /// Unix epoch, or 0 when the clock reads before the epoch.
    pub fn build(self) -> (r: JobRequest)
        ensures
            r.job_type == self@.job_type,
            r.program_hash@ == self@.program_hash,
            r.inputs@ == self@.inputs,
            r.key_id@ == self@.key_id,
            r.client_id@ == self@.client_id,
            match self@.idempotency_key {
                Some(k) => r.idempotency_key@ == k,
                None => r.idempotency_key@.len() == 36,
            },
    {
        let fresh = match &self.idempotency_key {
            Some(_) => String::new(),
            None => fresh_uuid_text(),
        };
        let now: i64 = match unix_time() {
            Some((secs, _)) => secs as i64,
            None => 0,
        };
        self.build_with(fresh, now)
    }

    /// Builds the request with `fresh_key` as the idempotency key when none
    /// was set, and the time `now` (seconds since the Unix epoch, taken as
    /// `u64` the way `as` converts) as its timestamp.
    pub fn build_with(self, fresh_key: String, now: i64) -> (r: JobRequest)
        ensures
            r.job_type == self@.job_type,
            r.program_hash@ == self@.program_hash,
            r.inputs@ == self@.inputs,
            r.key_id@ == self@.key_id,
            r.client_id@ == self@.client_id,
            r.idempotency_key@ == (match self@.idempotency_key {
                Some(k) => k,
                None => fresh_key@,
            }),
            r.request_ts == now as u64,
    {
        let key = match self.idempotency_key {
            Some(k) => k,
            None => fresh_key,
        };
        JobRequest {
            job_type: self.job_type,
            program_hash: self.program_hash,
            inputs: self.inputs,
            idempotency_key: key,
            key_id: self.key_id,
            client_id: self.client_id,
            request_ts: now as u64,
        }
    }
}

/// The coordinator's answer to a submitted job.
#[derive(Clone, Debug)]
pub struct JobSubmitResponse {
    /// Identifier of the job, as the 128-bit value of its UUID.
    pub job_id: u128,
    /// Status of the job.
    pub status: JobStatus,
    /// Position in the queue, if queued.
    pub queue_position: Option<usize>,
}

/// The coordinator's report on a job.
#[derive(Clone, Debug)]
pub struct JobStatusResponse {
    /// Identifier of the job, as the 128-bit value of its UUID.
    pub job_id: u128,
    /// Status of the job.
    pub status: JobStatus,
    /// Kind of job.
    pub job_type: JobType,
    /// Submission time, in milliseconds since the Unix epoch.
    pub submitted_at: i64,
    /// Completion time, in milliseconds since the Unix epoch.
    pub completed_at: Option<i64>,
    /// Base64 outputs, when complete.
    pub outputs: Option<String>,
    /// Error message, when failed.
    pub error: Option<String>,
}

impl JobStatusResponse {
    /// The decoded outputs: `None` when there are none or they are not valid
    /// base64.
    pub fn outputs_bytes(&self) -> (r: Option<Vec<u8>>)
        ensures
            match self.outputs {
                None => r is None,
                Some(s) => match base64_standard_decoded(s@) {
                    Some(bytes) => r matches Some(v) && v@ == bytes,
                    None => r is None,
                },
            },
    {
        match &self.outputs {
            None => None,
            Some(s) => base64_decode(s.as_str()),
        }
    }
}

/// Health report of the coordinator.
#[derive(Clone, Debug)]
pub struct CoordinatorStatus {
    pub healthy: bool,
    pub party_count: usize,
    pub queue_depth: usize,
    pub active_jobs: usize,
    pub uptime_seconds: u64,
}

/// A party known to the coordinator.
#[derive(Clone, Debug)]
pub struct PartyInfo {
    pub party_id: usize,
    pub public_key: String,
    pub endpoint: String,
    pub online: bool,
}

/// The coordinator's key material summary.
#[derive(Clone, Debug)]
pub struct KeysResponse {
    pub key_id: String,
    pub encryption_pubkey: String,
    pub n_parties: usize,
    pub threshold: usize,
}

} // verus!
