//! Client of the MPC coordinator's HTTP service: its configuration, the
//! addresses of its endpoints, and the decisions taken on each answer.
//!
//! The requests themselves are sent by the caller; this module says where
//! they go and what each answer means.

use vstd::prelude::*;
use crate::coordinator::types::{job_status_name, JobStatus};
use crate::error::{Error, ErrorView, rview};
use crate::text::{concat_str, owned};
use crate::types::Duration;

verus! {

#[verifier::external_type_specification]
#[verifier::external_body]
pub struct ExHttpClient(reqwest::Client);

/// The lower-case hexadecimal digit of a value below 16.
pub open spec fn hex_digit(d: nat) -> char {
    if d < 10 {
        (48 + d) as char
    } else {
        (97 + (d - 10)) as char
    }
}

/// The last `n` hexadecimal digits of `v`, most significant first.
pub open spec fn hex_digits(v: nat, n: nat) -> Seq<char>
    decreases n,
{
    if n == 0 {
        Seq::empty()
    } else {
        hex_digits(v / 16, (n - 1) as nat).push(hex_digit(v % 16))
    }
}

/// The hyphenated lower-case text of the UUID whose 128-bit value is `id`:
/// its 32 hexadecimal digits, most significant first, in groups of 8, 4, 4,
/// 4 and 12 joined by `-`.
pub open spec fn uuid_hyphenated(id: u128) -> Seq<char> {
    let h = hex_digits(id as nat, 32);
    h.subrange(0, 8) + "-"@ + h.subrange(8, 12) + "-"@ + h.subrange(12, 16) + "-"@ + h.subrange(16, 20)
        + "-"@ + h.subrange(20, 32)
}

/// Calls `uuid::Uuid::from_u128(id).to_string()`. Claimed: the text is the
/// hyphenated lower-case form [`uuid_hyphenated`] of the value (whose bytes
/// `from_u128` takes big-endian), 36 characters long.
#[verifier::external_body]
fn uuid_text(id: u128) -> (s: String)
    ensures
        s@ == uuid_hyphenated(id),
        s@.len() == 36,
{
    uuid::Uuid::from_u128(id).to_string()
}

/// Calls `reqwest::Client::builder().timeout(..).build()` with the timeout
/// of `secs` seconds and `nanos` nanoseconds; a failure comes back as its
/// `Display` text. `std::time::Duration::new` panics when the nanoseconds
/// carry past the largest number of seconds, so they must be below one
/// second. Nothing is claimed: building depends on the system.
#[verifier::external_body]
fn build_http_client(secs: u64, nanos: u32) -> (r: Result<reqwest::Client, String>)
    requires
        nanos < 1_000_000_000,
{
    reqwest::Client::builder()
        .timeout(std::time::Duration::new(secs, nanos))
        .build()
        .map_err(|e| e.to_string())
}

/// Settings of a coordinator client.
#[derive(Clone, Debug)]
pub struct CoordinatorClientConfig {
    /// Base URL of the service, such as `http://localhost:8080`.
    pub base_url: String,
    /// Timeout of each request.
    pub timeout: Duration,
    /// Pause between two polls of a job.
    pub poll_interval: Duration,
}

impl CoordinatorClientConfig {
    /// Settings for `base_url`, with a 30 second timeout and a 500 ms poll
    /// interval.
    pub fn new(base_url: &str) -> (c: Self)
        ensures
            c.base_url@ == base_url@,
            c.timeout == Duration::from_secs_spec(30),
            c.poll_interval == Duration::from_millis_spec(500),
    {
        CoordinatorClientConfig {
            base_url: owned(base_url),
            timeout: Duration::from_secs(30),
            poll_interval: Duration::from_millis(500),
        }
    }

    /// Sets the timeout.
    pub fn timeout(self, timeout: Duration) -> (c: Self)
        ensures
            c.base_url == self.base_url,
            c.timeout == timeout,
            c.poll_interval == self.poll_interval,
    {
        CoordinatorClientConfig { timeout, ..self }
    }

    /// Sets the poll interval.
    pub fn poll_interval(self, interval: Duration) -> (c: Self)
        ensures
            c.base_url == self.base_url,
            c.timeout == self.timeout,
            c.poll_interval == interval,
    {
        CoordinatorClientConfig { poll_interval: interval, ..self }
    }
}

impl Default for CoordinatorClientConfig {
    fn default() -> (c: Self)
        ensures
            c.base_url@ == "http://localhost:8080"@,
            c.timeout == Duration::from_secs_spec(30),
            c.poll_interval == Duration::from_millis_spec(500),
    {
        CoordinatorClientConfig::new("http://localhost:8080")
    }
}

/// The message prefix of a failure to set up the HTTP client.
pub open spec fn http_setup_failure_prefix() -> Seq<char> {
    "Failed to create HTTP client: "@
}

/// A client of the coordinator service.
pub struct CoordinatorClient {
    config: CoordinatorClientConfig,
    http_client: reqwest::Client,
}

impl CoordinatorClient {
    /// The settings of the client.
    pub closed spec fn config_spec(&self) -> CoordinatorClientConfig {
        self.config
    }

    /// The HTTP client the requests go through.
    pub closed spec fn http_client_spec(&self) -> reqwest::Client {
        self.http_client
    }

    /// A client with these settings; fails when the HTTP client cannot be
    /// set up.
    pub fn new(config: CoordinatorClientConfig) -> (r: Result<Self, Error>)
        ensures
            r matches Ok(c) ==> c.config_spec() == config,
            r matches Err(e) ==> e matches Error::Runtime(m) && http_setup_failure_prefix().is_prefix_of(
                m@,
            ),
    {
        let secs = config.timeout.as_secs();
        let nanos = config.timeout.subsec_nanos();
        match build_http_client(secs, nanos) {
            Ok(http_client) => Ok(CoordinatorClient { config, http_client }),
            Err(reason) => {
                let m = concat_str(owned("Failed to create HTTP client: "), reason.as_str());
                assert(m@.subrange(0, http_setup_failure_prefix().len() as int)
                    =~= http_setup_failure_prefix());
                Err(Error::Runtime(m))
            },
        }
    }

    /// A client for `base_url` with the default settings.
    pub fn with_url(base_url: &str) -> (r: Result<Self, Error>)
        ensures
            r matches Ok(c) ==> c.config_spec().base_url@ == base_url@
                && c.config_spec().timeout == Duration::from_secs_spec(30)
                && c.config_spec().poll_interval == Duration::from_millis_spec(500),
            r matches Err(e) ==> e matches Error::Runtime(m) && http_setup_failure_prefix().is_prefix_of(
                m@,
            ),
    {
        Self::new(CoordinatorClientConfig::new(base_url))
    }

    /// The base URL of the service.
    pub fn base_url(&self) -> (s: &str)
        ensures
            s@ == self.config_spec().base_url@,
    {
        self.config.base_url.as_str()
    }

    /// The pause between two polls.
    pub fn poll_interval(&self) -> (d: Duration)
        ensures
            d == self.config_spec().poll_interval,
    {
        self.config.poll_interval
    }

    /// The HTTP client that requests go through.
    pub fn http_client(&self) -> (c: &reqwest::Client)
        ensures
            *c == self.http_client_spec(),
    {
        &self.http_client
    }

    /// The URL of an endpoint: the base URL followed by `path`.
    pub fn endpoint(&self, path: &str) -> (s: String)
        ensures
            s@ == self.config_spec().base_url@ + path@,
    {
        concat_str(owned(self.config.base_url.as_str()), path)
    }

    /// The URL of the job `job_id`: `{base}/mpc/jobs/{uuid}`.
    pub fn job_url(&self, job_id: u128) -> (s: String)
        ensures
            s@ == self.config_spec().base_url@ + "/mpc/jobs/"@ + uuid_hyphenated(job_id),
    {
        let base = self.endpoint("/mpc/jobs/");
        concat_str(base, uuid_text(job_id).as_str())
    }
}

/// Builder of a [`CoordinatorClient`].
pub struct CoordinatorClientBuilder {
    /// The settings being built.
    pub config: CoordinatorClientConfig,
}

impl CoordinatorClientBuilder {
    /// A builder for `base_url` with the default settings.
    pub fn new(base_url: &str) -> (b: Self)
        ensures
            b.config.base_url@ == base_url@,
            b.config.timeout == Duration::from_secs_spec(30),
            b.config.poll_interval == Duration::from_millis_spec(500),
    {
        CoordinatorClientBuilder { config: CoordinatorClientConfig::new(base_url) }
    }

    /// Sets the timeout.
    pub fn timeout(self, timeout: Duration) -> (b: Self)
        ensures
            b.config.base_url == self.config.base_url,
            b.config.timeout == timeout,
            b.config.poll_interval == self.config.poll_interval,
    {
        CoordinatorClientBuilder { config: self.config.timeout(timeout) }
    }

    /// Sets the poll interval.
    pub fn poll_interval(self, interval: Duration) -> (b: Self)
        ensures
            b.config.base_url == self.config.base_url,
            b.config.timeout == self.config.timeout,
            b.config.poll_interval == interval,
    {
        CoordinatorClientBuilder { config: self.config.poll_interval(interval) }
    }

    /// Builds the client.
    pub fn build(self) -> (r: Result<CoordinatorClient, Error>)
        ensures
            r matches Ok(c) ==> c.config_spec() == self.config,
            r matches Err(e) ==> e matches Error::Runtime(m) && http_setup_failure_prefix().is_prefix_of(
                m@,
            ),
    {
        CoordinatorClient::new(self.config)
    }
}

/// Whether an HTTP status code means success (the 2xx range).
pub open spec fn is_success(code: u16) -> bool {
    200 <= code < 300
}

/// The message of an answer that was not a success: what failed, the
/// status line and the body.
pub open spec fn status_failure_text(failure: Seq<char>, status: Seq<char>, body: Seq<char>) -> Seq<char> {
    failure + " with status "@ + status + ": "@ + body
}

/// Checks the status of an answer: success for the 2xx codes, else a runtime
/// error naming what failed (`failure`), the status line and the body.
pub fn check_status(code: u16, status: &str, body: &str, failure: &str) -> (r: Result<(), Error>)
    ensures
        r is Ok <==> is_success(code),
        !is_success(code) ==> rview(r) == Err::<(), ErrorView>(
            ErrorView::Runtime(status_failure_text(failure@, status@, body@)),
        ),
{
    if 200 <= code && code < 300 {
        Ok(())
    } else {
        let m = concat_str(concat_str(owned(failure), " with status "), status);
        let m = concat_str(concat_str(m, ": "), body);
        assert(m@ =~= status_failure_text(failure@, status@, body@));
        Err(Error::Runtime(m))
    }
}

/// Checks the answer to a job-status request: `404` means the job is not
/// known; other non-2xx codes are failures as in [`check_status`].
pub fn check_job_status(code: u16, status: &str, body: &str, job_id: u128) -> (r: Result<(), Error>)
    ensures
        r is Ok <==> is_success(code),
        code == 404 ==> rview(r) == Err::<(), ErrorView>(
            ErrorView::Runtime("Job not found: "@ + uuid_hyphenated(job_id)),
        ),
        code != 404 && !is_success(code) ==> rview(r) == Err::<(), ErrorView>(
            ErrorView::Runtime(status_failure_text("Failed to get job status"@, status@, body@)),
        ),
{
    if code == 404 {
        return Err(Error::Runtime(concat_str(owned("Job not found: "), uuid_text(job_id).as_str())));
    }
    check_status(code, status, body, "Failed to get job status")
}

/// The error for a request that could not be sent or whose answer could not
/// be read: what failed and why.
pub fn transport_failure(failure: &str, reason: &str) -> (e: Error)
    ensures
        e matches Error::Runtime(m) && m@ == failure@ + ": "@ + reason@,
{
    let m = concat_str(concat_str(owned(failure), ": "), reason);
    Error::Runtime(m)
}

/// What to do after one poll of a job.
#[derive(Debug)]
pub enum PollStep {
    /// The job reached a final state: return its report.
    Finished,
    /// The time is up: fail with this error.
    TimedOut(Error),
    /// Wait the poll interval and poll again.
    Wait,
}

/// The message when polling a job runs out of time.
pub open spec fn poll_timeout_text(job_id: u128, status: JobStatus) -> Seq<char> {
    "Timeout waiting for job "@ + uuid_hyphenated(job_id) + " to complete (status: "@
        + job_status_name(status) + ")"@
}

/// The decision after polling job `job_id` and finding `status`, `elapsed`
/// after polling started: a final status ends the polling; else, once
/// `timeout` has passed, it fails; else it waits.
pub fn poll_step(status: JobStatus, elapsed: Duration, timeout: Duration, job_id: u128) -> (p: PollStep)
    ensures
        status.terminal() ==> p is Finished,
        !status.terminal() && elapsed.total_nanos() >= timeout.total_nanos() ==> (p matches PollStep::TimedOut(
            e,
        ) && rview(Err::<(), Error>(e)) == Err::<(), ErrorView>(
            ErrorView::Runtime(poll_timeout_text(job_id, status)),
        )),
        !status.terminal() && elapsed.total_nanos() < timeout.total_nanos() ==> p is Wait,
{
    if status.is_terminal() {
        return PollStep::Finished;
    }
    if !elapsed.shorter_than(&timeout) {
        let m = concat_str(owned("Timeout waiting for job "), uuid_text(job_id).as_str());
        let m = concat_str(concat_str(m, " to complete (status: "), status.name().as_str());
        let m = concat_str(m, ")");
        assert(m@ =~= poll_timeout_text(job_id, status));
        return PollStep::TimedOut(Error::Runtime(m));
    }
    PollStep::Wait
}

/// Whether the coordinator is healthy, from the outcome of a status request:
/// its `healthy` flag, or `false` when the request failed.
pub fn healthy_from(status: &Result<crate::coordinator::types::CoordinatorStatus, Error>) -> (b: bool)
    ensures
        b == (match status {
            Ok(s) => s.healthy,
            Err(_) => false,
        }),
{
    match status {
        Ok(s) => s.healthy,
        Err(_) => false,
    }
}

} // verus!
