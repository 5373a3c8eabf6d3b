use vstd::prelude::*;
use crate::errors::AgentError;
use crate::fingerprint::record_marker;
use crate::manager::{AppName, AppStatus, Status};
use crate::manifest::Directive;
use crate::service::{
    deps_failed, provision_ok, provision_service, provision_store_effect, ProvisionOutcomes,
    UnitStore,
};
use crate::webserver::{create_nginx_config, nginx_config_spec, opt_view, ConfigStore};

verus! {

// ---------------------------------------------------------------------------
// Per-directive state
// ---------------------------------------------------------------------------

/// Everything one poll cycle holds for one discovered manifest: the raw
/// text and identity it was read under, its parse result, the marker and
/// deployment state it acts on, and the verdicts of the outside steps its
/// deployment depends on.
#[derive(Debug)]
pub struct DirectiveJob {
    /// The manifest file's raw text, hashed and recorded as read.
    pub raw_content: String,
    /// The deployment's identity relative to the webroot.
    pub service_id: String,
    /// The deployment directory: document root and working directory.
    pub base_path: String,
    /// The decoded manifest, or nothing when it was malformed.
    pub parsed: Option<Directive>,
    /// The marker gating this directive version; its content is the raw
    /// manifest text of the recorded run.
    pub marker: Option<String>,
    /// The configuration paths this deployment writes.
    pub config: ConfigStore,
    /// The unit-manager state this deployment writes.
    pub units: UnitStore,
    /// The verdict of the configuration validation command.
    pub validation_ok: bool,
    /// The verdicts of the provision steps.
    pub provision: ProvisionOutcomes,
    /// The byte count the marker copy reported.
    pub marker_copy_bytes: u64,
}

/// The terminal state of one directive in one poll cycle.
#[derive(Debug)]
pub enum DirectiveOutcome {
    /// A marker already gates this directive version; nothing was touched.
    Skipped,
    /// All side effects succeeded and the marker was recorded.
    Deployed,
    /// A step failed before or during deployment; nothing was recorded.
    Failed(AgentError),
    /// Deployment succeeded but recording the marker did not: the most
    /// dangerous case, surfaced distinctly because only an operator can
    /// correct it.
    RecordFailed(AgentError),
}

// ---------------------------------------------------------------------------
// The per-directive step
// ---------------------------------------------------------------------------

/// Whether the configuration step of a job passes: not requested, or
/// requested and validated.
pub open spec fn config_step_ok(d: Directive, validation_ok: bool) -> bool {
    !d.webserver || validation_ok
}

/// Whether every deployment side effect of a job succeeds, so that the
/// marker recording is reached.
pub open spec fn job_effects_ok(pre: DirectiveJob, d: Directive) -> bool {
    config_step_ok(d, pre.validation_ok) && (!d.nodejs_bool || provision_ok(pre.provision))
}

/// The fields of a job that the step never rewrites.
pub open spec fn job_frame(pre: DirectiveJob, post: DirectiveJob) -> bool {
    &&& post.raw_content@ == pre.raw_content@
    &&& post.service_id@ == pre.service_id@
    &&& post.base_path@ == pre.base_path@
    &&& post.parsed == pre.parsed
    &&& post.validation_ok == pre.validation_ok
    &&& post.provision == pre.provision
    &&& post.marker_copy_bytes == pre.marker_copy_bytes
}

/// What recording the marker does once every side effect has succeeded: a
/// copy that moved zero bytes is an integrity failure and leaves no marker
/// to gate a future run; otherwise the marker holds the raw manifest text.
pub open spec fn marker_record_clause(
    pre: DirectiveJob,
    post: DirectiveJob,
    r: DirectiveOutcome,
) -> bool {
    &&& pre.marker_copy_bytes == 0 ==> (r matches DirectiveOutcome::RecordFailed(e)
        && e is Integrity) && post.marker is None
    &&& pre.marker_copy_bytes > 0 ==> r is Deployed && (post.marker matches Some(m) && m@
        == pre.raw_content@)
}

/// The step taken for a job whose manifest decoded to `d` and which no
/// marker gates.
pub open spec fn job_step_parsed(
    pre: DirectiveJob,
    post: DirectiveJob,
    d: Directive,
    platform_version: Seq<char>,
    r: DirectiveOutcome,
) -> bool {
    &&& (d.webserver && !pre.validation_ok) ==> (r matches DirectiveOutcome::Failed(e)
        && e is Integrity) && opt_view(post.config.live) == opt_view(pre.config.live)
        && post.units == pre.units && post.marker is None
    &&& (d.webserver && pre.validation_ok) ==> opt_view(post.config.live) == Some(
        nginx_config_spec(d.port, d.url@, pre.base_path@, opt_view(d.php_fpm_version)),
    ) && post.config.backup is None && post.config.temp is None
    &&& !d.webserver ==> post.config == pre.config
    &&& (config_step_ok(d, pre.validation_ok) && d.nodejs_bool) ==> provision_store_effect(
        pre.units,
        post.units,
        d,
        pre.service_id@,
        pre.base_path@,
        platform_version,
        pre.provision,
    )
    &&& (config_step_ok(d, pre.validation_ok) && d.nodejs_bool && deps_failed(pre.provision))
        ==> (r matches DirectiveOutcome::Failed(e) && e is Dependency)
    &&& (config_step_ok(d, pre.validation_ok) && d.nodejs_bool && !deps_failed(pre.provision)
        && !provision_ok(pre.provision)) ==> (r matches DirectiveOutcome::Failed(e)
        && e is Service)
    &&& (config_step_ok(d, pre.validation_ok) && !d.nodejs_bool) ==> post.units == pre.units
    &&& job_effects_ok(pre, d) ==> marker_record_clause(pre, post, r)
    &&& !job_effects_ok(pre, d) ==> post.marker is None
}

/// The whole per-directive state machine for one poll cycle: skip silently
/// under an existing marker, fail on a malformed manifest, otherwise deploy
/// the requested side effects in order and record the marker last, only
/// after all of them succeeded.
pub open spec fn job_step(
    pre: DirectiveJob,
    post: DirectiveJob,
    platform_version: Seq<char>,
    r: DirectiveOutcome,
) -> bool {
    &&& job_frame(pre, post)
    &&& pre.marker is Some ==> r is Skipped && post == pre
    &&& (pre.marker is None && pre.parsed is None) ==> (r matches DirectiveOutcome::Failed(e)
        && e is Parse) && post.config == pre.config && post.units == pre.units
        && post.marker is None
    &&& pre.marker is None ==> (pre.parsed matches Some(d) ==> job_step_parsed(
        pre,
        post,
        d,
        platform_version,
        r,
    ))
}

/// Executes one directive for this cycle: skips it when its version is
/// already recorded, rejects it when malformed, and otherwise deploys the
/// webserver configuration and the supervised process as the manifest asks,
/// recording the execution marker only after every side effect succeeded.
pub fn handle_directive(job: &mut DirectiveJob, platform_version: &str) -> (r: DirectiveOutcome)
    ensures
        job_step(*old(job), *final(job), platform_version@, r),
{
    // An existing marker is the sole source of truth for "already
    // executed": skip without touching anything.
    if job.marker.is_some() {
        return DirectiveOutcome::Skipped;
    }
    let d = match &job.parsed {
        Some(d) => d,
        None => {
            return DirectiveOutcome::Failed(
                AgentError::Parse("the manifest could not be decoded".to_owned()),
            );
        },
    };
    // Reconfigure the webserver when asked; a failed validation has rolled
    // the live configuration back and fails this directive.
    if d.webserver {
        match create_nginx_config(d, job.base_path.as_str(), &mut job.config, job.validation_ok) {
            Ok(_) => {},
            Err(e) => {
                return DirectiveOutcome::Failed(e);
            },
        }
    }
    // Provision the supervised process and its monitor when asked.
    if d.nodejs_bool {
        match provision_service(
            &mut job.units,
            d,
            job.service_id.as_str(),
            job.base_path.as_str(),
            platform_version,
            job.provision,
        ) {
            Ok(_) => {},
            Err(e) => {
                return DirectiveOutcome::Failed(e);
            },
        }
    }
    // Record the execution marker last, after all side effects succeeded.
    match record_marker(&mut job.marker, job.raw_content.as_str(), job.marker_copy_bytes) {
        Ok(_) => DirectiveOutcome::Deployed,
        Err(e) => DirectiveOutcome::RecordFailed(e),
    }
}

// ---------------------------------------------------------------------------
// The cycle
// ---------------------------------------------------------------------------

/// Processes the directives of one poll cycle strictly in order, each
/// through the per-directive state machine, so that one failing directive
/// never blocks the others.
pub fn run_cycle(jobs: Vec<DirectiveJob>, platform_version: &str) -> (r: (
    Vec<DirectiveJob>,
    Vec<DirectiveOutcome>,
))
    ensures
        r.0@.len() == jobs@.len(),
        r.1@.len() == jobs@.len(),
        forall|i: int|
            0 <= i < jobs@.len() ==> job_step(jobs@[i], r.0@[i], platform_version@, r.1@[i]),
{
    let ghost orig = jobs@;
    let mut remaining = jobs;
    let n = remaining.len();
    let mut processed: Vec<DirectiveJob> = Vec::new();
    let mut outcomes: Vec<DirectiveOutcome> = Vec::new();
    let mut i: usize = 0;
    proof {
        assert(remaining@ =~= orig.skip(0));
    }
    while i < n
        invariant
            0 <= i <= n,
            n == orig.len(),
            remaining@ == orig.skip(i as int),
            processed@.len() == i,
            outcomes@.len() == i,
            forall|k: int|
                0 <= k < i ==> job_step(orig[k], processed@[k], platform_version@, outcomes@[k]),
        decreases n - i,
    {
        let mut job = remaining.remove(0);
        proof {
            assert(job == orig[i as int]);
        }
        let outcome = handle_directive(&mut job, platform_version);
        processed.push(job);
        outcomes.push(outcome);
        proof {
            assert(remaining@ =~= orig.skip(i + 1));
        }
        i = i + 1;
    }
    (processed, outcomes)
}

// ---------------------------------------------------------------------------
// Status emission
// ---------------------------------------------------------------------------

/// The status report one directive's outcome asks for: failures surface as
/// a `Warning`, a skip or a clean deployment reports nothing of its own.
pub fn status_for_outcome(outcome: &DirectiveOutcome, timestamp: u64, version: String) -> (r:
    Option<Status>)
    ensures
        (outcome is Skipped || outcome is Deployed) ==> r is None,
        (outcome is Failed || outcome is RecordFailed) ==> (r matches Some(s) && s.app_name
            == AppName::Directive && s.app_status == AppStatus::Warning && s.timestamp
            == timestamp && s.version@ == version@),
{
    match outcome {
        DirectiveOutcome::Skipped => None,
        DirectiveOutcome::Deployed => None,
        DirectiveOutcome::Failed(_) => Some(Status::warning(timestamp, version)),
        DirectiveOutcome::RecordFailed(_) => Some(Status::warning(timestamp, version)),
    }
}

/// Judges the directory enumeration of a cycle: a scan failure aborts the
/// cycle (never the process) as a `Scan` error.
pub fn judge_scan(scan_ok: bool) -> (r: Result<(), AgentError>)
    ensures
        scan_ok <==> r is Ok,
        !scan_ok ==> (r matches Err(e) && e is Scan),
{
    if scan_ok {
        Ok(())
    } else {
        Err(AgentError::Scan("the directive tree could not be enumerated".to_owned()))
    }
}

/// The report closing a cycle: `Running` after a completed pass over the
/// directives, `Warning` when the scan failed and the cycle was abandoned.
pub fn cycle_close_status(scan_ok: bool, timestamp: u64, version: String) -> (r: Status)
    ensures
        r.app_name == AppName::Directive,
        scan_ok ==> r.app_status == AppStatus::Running,
        !scan_ok ==> r.app_status == AppStatus::Warning,
        r.timestamp == timestamp,
        r.version@ == version@,
{
    if scan_ok {
        Status::running(timestamp, version)
    } else {
        Status::warning(timestamp, version)
    }
}

// ---------------------------------------------------------------------------
// Laws
// ---------------------------------------------------------------------------

/// Idempotency of the executed gate: a directive version that is already
/// recorded is skipped, and the step performs no configuration, unit or
/// marker mutation at all.
pub proof fn lemma_recorded_directive_untouched(
    pre: DirectiveJob,
    post: DirectiveJob,
    platform_version: Seq<char>,
    r: DirectiveOutcome,
)
    requires
        job_step(pre, post, platform_version, r),
        pre.marker is Some,
    ensures
        r is Skipped,
        post == pre,
{
}

/// A job that succeeds end to end: no marker yet, a well-formed manifest,
/// and every outside verdict it depends on positive.
pub open spec fn job_succeeds(pre: DirectiveJob) -> bool {
    &&& pre.marker is None
    &&& pre.parsed matches Some(d) && job_effects_ok(pre, d)
    &&& pre.marker_copy_bytes > 0
}

/// Cycle resilience: in one cycle, a malformed manifest is reported as a
/// parse failure and leaves its deployment untouched, while a well-formed
/// manifest beside it is still deployed and recorded — never the reverse.
///
/// The well-formed side is conditioned on `job_succeeds`: positive outside
/// verdicts and a non-zero marker copy, which "fully deployed" presumes —
/// a marker is only ever recorded after every side effect succeeded.
pub proof fn lemma_cycle_isolates_bad_manifest(
    pre: Seq<DirectiveJob>,
    post: Seq<DirectiveJob>,
    outcomes: Seq<DirectiveOutcome>,
    platform_version: Seq<char>,
    bad: int,
    good: int,
)
    requires
        post.len() == pre.len(),
        outcomes.len() == pre.len(),
        forall|i: int| 0 <= i < pre.len() ==> job_step(pre[i], post[i], platform_version, outcomes[i]),
        0 <= bad < pre.len(),
        0 <= good < pre.len(),
        pre[bad].marker is None,
        pre[bad].parsed is None,
        job_succeeds(pre[good]),
    ensures
        outcomes[bad] matches DirectiveOutcome::Failed(e) && e is Parse,
        post[bad].config == pre[bad].config,
        post[bad].units == pre[bad].units,
        post[bad].marker is None,
        outcomes[good] is Deployed,
        post[good].marker matches Some(m) && m@ == pre[good].raw_content@,
{
    assert(job_step(pre[bad], post[bad], platform_version, outcomes[bad]));
    assert(job_step(pre[good], post[good], platform_version, outcomes[good]));
}

} // verus!
