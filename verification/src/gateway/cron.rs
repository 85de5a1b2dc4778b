//! Scheduled jobs: their rules, and the turns that they ask for.

use crate::config::{CronJob, FrankClawConfig, RawCronJob};
use crate::error::{config_invalid, outcome_is, ErrorView, FrankClawError};
use crate::gateway::chat::{ChatRequest, ChatResponse};
use crate::gateway::protocol::{EventFrame, EventType};
use crate::json::{JsonObject, JsonView};
use crate::text::{blank, cat2, cat3, cat5, is_blank, str_eq};
use crate::types::parsed_key;
use vstd::prelude::*;

verus! {

/// The agent of a job's session, where its key has one.
pub open spec fn session_agent(job: CronJob) -> Option<Seq<char>> {
    match parsed_key(job.session_key@) {
        Some((agent, _, _)) => Some(agent),
        None => None,
    }
}

/// The rule that a job breaks, if any.
pub open spec fn job_problem(job: CronJob) -> Option<ErrorView> {
    if is_blank(job.id@) {
        Some(ErrorView::ConfigValidation("cron job id cannot be empty"@))
    } else if is_blank(job.prompt@) {
        Some(
            ErrorView::ConfigValidation(
                "cron job '"@ + job.id@ + "' prompt cannot be empty"@,
            ),
        )
    } else if session_agent(job) is None {
        Some(
            ErrorView::ConfigValidation(
                "cron job '"@ + job.id@ + "' has an invalid session key"@,
            ),
        )
    } else if session_agent(job)->0 != job.agent_id@ {
        Some(
            ErrorView::ConfigValidation(
                "cron job '"@ + job.id@ + "' session key agent '"@ + session_agent(job)->0
                    + "' does not match '"@ + job.agent_id@ + "'"@,
            ),
        )
    } else {
        None
    }
}

/// Checks a job: it has a name and a prompt, and its session belongs to its
/// agent.
pub fn validate_cron_job(job: &CronJob) -> (r: Result<(), FrankClawError>)
    ensures
        outcome_is(r, job_problem(*job)),
{
    if blank(job.id.as_str()) {
        return Err(config_invalid("cron job id cannot be empty"));
    }
    if blank(job.prompt.as_str()) {
        return Err(
            config_invalid(
                cat3("cron job '", job.id.as_str(), "' prompt cannot be empty").as_str(),
            ),
        );
    }
    match job.session_key.parse() {
        Some((agent, _channel, _account)) => {
            if str_eq(agent.as_str(), job.agent_id.as_str()) {
                Ok(())
            } else {
                Err(
                    config_invalid(
                        cat3(
                            cat5(
                                "cron job '",
                                job.id.as_str(),
                                "' session key agent '",
                                agent.as_str(),
                                "' does not match '",
                            ).as_str(),
                            job.agent_id.as_str(),
                            "'",
                        ).as_str(),
                    ),
                )
            }
        },
        None => Err(
            config_invalid(
                cat3("cron job '", job.id.as_str(), "' has an invalid session key").as_str(),
            ),
        ),
    }
}

/// The rule that the job at `i` breaks, if any.
pub open spec fn raw_job_problem(job: RawCronJob) -> Option<ErrorView> {
    match job {
        RawCronJob::Job(job) => job_problem(job),
        RawCronJob::Malformed(err) => Some(
            ErrorView::ConfigValidation("invalid cron job configuration: "@ + err@),
        ),
    }
}

/// The first rule that a job from `i` on breaks, if any.
pub open spec fn jobs_problem(jobs: Seq<RawCronJob>, i: int) -> Option<ErrorView>
    decreases jobs.len() - i,
{
    if i < 0 || i >= jobs.len() {
        None
    } else if raw_job_problem(jobs[i]) is Some {
        raw_job_problem(jobs[i])
    } else {
        jobs_problem(jobs, i + 1)
    }
}

/// The jobs of a configuration, or the first rule that one of them breaks.
pub fn parse_cron_jobs(config: &FrankClawConfig) -> (r: Result<Vec<CronJob>, FrankClawError>)
    ensures
        outcome_is(r, jobs_problem(config.cron.jobs@, 0)),
        r is Ok ==> r->Ok_0@.len() == config.cron.jobs@.len() && forall|i: int|
            0 <= i < r->Ok_0@.len() ==> config.cron.jobs@[i] == RawCronJob::Job(
                #[trigger] r->Ok_0@[i],
            ),
{
    let jobs = &config.cron.jobs;
    let mut out: Vec<CronJob> = Vec::new();
    let mut i: usize = 0;
    while i < jobs.len()
        invariant
            i <= jobs@.len(),
            *jobs == config.cron.jobs,
            jobs_problem(jobs@, 0) == jobs_problem(jobs@, i as int),
            out@.len() == i,
            forall|k: int| 0 <= k < i ==> jobs@[k] == RawCronJob::Job(#[trigger] out@[k]),
        decreases jobs@.len() - i,
    {
        match &jobs[i] {
            RawCronJob::Job(job) => {
                match validate_cron_job(job) {
                    Ok(_) => {},
                    Err(err) => {
                        return Err(err);
                    },
                }
                out.push(job.clone());
            },
            RawCronJob::Malformed(err) => {
                return Err(
                    config_invalid(
                        cat2("invalid cron job configuration: ", err.as_str()).as_str(),
                    ),
                );
            },
        }
        i = i + 1;
    }
    Ok(out)
}

/// What to do with the jobs of a configuration when the gateway starts: hand
/// them to the scheduler, and start it where it is turned on.
pub fn start_cron_runtime(config: &FrankClawConfig) -> (r: Result<
    (Vec<CronJob>, bool),
    FrankClawError,
>)
    ensures
        outcome_is(r, jobs_problem(config.cron.jobs@, 0)),
        match r {
            Ok((jobs, start)) => start == config.cron.enabled && jobs@.len()
                == config.cron.jobs@.len() && forall|i: int|
                0 <= i < jobs@.len() ==> config.cron.jobs@[i] == RawCronJob::Job(
                    #[trigger] jobs@[i],
                ),
            Err(_) => true,
        },
{
    match parse_cron_jobs(config) {
        Ok(jobs) => Ok((jobs, config.cron.enabled)),
        Err(err) => Err(err),
    }
}

/// The turn that a job asks for.
pub fn job_request(job: &CronJob) -> (r: ChatRequest)
    ensures
        r.agent_id == Some(job.agent_id),
        r.session_key == Some(job.session_key),
        r.message == job.prompt,
        r.is_plain(),
{
    ChatRequest::plain(
        Some(job.agent_id.clone()),
        Some(job.session_key.clone()),
        job.prompt.clone(),
    )
}

/// The event that tells that a job ran.
pub fn job_ran(job: &CronJob, response: &ChatResponse) -> (r: EventFrame)
    ensures
        r.event == EventType::CronRun,
        r.payload@ == JsonView::Object(
            map![
                "job_id"@ => JsonView::Text(job.id@),
                "agent_id"@ => JsonView::Text(job.agent_id@),
                "session_key"@ => JsonView::Text(response.session_key@),
                "model_id"@ => JsonView::Text(response.model_id@),
            ],
        ),
{
    let mut o = JsonObject::new();
    o.put_text("job_id", job.id.as_str());
    o.put_text("agent_id", job.agent_id.as_str());
    o.put_text("session_key", response.session_key.as_str());
    o.put_text("model_id", response.model_id.as_str());
    EventFrame { event: EventType::CronRun, payload: o.finish() }
}

} // verus!
