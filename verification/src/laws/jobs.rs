//! Scheduled jobs: what is added is what was asked for, and what runs is the
//! job that was named.

use crate::config::{CronJob, FrankClawConfig, RawCronJob};
use crate::error::FrankClawError;
use crate::gateway::chat::{ChatRequest, ChatResponse};
use crate::gateway::cron::{
    job_ran, job_request, jobs_problem, parse_cron_jobs, start_cron_runtime, validate_cron_job,
};
use crate::gateway::methods::{
    cron_add, cron_add_done, cron_job_param, cron_list, cron_remove, cron_run, cron_run_done,
    job_index, NewCronJob,
};
use crate::gateway::protocol::{EventFrame, EventType, RequestFrame, ResponseFrame};
use crate::json::{items_view, lemma_items, JsonValue};
use crate::laws::clients::{refuses, reports};
use crate::laws::terms::{flag, listed, said};
use crate::text::{decimal, is_blank, trimmed};
use crate::types::{parsed_key, AgentId, ChannelId, RequestId, SessionKey};
use vstd::prelude::*;

verus! {

/// A job is added exactly if it has a schedule and a prompt; it has them without
/// the white space around them, under the names that the client gives.
pub proof fn law_job_is_added(
    request: &RequestFrame,
    now_millis: u64,
    r: Result<NewCronJob, ResponseFrame>,
)
    requires
        call_ensures(cron_add, (request, now_millis), r),
    ensures
        ({
            let schedule = said(request.params@, "schedule"@);
            let prompt = said(request.params@, "prompt"@);
            let id = said(request.params@, "id"@);
            let agent = said(request.params@, "agent_id"@);
            let session = said(request.params@, "session_key"@);
            let scheduled = schedule is Some && !is_blank(schedule->0);
            let prompted = prompt is Some && !is_blank(prompt->0);
            &&& r is Ok <==> scheduled && prompted
            &&& !scheduled ==> refuses(r->Err_0, request.id, 400, "schedule is required"@)
            &&& scheduled && !prompted ==> refuses(
                r->Err_0,
                request.id,
                400,
                "prompt is required"@,
            )
            &&& r is Ok ==> r->Ok_0.schedule@ == trimmed(schedule->0) && r->Ok_0.prompt@ == trimmed(
                prompt->0,
            )
            &&& r is Ok && id is Some ==> r->Ok_0.id@ == id->0
            &&& r is Ok && id is None ==> r->Ok_0.id@ == "job-"@ + decimal(now_millis as nat)
            &&& r is Ok && agent is Some ==> r->Ok_0.agent_id@ == agent->0
            &&& r is Ok && agent is None ==> r->Ok_0.agent_id@ == "default"@
            &&& r is Ok && session is Some && session->0.len() > 0 ==> r->Ok_0.session_key@
                == session->0
            &&& r is Ok && (session is None || session->0.len() == 0) ==> r->Ok_0.session_key@
                == r->Ok_0.agent_id@ + ":cron:"@ + r->Ok_0.id@
        }),
{
    reveal_strlit("");
}

proof fn lemma_job_index(jobs: Seq<CronJob>, id: Seq<char>, i: int)
    requires
        0 <= i <= jobs.len(),
    ensures
        i <= job_index(jobs, id, i) <= jobs.len(),
        job_index(jobs, id, i) < jobs.len() ==> jobs[job_index(jobs, id, i)].id@ == id,
        forall|k: int| i <= k < job_index(jobs, id, i) ==> (#[trigger] jobs[k]).id@ != id,
    decreases jobs.len() - i,
{
    if i < jobs.len() && jobs[i].id@ != id {
        lemma_job_index(jobs, id, i + 1);
    }
}

/// The job that runs is the first one of the name that was given: its prompt,
/// for its agent, in its session. Where no job has the name, none runs.
pub proof fn law_named_job_runs(
    id: &RequestId,
    job_id: &str,
    jobs: &Vec<CronJob>,
    at: int,
    r: (ResponseFrame, Option<ChatRequest>),
)
    requires
        call_ensures(cron_run, (id, job_id, jobs), r),
    ensures
        (forall|k: int| 0 <= k < jobs@.len() ==> (#[trigger] jobs@[k]).id@ != job_id@) ==> r.1
            is None && refuses(r.0, *id, 404, "job not found"@),
        0 <= at < jobs@.len() && jobs@[at].id@ == job_id@ && (forall|k: int|
            0 <= k < at ==> (#[trigger] jobs@[k]).id@ != job_id@) ==> {
            &&& r.1 is Some
            &&& r.1->0.message@ == jobs@[at].prompt@
            &&& r.1->0.agent_id == Some(jobs@[at].agent_id)
            &&& r.1->0.session_key == Some(jobs@[at].session_key)
            &&& r.1->0.model_id is None && r.1->0.attachments@.len() == 0
            &&& r.0.id == *id && r.0.reply is Done
            &&& said(r.0.reply->Done_0@, "status"@) == Some("triggered"@)
            &&& said(r.0.reply->Done_0@, "id"@) == Some(job_id@)
        },
{
    reveal_strlit("status");
    reveal_strlit("id");
    assert("status"@.len() == 6);
    assert("id"@.len() == 2);
    lemma_job_index(jobs@, job_id@, 0);
}

/// A scheduled job asks for its prompt, for its agent, in its session.
pub proof fn law_job_asks_for_its_prompt(job: &CronJob, r: ChatRequest)
    requires
        call_ensures(job_request, (job,), r),
    ensures
        r.message@ == job.prompt@,
        r.agent_id is Some && r.agent_id->0@ == job.agent_id@,
        r.session_key is Some && r.session_key->0@ == job.session_key@,
        r.model_id is None && r.attachments@.len() == 0 && r.channel_id is None,
{
}

/// A job is in order exactly if it has a name, a prompt, and a session that
/// belongs to its agent.
pub proof fn law_job_in_order(
    job: &CronJob,
    parsed: Option<(AgentId, ChannelId, String)>,
    r: Result<(), FrankClawError>,
)
    requires
        call_ensures(validate_cron_job, (job,), r),
        call_ensures(SessionKey::parse, (&job.session_key,), parsed),
    ensures
        r is Ok <==> !is_blank(job.id@) && !is_blank(job.prompt@) && match parsed {
            Some((agent, _, _)) => agent@ == job.agent_id@,
            None => false,
        },
        r is Err ==> r->Err_0 is ConfigValidation,
{
}

proof fn lemma_jobs(jobs: Seq<RawCronJob>, i: int, k: int)
    requires
        0 <= i <= k < jobs.len(),
        jobs_problem(jobs, i) is None,
    ensures
        jobs[k] is Job,
        jobs_problem(seq![jobs[k]], 0) is None,
    decreases k - i,
{
    if i < k {
        lemma_jobs(jobs, i + 1, k);
    } else {
        assert(jobs_problem(seq![jobs[k]], 1) is None);
    }
}

/// The jobs of a configuration come out as they are configured, in order, each
/// of them in order; and they are started where the scheduler is turned on.
pub proof fn law_jobs_start(
    config: &FrankClawConfig,
    parsed: Result<Vec<CronJob>, FrankClawError>,
    r: Result<(Vec<CronJob>, bool), FrankClawError>,
)
    requires
        call_ensures(parse_cron_jobs, (config,), parsed),
        call_ensures(start_cron_runtime, (config,), r),
    ensures
        parsed is Ok <==> r is Ok,
        r is Err ==> r->Err_0@ == parsed->Err_0@,
        config.cron.jobs@.len() == 0 ==> r is Ok,
        r is Ok ==> r->Ok_0.1 == config.cron.enabled && r->Ok_0.0@.len() == config.cron.jobs@.len()
            && parsed->Ok_0@.len() == config.cron.jobs@.len(),
        r is Ok ==> forall|i: int|
            0 <= i < r->Ok_0.0@.len() ==> config.cron.jobs@[i] == RawCronJob::Job(
                #[trigger] r->Ok_0.0@[i],
            ) && !is_blank(r->Ok_0.0@[i].id@) && !is_blank(r->Ok_0.0@[i].prompt@),
{
    if r is Ok {
        assert forall|i: int| 0 <= i < r->Ok_0.0@.len() implies !is_blank(
            (#[trigger] r->Ok_0.0@[i]).id@,
        ) && !is_blank(r->Ok_0.0@[i].prompt@) by {
            lemma_jobs(config.cron.jobs@, 0, i);
            assert(config.cron.jobs@[i] == RawCronJob::Job(r->Ok_0.0@[i]));
        }
    }
}

/// The job that a client names is the one that it gets, white space aside.
pub proof fn law_job_is_named(request: &RequestFrame, r: Result<String, ResponseFrame>)
    requires
        call_ensures(cron_job_param, (request,), r),
    ensures
        ({
            let named = said(request.params@, "id"@);
            &&& r is Ok <==> named is Some && !is_blank(named->0)
            &&& r is Ok ==> r->Ok_0@ == trimmed(named->0)
            &&& r is Err ==> refuses(r->Err_0, request.id, 400, "id is required"@)
        }),
{
}

/// What became of a job is told: that it was added and under which name,
/// whether it was there to be removed, and how its run went.
pub proof fn law_job_news(
    id: &RequestId,
    job_id: &str,
    done: Result<(), FrankClawError>,
    existed: Result<bool, FrankClawError>,
    succeeded: bool,
    added: ResponseFrame,
    removed: ResponseFrame,
    ran: EventFrame,
)
    requires
        call_ensures(cron_add_done, (id, job_id, done), added),
        call_ensures(cron_remove, (id, existed), removed),
        call_ensures(cron_run_done, (job_id, succeeded), ran),
    ensures
        done is Ok ==> added.id == *id && added.reply is Done && said(added.reply->Done_0@, "id"@)
            == Some(job_id@) && said(added.reply->Done_0@, "status"@) == Some("ok"@),
        done is Err ==> reports(added, *id, Some(400), done->Err_0@) && added.reply->prefix@
            == "failed to add job: "@,
        existed is Ok ==> removed.id == *id && removed.reply is Done && flag(
            removed.reply->Done_0@,
            "existed"@,
        ) == Some(existed->Ok_0),
        existed is Err ==> reports(removed, *id, Some(500), existed->Err_0@)
            && removed.reply->prefix@ == "failed to remove job: "@,
        ran.event == EventType::CronRun,
        said(ran.payload@, "job_id"@) == Some(job_id@),
        succeeded ==> said(ran.payload@, "status"@) == Some("success"@),
        !succeeded ==> said(ran.payload@, "status"@) == Some("failed"@),
{
    reveal_strlit("status");
    reveal_strlit("id");
    reveal_strlit("existed");
    reveal_strlit("job_id");
    assert("status"@.len() == 6);
    assert("id"@.len() == 2);
    assert("existed"@.len() == 7);
    assert("status"@[0] == 's' && "job_id"@[0] == 'j');
}

/// A scheduled job that ran is told with its name and agent, and with the
/// session and the model of the answer.
pub proof fn law_scheduled_run_is_told(job: &CronJob, response: &ChatResponse, r: EventFrame)
    requires
        call_ensures(job_ran, (job, response), r),
    ensures
        r.event == EventType::CronRun,
        said(r.payload@, "job_id"@) == Some(job.id@),
        said(r.payload@, "agent_id"@) == Some(job.agent_id@),
        said(r.payload@, "session_key"@) == Some(response.session_key@),
        said(r.payload@, "model_id"@) == Some(response.model_id@),
{
    reveal_strlit("job_id");
    reveal_strlit("agent_id");
    reveal_strlit("session_key");
    reveal_strlit("model_id");
    assert("job_id"@.len() == 6);
    assert("agent_id"@.len() == 8 && "agent_id"@[0] == 'a');
    assert("session_key"@.len() == 11);
    assert("model_id"@.len() == 8 && "model_id"@[0] == 'm');
}

/// Every job that there is is listed, in order.
pub proof fn law_jobs_are_listed(id: &RequestId, jobs: Vec<JsonValue>, r: ResponseFrame)
    requires
        call_ensures(cron_list, (id, jobs), r),
    ensures
        r.id == *id && r.reply is Done,
        listed(r.reply->Done_0@, "jobs"@) is Some,
        listed(r.reply->Done_0@, "jobs"@)->0.len() == jobs@.len(),
        forall|i: int|
            0 <= i < jobs@.len() ==> #[trigger] listed(r.reply->Done_0@, "jobs"@)->0[i]
                == jobs@[i]@,
{
    lemma_items(jobs@);
    assert(items_view(jobs@).len() == jobs@.len());
}

proof fn lemma_jobs_pass(jobs: Seq<RawCronJob>, i: int)
    requires
        0 <= i <= jobs.len(),
        forall|k: int| 0 <= k < jobs.len() ==> raw_job_in_order(#[trigger] jobs[k]),
    ensures
        jobs_problem(jobs, i) is None,
    decreases jobs.len() - i,
{
    if i < jobs.len() {
        assert(raw_job_in_order(jobs[i]));
        lemma_jobs_pass(jobs, i + 1);
    }
}

/// True of a job with a name, a prompt, and a session that belongs to its agent.
pub open spec fn raw_job_in_order(job: RawCronJob) -> bool {
    match job {
        RawCronJob::Job(job) => {
            &&& !is_blank(job.id@)
            &&& !is_blank(job.prompt@)
            &&& match parsed_key(job.session_key@) {
                Some((agent, _, _)) => agent == job.agent_id@,
                None => false,
            }
        },
        RawCronJob::Malformed(_) => false,
    }
}

/// Jobs that are all in order are all taken, and one that is not is not.
pub proof fn law_jobs_are_taken(
    config: &FrankClawConfig,
    i: int,
    r: Result<Vec<CronJob>, FrankClawError>,
)
    requires
        call_ensures(parse_cron_jobs, (config,), r),
    ensures
        (forall|k: int|
            0 <= k < config.cron.jobs@.len() ==> raw_job_in_order(#[trigger] config.cron.jobs@[k]))
            ==> r is Ok,
        0 <= i < config.cron.jobs@.len() && config.cron.jobs@[i] is Malformed ==> r is Err,
{
    if forall|k: int|
        0 <= k < config.cron.jobs@.len() ==> raw_job_in_order(#[trigger] config.cron.jobs@[k]) {
        lemma_jobs_pass(config.cron.jobs@, 0);
    }
    if r is Ok && 0 <= i < config.cron.jobs@.len() {
        lemma_jobs(config.cron.jobs@, 0, i);
    }
}

} // verus!
