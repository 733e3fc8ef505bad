//! The long-poll client of the remote inference API, as a state machine.
//!
//! The caller sends the requests and sleeps; the job decides. It starts with
//! the submission, takes each reply, and answers with the next request or
//! with the end of the job.

use vstd::prelude::*;
use crate::json::{member_or_null, text_member, same_text, JsonValue};

verus! {

/// A job to run: the model version, its input, and the API key.
#[derive(Debug, PartialEq)]
pub struct ReplicateRunRequest {
    pub model: String,
    pub input: JsonValue,
    pub api_key: String,
}

/// What a job that succeeded has produced.
#[derive(Debug, PartialEq)]
pub struct ReplicateRunResponse {
    pub output: JsonValue,
}

/// Why a job ended without output. `Submission` and `Poll` carry their
/// whole text, `JobFailed` the reason the service gave, `UnknownStatus` the
/// status it reported.
#[derive(Clone, Debug, PartialEq, Eq)]
pub enum JobError {
    Submission(String),
    Poll(String),
    JobFailed(String),
    UnknownStatus(String),
}

/// A failure as mathematics.
pub enum Fault {
    Submission(Seq<char>),
    Poll(Seq<char>),
    JobFailed(Seq<char>),
    UnknownStatus(Seq<char>),
}

impl View for JobError {
    type V = Fault;

    open spec fn view(&self) -> Fault {
        match *self {
            JobError::Submission(t) => Fault::Submission(t@),
            JobError::Poll(t) => Fault::Poll(t@),
            JobError::JobFailed(t) => Fault::JobFailed(t@),
            JobError::UnknownStatus(t) => Fault::UnknownStatus(t@),
        }
    }
}

/// The text shown for a failure.
pub open spec fn fault_message(f: Fault) -> Seq<char> {
    match f {
        Fault::Submission(t) => t,
        Fault::Poll(t) => t,
        Fault::JobFailed(reason) => "Prediction failed: "@ + reason,
        Fault::UnknownStatus(status) => "Неизвестный статус: "@ + status,
    }
}

impl JobError {
    /// Renders the failure as the text a user reads.
    pub fn message(&self) -> (r: String)
        ensures
            r@ == fault_message(self@),
    {
        match self {
            JobError::Submission(t) => String::from_str(t.as_str()),
            JobError::Poll(t) => String::from_str(t.as_str()),
            JobError::JobFailed(reason) => String::from_str("Prediction failed: ").concat(
                reason.as_str(),
            ),
            JobError::UnknownStatus(status) => String::from_str("Неизвестный статус: ").concat(
                status.as_str(),
            ),
        }
    }
}

/// The status that the service reports of a job.
#[derive(Clone, Debug, PartialEq, Eq)]
pub enum JobStatus {
    Starting,
    Processing,
    Succeeded,
    Failed,
    Canceled,
    Unknown(String),
}

/// A status as mathematics.
pub enum StatusWord {
    Starting,
    Processing,
    Succeeded,
    Failed,
    Canceled,
    Unknown(Seq<char>),
}

impl View for JobStatus {
    type V = StatusWord;

    open spec fn view(&self) -> StatusWord {
        match *self {
            JobStatus::Starting => StatusWord::Starting,
            JobStatus::Processing => StatusWord::Processing,
            JobStatus::Succeeded => StatusWord::Succeeded,
            JobStatus::Failed => StatusWord::Failed,
            JobStatus::Canceled => StatusWord::Canceled,
            JobStatus::Unknown(raw) => StatusWord::Unknown(raw@),
        }
    }
}

/// The status that a status text stands for.
pub open spec fn status_of(text: Seq<char>) -> StatusWord {
    if text == "succeeded"@ {
        StatusWord::Succeeded
    } else if text == "failed"@ {
        StatusWord::Failed
    } else if text == "canceled"@ {
        StatusWord::Canceled
    } else if text == "starting"@ {
        StatusWord::Starting
    } else if text == "processing"@ {
        StatusWord::Processing
    } else {
        StatusWord::Unknown(text)
    }
}

impl JobStatus {
    /// Reads a status text.
    pub fn parse(text: &str) -> (r: JobStatus)
        ensures
            r@ == status_of(text@),
    {
        if same_text(text, "succeeded") {
            JobStatus::Succeeded
        } else if same_text(text, "failed") {
            JobStatus::Failed
        } else if same_text(text, "canceled") {
            JobStatus::Canceled
        } else if same_text(text, "starting") {
            JobStatus::Starting
        } else if same_text(text, "processing") {
            JobStatus::Processing
        } else {
            JobStatus::Unknown(String::from_str(text))
        }
    }
}

/// What came back from one request.
#[derive(Debug, PartialEq)]
pub enum HttpReply {
    /// The request could not be made; the text says why.
    Transport(String),
    /// The service answered with a status other than success; the text is
    /// the body of its answer.
    Refused(String),
    /// The service answered with success, but its body is no JSON; the text
    /// says why.
    Unparsed(String),
    /// The service answered with success and this body.
    Body(JsonValue),
}

/// What a reply to a poll means for the job.
pub enum Verdict {
    /// The job is still running.
    Wait,
    /// The job has succeeded, with this output.
    Output(JsonValue),
    /// The job has ended with this failure.
    Failure(Fault),
}

/// The reason of a failed job: the `error` text of the body, or a
/// placeholder where it has none.
pub open spec fn failure_reason(body: JsonValue) -> Seq<char> {
    match text_member(body, "error"@) {
        Some(reason) => reason,
        None => "Неизвестная ошибка"@,
    }
}

/// What the reply to the submission means: the identifier of the job, or
/// the failure of the submission.
pub open spec fn submit_verdict(reply: HttpReply) -> Result<Seq<char>, Fault> {
    match reply {
        HttpReply::Transport(cause) => Err(
            Fault::Submission("Ошибка создания prediction: "@ + cause@),
        ),
        HttpReply::Refused(text) => Err(Fault::Submission("Ошибка API: "@ + text@)),
        HttpReply::Unparsed(cause) => Err(Fault::Submission("Ошибка парсинга ответа: "@ + cause@)),
        HttpReply::Body(body) => match text_member(body, "id"@) {
            Some(id) => Ok(id),
            None => Err(Fault::Submission("Не удалось получить ID prediction"@)),
        },
    }
}

/// What the reply to a poll means.
pub open spec fn poll_verdict(reply: HttpReply) -> Verdict {
    match reply {
        HttpReply::Transport(cause) => Verdict::Failure(
            Fault::Poll("Ошибка проверки статуса: "@ + cause@),
        ),
        HttpReply::Refused(text) => Verdict::Failure(
            Fault::Poll("Ошибка проверки статуса: "@ + text@),
        ),
        HttpReply::Unparsed(cause) => Verdict::Failure(
            Fault::Poll("Ошибка парсинга статуса: "@ + cause@),
        ),
        HttpReply::Body(body) => match text_member(body, "status"@) {
            None => Verdict::Failure(Fault::Poll("Не удалось получить статус"@)),
            Some(text) => match status_of(text) {
                StatusWord::Succeeded => Verdict::Output(member_or_null(body, "output"@)),
                StatusWord::Failed | StatusWord::Canceled => Verdict::Failure(
                    Fault::JobFailed(failure_reason(body)),
                ),
                StatusWord::Starting | StatusWord::Processing => Verdict::Wait,
                StatusWord::Unknown(raw) => Verdict::Failure(Fault::UnknownStatus(raw)),
            },
        },
    }
}

/// The method of a request.
#[derive(Clone, Copy, Debug, PartialEq, Eq, Structural)]
pub enum HttpMethod {
    Get,
    Post,
}

/// A request for the caller to send. Its body, where it has one, goes out
/// as JSON.
#[derive(Debug, PartialEq)]
pub struct HttpCall {
    pub method: HttpMethod,
    pub url: String,
    pub authorization: String,
    pub body: Option<JsonValue>,
}

/// What the caller does next.
#[derive(Debug, PartialEq)]
pub enum JobAction {
    /// Wait for so many milliseconds, send the request, and hand its reply
    /// to the job.
    Send { after_ms: u64, call: HttpCall },
    /// The job is over, with this result.
    Finish(Result<ReplicateRunResponse, JobError>),
    /// The job was over before: there is nothing to do.
    Idle,
}

/// Where a job stands.
pub enum Phase {
    Submitted,
    Polling(Seq<char>),
    Succeeded,
    Failed,
}

enum Stage {
    Submitted,
    Polling(String),
    Succeeded,
    Failed,
}

/// A job under way.
pub struct Job {
    stage: Stage,
    api_key: String,
}

/// The pause before each poll, in milliseconds.
pub const POLL_INTERVAL_MS: u64 = 1000;

/// The value of the authorization header for an API key.
pub open spec fn authorization_of(key: Seq<char>) -> Seq<char> {
    "Token "@ + key
}

/// The request that submits a job.
pub open spec fn is_submission(call: HttpCall, model: Seq<char>, input: JsonValue, key: Seq<char>) -> bool {
    &&& call.method == HttpMethod::Post
    &&& call.url@ == "https://api.replicate.com/v1/predictions"@
    &&& call.authorization@ == authorization_of(key)
    &&& call.body matches Some(JsonValue::Object(members))
    &&& members@.len() == 2
    &&& members@[0].0@ == "version"@
    &&& members@[0].1 matches JsonValue::Text(version)
    &&& version@ == model
    &&& members@[1].0@ == "input"@
    &&& members@[1].1 == input
}

/// The request that asks for the status of the job `id`.
pub open spec fn is_poll(call: HttpCall, id: Seq<char>, key: Seq<char>) -> bool {
    &&& call.method == HttpMethod::Get
    &&& call.url@ == "https://api.replicate.com/v1/predictions/"@ + id
    &&& call.authorization@ == authorization_of(key)
    &&& call.body is None
}

/// The action is a poll of the job `id` after the pause.
pub open spec fn is_poll_action(action: JobAction, id: Seq<char>, key: Seq<char>) -> bool {
    &&& action matches JobAction::Send { after_ms, call }
    &&& after_ms == POLL_INTERVAL_MS
    &&& is_poll(call, id, key)
}

/// The action ends the job with the failure `f`.
pub open spec fn is_failure(action: JobAction, f: Fault) -> bool {
    &&& action matches JobAction::Finish(Err(e))
    &&& e@ == f
}

/// The step of the state machine: from where the job stood and the reply
/// that came, where it stands now and what the caller does.
pub open spec fn is_step(before: Phase, key: Seq<char>, reply: HttpReply, after: Phase, action: JobAction) -> bool {
    match before {
        Phase::Submitted => match submit_verdict(reply) {
            Ok(id) => after == Phase::Polling(id) && is_poll_action(action, id, key),
            Err(f) => after == Phase::Failed && is_failure(action, f),
        },
        Phase::Polling(id) => match poll_verdict(reply) {
            Verdict::Wait => after == before && is_poll_action(action, id, key),
            Verdict::Output(output) => after == Phase::Succeeded && action == JobAction::Finish(
                Ok(ReplicateRunResponse { output }),
            ),
            Verdict::Failure(f) => after == Phase::Failed && is_failure(action, f),
        },
        Phase::Succeeded => after == before && action == JobAction::Idle,
        Phase::Failed => after == before && action == JobAction::Idle,
    }
}

fn authorization(key: &str) -> (r: String)
    ensures
        r@ == authorization_of(key@),
{
    String::from_str("Token ").concat(key)
}

fn poll_action(id: &str, key: &str) -> (action: JobAction)
    ensures
        is_poll_action(action, id@, key@),
{
    let url = String::from_str("https://api.replicate.com/v1/predictions/").concat(id);
    JobAction::Send {
        after_ms: POLL_INTERVAL_MS,
        call: HttpCall { method: HttpMethod::Get, url, authorization: authorization(key), body: None },
    }
}

fn failure(e: JobError) -> (action: JobAction)
    ensures
        is_failure(action, e@),
{
    JobAction::Finish(Err(e))
}

fn submission_failure(context: &str, cause: &str) -> (action: JobAction)
    ensures
        is_failure(action, Fault::Submission(context@ + cause@)),
{
    failure(JobError::Submission(String::from_str(context).concat(cause)))
}

fn poll_failure(context: &str, cause: &str) -> (action: JobAction)
    ensures
        is_failure(action, Fault::Poll(context@ + cause@)),
{
    failure(JobError::Poll(String::from_str(context).concat(cause)))
}

/// Starts a job: the answer is the job, and the request that submits it.
pub fn replicate_run(request: ReplicateRunRequest) -> (r: (Job, HttpCall))
    ensures
        r.0.phase() == Phase::Submitted,
        r.0.credential() == request.api_key@,
        is_submission(r.1, request.model@, request.input, request.api_key@),
{
    let ReplicateRunRequest { model, input, api_key } = request;
    let mut members: Vec<(String, JsonValue)> = Vec::new();
    members.push((String::from_str("version"), JsonValue::Text(model)));
    members.push((String::from_str("input"), input));
    let call = HttpCall {
        method: HttpMethod::Post,
        url: String::from_str("https://api.replicate.com/v1/predictions"),
        authorization: authorization(api_key.as_str()),
        body: Some(JsonValue::Object(members)),
    };
    (Job { stage: Stage::Submitted, api_key }, call)
}

impl Job {
    /// Where the job stands.
    pub closed spec fn phase(&self) -> Phase {
        match self.stage {
            Stage::Submitted => Phase::Submitted,
            Stage::Polling(id) => Phase::Polling(id@),
            Stage::Succeeded => Phase::Succeeded,
            Stage::Failed => Phase::Failed,
        }
    }

    /// The API key that the job's requests carry.
    pub closed spec fn credential(&self) -> Seq<char> {
        self.api_key@
    }

    /// Is the job over?
    pub fn is_over(&self) -> (r: bool)
        ensures
            r == (self.phase() is Succeeded || self.phase() is Failed),
    {
        match self.stage {
            Stage::Succeeded => true,
            Stage::Failed => true,
            _ => false,
        }
    }

    /// Takes the reply to the request that the job asked for last, and says
    /// what to do next.
    pub fn on_reply(&mut self, reply: HttpReply) -> (action: JobAction)
        ensures
            final(self).credential() == old(self).credential(),
            is_step(old(self).phase(), old(self).credential(), reply, final(self).phase(), action),
    {
        match &self.stage {
            Stage::Succeeded => JobAction::Idle,
            Stage::Failed => JobAction::Idle,
            Stage::Submitted => {
                match reply {
                    HttpReply::Transport(cause) => {
                        self.stage = Stage::Failed;
                        submission_failure("Ошибка создания prediction: ", cause.as_str())
                    },
                    HttpReply::Refused(text) => {
                        self.stage = Stage::Failed;
                        submission_failure("Ошибка API: ", text.as_str())
                    },
                    HttpReply::Unparsed(cause) => {
                        self.stage = Stage::Failed;
                        submission_failure("Ошибка парсинга ответа: ", cause.as_str())
                    },
                    HttpReply::Body(body) => match body.get_str("id") {
                        Some(id) => {
                            let action = poll_action(id, self.api_key.as_str());
                            self.stage = Stage::Polling(String::from_str(id));
                            action
                        },
                        None => {
                            self.stage = Stage::Failed;
                            assert("Не удалось получить ID prediction"@ + ""@
                                =~= "Не удалось получить ID prediction"@) by {
                                reveal_strlit("");
                            }
                            submission_failure("Не удалось получить ID prediction", "")
                        },
                    },
                }
            },
            Stage::Polling(id) => {
                match reply {
                    HttpReply::Transport(cause) => {
                        self.stage = Stage::Failed;
                        poll_failure("Ошибка проверки статуса: ", cause.as_str())
                    },
                    HttpReply::Refused(text) => {
                        self.stage = Stage::Failed;
                        poll_failure("Ошибка проверки статуса: ", text.as_str())
                    },
                    HttpReply::Unparsed(cause) => {
                        self.stage = Stage::Failed;
                        poll_failure("Ошибка парсинга статуса: ", cause.as_str())
                    },
                    HttpReply::Body(body) => {
                        let status = match body.get_str("status") {
                            Some(text) => Some(JobStatus::parse(text)),
                            None => None,
                        };
                        match status {
                            None => {
                                self.stage = Stage::Failed;
                                assert("Не удалось получить статус"@ + ""@
                                    =~= "Не удалось получить статус"@) by {
                                    reveal_strlit("");
                                }
                                poll_failure("Не удалось получить статус", "")
                            },
                            Some(JobStatus::Succeeded) => {
                                self.stage = Stage::Succeeded;
                                JobAction::Finish(
                                    Ok(ReplicateRunResponse { output: body.take("output") }),
                                )
                            },
                            Some(JobStatus::Failed) | Some(JobStatus::Canceled) => {
                                let reason = match body.get_str("error") {
                                    Some(text) => String::from_str(text),
                                    None => String::from_str("Неизвестная ошибка"),
                                };
                                self.stage = Stage::Failed;
                                failure(JobError::JobFailed(reason))
                            },
                            Some(JobStatus::Starting) | Some(JobStatus::Processing) => {
                                poll_action(id.as_str(), self.api_key.as_str())
                            },
                            Some(JobStatus::Unknown(raw)) => {
                                self.stage = Stage::Failed;
                                failure(JobError::UnknownStatus(raw))
                            },
                        }
                    },
                }
            },
        }
    }
}

/// What a run of polls comes to: the verdict of the first reply, from
/// `from` on, that ends the waiting.
pub open spec fn poll_outcome(replies: Seq<HttpReply>, from: int) -> Verdict
    decreases replies.len() - from,
{
    if from < 0 || from >= replies.len() {
        Verdict::Wait
    } else {
        match poll_verdict(replies[from]) {
            Verdict::Wait => poll_outcome(replies, from + 1),
            verdict => verdict,
        }
    }
}

/// The reply is a body whose status is the given word.
pub open spec fn reports(reply: HttpReply, word: Seq<char>) -> bool {
    reply matches HttpReply::Body(body) && text_member(body, "status"@) == Some(word)
}

/// The reply says that the job is starting or processing.
pub open spec fn in_progress(reply: HttpReply) -> bool {
    reports(reply, "starting"@) || reports(reply, "processing"@)
}

/// Each of the five status words stands for its own status.
pub proof fn lemma_status_words()
    ensures
        status_of("succeeded"@) == StatusWord::Succeeded,
        status_of("failed"@) == StatusWord::Failed,
        status_of("canceled"@) == StatusWord::Canceled,
        status_of("starting"@) == StatusWord::Starting,
        status_of("processing"@) == StatusWord::Processing,
{
    reveal_strlit("succeeded");
    reveal_strlit("failed");
    reveal_strlit("canceled");
    reveal_strlit("starting");
    reveal_strlit("processing");
    assert("succeeded"@.len() == 9);
    assert("failed"@.len() == 6);
    assert("canceled"@.len() == 8);
    assert("starting"@.len() == 8);
    assert("processing"@.len() == 10);
    assert("canceled"@[0] == 'c' && "starting"@[0] == 's');
}

/// Replies that say the job is in progress are waited through: the outcome
/// of a run is that of the run without them.
pub proof fn lemma_waiting_is_skipped(replies: Seq<HttpReply>, from: int, upto: int)
    requires
        0 <= from <= upto <= replies.len(),
        forall|i: int| from <= i < upto ==> in_progress(#[trigger] replies[i]),
    ensures
        poll_outcome(replies, from) == poll_outcome(replies, upto),
    decreases upto - from,
{
    if from < upto {
        lemma_status_words();
        assert(in_progress(replies[from]));
        lemma_waiting_is_skipped(replies, from + 1, upto);
    }
}

/// A run of polls in which the job is in progress until a last reply
/// reports success ends with the output that this last body carries.
pub proof fn lemma_success_after_waiting(replies: Seq<HttpReply>, body: JsonValue)
    requires
        replies.len() > 0,
        forall|i: int| 0 <= i < replies.len() - 1 ==> in_progress(#[trigger] replies[i]),
        replies.last() == HttpReply::Body(body),
        text_member(body, "status"@) == Some("succeeded"@),
    ensures
        poll_outcome(replies, 0) == Verdict::Output(member_or_null(body, "output"@)),
{
    lemma_status_words();
    lemma_waiting_is_skipped(replies, 0, replies.len() - 1);
}

/// A run of polls in which the job is in progress until a last reply
/// reports that it failed or was canceled ends with a failure of the job,
/// whose reason is the error text of this last body, or the placeholder
/// where it has none.
pub proof fn lemma_failure_after_waiting(replies: Seq<HttpReply>, body: JsonValue)
    requires
        replies.len() > 0,
        forall|i: int| 0 <= i < replies.len() - 1 ==> in_progress(#[trigger] replies[i]),
        replies.last() == HttpReply::Body(body),
        text_member(body, "status"@) == Some("failed"@) || text_member(body, "status"@) == Some(
            "canceled"@,
        ),
    ensures
        poll_outcome(replies, 0) == Verdict::Failure(Fault::JobFailed(failure_reason(body))),
        text_member(body, "error"@) matches Some(reason) ==> failure_reason(body) == reason,
        text_member(body, "error"@) is None ==> failure_reason(body) == "Неизвестная ошибка"@,
{
    lemma_status_words();
    lemma_waiting_is_skipped(replies, 0, replies.len() - 1);
}

/// What a whole job comes to, given the replies in the order in which they
/// come: the first answers the submission, the others the polls.
pub open spec fn job_outcome(replies: Seq<HttpReply>) -> Verdict {
    if replies.len() == 0 {
        Verdict::Wait
    } else {
        match submit_verdict(replies[0]) {
            Err(f) => Verdict::Failure(f),
            Ok(_) => poll_outcome(replies, 1),
        }
    }
}

/// The result says what the verdict says: nothing while the job waits, the
/// output, or the failure.
pub open spec fn is_result(r: Option<Result<ReplicateRunResponse, JobError>>, verdict: Verdict) -> bool {
    match verdict {
        Verdict::Wait => r is None,
        Verdict::Output(output) => r == Some(
            Ok::<ReplicateRunResponse, JobError>(ReplicateRunResponse { output }),
        ),
        Verdict::Failure(f) => r matches Some(Err(e)) && e@ == f,
    }
}

/// Runs a job against replies that are known beforehand, in their order.
/// The answer is the result of the job, or `None` where the replies run
/// out while the job still waits. Replies after the one that ends the job
/// are not looked at.
pub fn run_job(request: ReplicateRunRequest, replies: Vec<HttpReply>) -> (r: Option<
    Result<ReplicateRunResponse, JobError>,
>)
    ensures
        is_result(r, job_outcome(replies@)),
{
    let (mut job, _) = replicate_run(request);
    let mut rest = replies;
    let ghost mut taken: int = 0;
    assert(rest@ =~= replies@.skip(0));
    while rest.len() > 0
        invariant
            0 <= taken <= replies@.len(),
            rest@ == replies@.skip(taken),
            taken == 0 ==> job.phase() == Phase::Submitted,
            taken > 0 ==> job.phase() is Polling && submit_verdict(replies@[0]) is Ok
                && poll_outcome(replies@, 1) == poll_outcome(replies@, taken),
        decreases rest.len(),
    {
        assert(rest@[0] == replies@[taken]);
        let ghost before = rest@;
        let reply = rest.remove(0);
        let action = job.on_reply(reply);
        match action {
            JobAction::Finish(result) => {
                return Some(result);
            },
            JobAction::Idle => {
                return None;
            },
            JobAction::Send { after_ms, call } => {},
        }
        proof {
            assert(rest@ =~= replies@.skip(taken + 1));
            taken = taken + 1;
        }
    }
    None
}

} // verus!
