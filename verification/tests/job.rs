use toolbox::job::{
    replicate_run, run_job, HttpCall, HttpMethod, HttpReply, Job, JobAction, JobError, JobStatus,
    ReplicateRunRequest, ReplicateRunResponse, POLL_INTERVAL_MS,
};
use toolbox::json::{JsonNumber, JsonValue};

fn text(s: &str) -> JsonValue {
    JsonValue::Text(s.to_string())
}

fn object(members: Vec<(&str, JsonValue)>) -> JsonValue {
    JsonValue::Object(members.into_iter().map(|(k, v)| (k.to_string(), v)).collect())
}

fn status(word: &str) -> HttpReply {
    HttpReply::Body(object(vec![("id", text("p1")), ("status", text(word)), ("output", JsonValue::Null)]))
}

fn request() -> ReplicateRunRequest {
    ReplicateRunRequest {
        model: "v123".to_string(),
        input: object(vec![("prompt", text("a cat"))]),
        api_key: "SECRET".to_string(),
    }
}

fn poll() -> JobAction {
    JobAction::Send {
        after_ms: 1000,
        call: HttpCall {
            method: HttpMethod::Get,
            url: "https://api.replicate.com/v1/predictions/p1".to_string(),
            authorization: "Token SECRET".to_string(),
            body: None,
        },
    }
}

fn polling() -> Job {
    let (mut job, _) = replicate_run(request());
    assert_eq!(job.on_reply(HttpReply::Body(object(vec![("id", text("p1"))]))), poll());
    job
}

#[test]
fn submission_posts_version_and_input() {
    let (job, call) = replicate_run(request());
    assert!(!job.is_over());
    assert_eq!(
        call,
        HttpCall {
            method: HttpMethod::Post,
            url: "https://api.replicate.com/v1/predictions".to_string(),
            authorization: "Token SECRET".to_string(),
            body: Some(object(vec![("version", text("v123")), ("input", object(vec![("prompt", text("a cat"))]))])),
        }
    );
    assert_eq!(POLL_INTERVAL_MS, 1000);
}

#[test]
fn starting_processing_succeeded_gives_the_output() {
    let mut job = polling();
    assert_eq!(job.on_reply(status("starting")), poll());
    assert_eq!(job.on_reply(status("processing")), poll());
    assert!(!job.is_over());
    let output = JsonValue::Array(vec![text("https://x/out.png"), JsonValue::Number(JsonNumber::Unsigned(7))]);
    let expected = JsonValue::Array(vec![text("https://x/out.png"), JsonValue::Number(JsonNumber::Unsigned(7))]);
    let last = HttpReply::Body(object(vec![("status", text("succeeded")), ("output", output), ("error", JsonValue::Null)]));
    assert_eq!(job.on_reply(last), JobAction::Finish(Ok(ReplicateRunResponse { output: expected })));
    assert!(job.is_over());
    assert_eq!(job.on_reply(status("starting")), JobAction::Idle);
}

#[test]
fn success_without_output_gives_null() {
    let mut job = polling();
    let last = HttpReply::Body(object(vec![("status", text("succeeded"))]));
    assert_eq!(job.on_reply(last), JobAction::Finish(Ok(ReplicateRunResponse { output: JsonValue::Null })));
}

#[test]
fn starting_failed_gives_the_reason() {
    let mut job = polling();
    assert_eq!(job.on_reply(status("starting")), poll());
    let last = HttpReply::Body(object(vec![("status", text("failed")), ("error", text("out of memory"))]));
    let action = job.on_reply(last);
    assert_eq!(action, JobAction::Finish(Err(JobError::JobFailed("out of memory".to_string()))));
    assert!(job.is_over());
    assert_eq!(job.on_reply(status("succeeded")), JobAction::Idle);
    assert_eq!(JobError::JobFailed("out of memory".to_string()).message(), "Prediction failed: out of memory");
}

#[test]
fn failure_without_reason_gives_the_placeholder() {
    let mut job = polling();
    assert_eq!(
        job.on_reply(status("failed")),
        JobAction::Finish(Err(JobError::JobFailed("Неизвестная ошибка".to_string())))
    );
    let mut other = polling();
    let last = HttpReply::Body(object(vec![("status", text("canceled")), ("error", JsonValue::Bool(true))]));
    assert_eq!(
        other.on_reply(last),
        JobAction::Finish(Err(JobError::JobFailed("Неизвестная ошибка".to_string())))
    );
}

#[test]
fn unknown_status_ends_the_job() {
    let mut job = polling();
    let action = job.on_reply(status("queued"));
    assert_eq!(action, JobAction::Finish(Err(JobError::UnknownStatus("queued".to_string()))));
    assert_eq!(JobError::UnknownStatus("queued".to_string()).message(), "Неизвестный статус: queued");
    let mut upper = polling();
    assert_eq!(
        upper.on_reply(status("Succeeded")),
        JobAction::Finish(Err(JobError::UnknownStatus("Succeeded".to_string())))
    );
}

#[test]
fn a_failed_poll_ends_the_job() {
    let mut job = polling();
    assert_eq!(
        job.on_reply(HttpReply::Transport("timed out".to_string())),
        JobAction::Finish(Err(JobError::Poll("Ошибка проверки статуса: timed out".to_string())))
    );
    assert!(job.is_over());
    let mut job = polling();
    assert_eq!(
        job.on_reply(HttpReply::Refused("busy".to_string())),
        JobAction::Finish(Err(JobError::Poll("Ошибка проверки статуса: busy".to_string())))
    );
    let mut job = polling();
    assert_eq!(
        job.on_reply(HttpReply::Unparsed("eof".to_string())),
        JobAction::Finish(Err(JobError::Poll("Ошибка парсинга статуса: eof".to_string())))
    );
    let mut job = polling();
    assert_eq!(
        job.on_reply(HttpReply::Body(object(vec![("status", JsonValue::Bool(true))]))),
        JobAction::Finish(Err(JobError::Poll("Не удалось получить статус".to_string())))
    );
    let mut job = polling();
    assert_eq!(
        job.on_reply(HttpReply::Body(JsonValue::Array(Vec::new()))),
        JobAction::Finish(Err(JobError::Poll("Не удалось получить статус".to_string())))
    );
}

#[test]
fn a_failed_submission_ends_the_job() {
    let (mut job, _) = replicate_run(request());
    assert_eq!(
        job.on_reply(HttpReply::Transport("refused".to_string())),
        JobAction::Finish(Err(JobError::Submission("Ошибка создания prediction: refused".to_string())))
    );
    assert!(job.is_over());
    let (mut job, _) = replicate_run(request());
    assert_eq!(
        job.on_reply(HttpReply::Refused("bad key".to_string())),
        JobAction::Finish(Err(JobError::Submission("Ошибка API: bad key".to_string())))
    );
    let (mut job, _) = replicate_run(request());
    assert_eq!(
        job.on_reply(HttpReply::Unparsed("eof".to_string())),
        JobAction::Finish(Err(JobError::Submission("Ошибка парсинга ответа: eof".to_string())))
    );
    let (mut job, _) = replicate_run(request());
    assert_eq!(
        job.on_reply(HttpReply::Body(object(vec![("id", JsonValue::Number(JsonNumber::Unsigned(5)))]))),
        JobAction::Finish(Err(JobError::Submission("Не удалось получить ID prediction".to_string())))
    );
    assert_eq!(
        JobError::Submission("Ошибка API: bad key".to_string()).message(),
        "Ошибка API: bad key"
    );
    assert_eq!(JobError::Poll("p".to_string()).message(), "p");
}

#[test]
fn status_words() {
    assert_eq!(JobStatus::parse("starting"), JobStatus::Starting);
    assert_eq!(JobStatus::parse("processing"), JobStatus::Processing);
    assert_eq!(JobStatus::parse("succeeded"), JobStatus::Succeeded);
    assert_eq!(JobStatus::parse("failed"), JobStatus::Failed);
    assert_eq!(JobStatus::parse("canceled"), JobStatus::Canceled);
    assert_eq!(JobStatus::parse("cancelled"), JobStatus::Unknown("cancelled".to_string()));
    assert_eq!(JobStatus::parse(""), JobStatus::Unknown(String::new()));
}

#[test]
fn lookups_in_values() {
    let v = object(vec![("a", text("x")), ("b", JsonValue::Bool(false)), ("a", text("y"))]);
    assert_eq!(v.get("a"), Some(&text("x")));
    assert_eq!(v.get("b"), Some(&JsonValue::Bool(false)));
    assert_eq!(v.get("c"), None);
    assert_eq!(v.get_str("a"), Some("x"));
    assert_eq!(v.get_str("b"), None);
    assert_eq!(v.get_str("c"), None);
    assert_eq!(text("t").as_str(), Some("t"));
    assert_eq!(JsonValue::Null.as_str(), None);
    assert_eq!(JsonValue::Null.get("a"), None);
    assert_eq!(v.take("b"), JsonValue::Bool(false));
    assert_eq!(object(vec![("a", text("x")), ("a", text("y"))]).take("a"), text("x"));
    assert_eq!(object(vec![("a", text("x"))]).take("z"), JsonValue::Null);
    assert_eq!(text("t").take("a"), JsonValue::Null);
    assert!(toolbox::json::same_text("ab", "ab"));
    assert!(!toolbox::json::same_text("ab", "aB"));
}

fn accepted() -> HttpReply {
    HttpReply::Body(object(vec![("id", text("p1")), ("status", text("starting"))]))
}

#[test]
fn run_of_starting_processing_succeeded() {
    let last = HttpReply::Body(object(vec![("status", text("succeeded")), ("output", text("done"))]));
    let replies = vec![accepted(), status("starting"), status("processing"), last];
    assert_eq!(run_job(request(), replies), Some(Ok(ReplicateRunResponse { output: text("done") })));
}

#[test]
fn run_of_starting_failed() {
    let last = HttpReply::Body(object(vec![("status", text("failed")), ("error", text("no gpu"))]));
    let replies = vec![accepted(), status("starting"), last];
    assert_eq!(run_job(request(), replies), Some(Err(JobError::JobFailed("no gpu".to_string()))));
    let replies = vec![accepted(), status("starting"), status("failed")];
    assert_eq!(run_job(request(), replies), Some(Err(JobError::JobFailed("Неизвестная ошибка".to_string()))));
}

#[test]
fn run_that_is_cut_short_has_no_result() {
    assert_eq!(run_job(request(), Vec::new()), None);
    assert_eq!(run_job(request(), vec![accepted()]), None);
    assert_eq!(run_job(request(), vec![accepted(), status("starting"), status("processing")]), None);
}

#[test]
fn run_stops_at_the_first_end() {
    let replies = vec![accepted(), status("canceled"), status("succeeded")];
    assert_eq!(run_job(request(), replies), Some(Err(JobError::JobFailed("Неизвестная ошибка".to_string()))));
    let replies = vec![HttpReply::Refused("no".to_string()), status("succeeded")];
    assert_eq!(run_job(request(), replies), Some(Err(JobError::Submission("Ошибка API: no".to_string()))));
    let replies = vec![accepted(), HttpReply::Transport("reset".to_string()), status("succeeded")];
    assert_eq!(
        run_job(request(), replies),
        Some(Err(JobError::Poll("Ошибка проверки статуса: reset".to_string())))
    );
}
