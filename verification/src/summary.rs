//! Summaries: the article rule, the request to the summarization service,
//! and the decisions of the summarize handler between its outside steps.
use crate::errors::ApiError;
use crate::text::{chars_of, string_of_range, trim, trimmed_range};
use crate::token::{
    authenticated_user, bearer_token, claims_user, hs256_signature_valid, token_claims,
};
use vstd::string::StringSliceAdditionalSpecFns;
use vstd::prelude::*;

verus! {

/// The longest article, in characters, that can be summarised.
pub const MAX_ARTICLE_CHARS: usize = 20000;

/// The article rule on the trimmed article: 1 to 20,000 characters.
pub open spec fn article_allowed(article: Seq<char>) -> bool {
    0 < article.len() <= 20000
}

/// The article of a summarize request, trimmed, when it meets the article
/// rule.
pub fn check_article(article: &str) -> (r: Result<String, ApiError>)
    ensures
        match r {
            Ok(a) => a@ == trim(article@) && article_allowed(trim(article@)),
            Err(e) => !article_allowed(trim(article@)) && e == ApiError::InvalidArticle,
        },
{
    let v = chars_of(article);
    let (i, j) = trimmed_range(&v);
    if i == j || j - i > MAX_ARTICLE_CHARS {
        return Err(ApiError::InvalidArticle);
    }
    Ok(string_of_range(&v, i, j))
}

/// A summarize request that may go to the summarization service.
pub struct SummaryJob {
    /// The signed-in user.
    pub user_id: i32,
    /// The trimmed article.
    pub article: String,
}

/// The summarize handler's decision once authentication has answered: a
/// refused caller gets that refusal and the article is not looked at; a
/// signed-in caller's article must meet the article rule, and is then
/// trimmed.
pub fn summary_job(user: Result<i32, ApiError>, article: &str) -> (r: Result<SummaryJob, ApiError>)
    ensures
        match user {
            Err(e) => r == Err::<SummaryJob, ApiError>(e),
            Ok(u) => match r {
                Ok(job) => {
                    &&& job.user_id == u
                    &&& job.article@ == trim(article@)
                    &&& article_allowed(trim(article@))
                },
                Err(e) => e == ApiError::InvalidArticle && !article_allowed(trim(article@)),
            },
        },
{
    let user_id = match user {
        Ok(u) => u,
        Err(e) => return Err(e),
    };
    match check_article(article) {
        Ok(a) => Ok(SummaryJob { user_id, article: a }),
        Err(e) => Err(e),
    }
}

/// The first decision of the summarize handler: the caller must be signed
/// in (checked first), and the article must meet the article rule. Without
/// a well-formed bearer header the answer is `Unauthorized`; a token whose
/// claims do not name a user is an invalid token; whether a token is
/// accepted otherwise depends on the clock, so an accepted token (one with
/// a valid signature under `secret`) leads to the article rule and a
/// refused one is an invalid token, whatever the article.
pub fn begin_summary(authorization: Option<&[u8]>, secret: &str, article: &str) -> (r: Result<
    SummaryJob,
    ApiError,
>)
    ensures
        match authorization {
            None => r == Err::<SummaryJob, ApiError>(ApiError::Unauthorized),
            Some(h) => match bearer_token(Some(h@)) {
                None => r == Err::<SummaryJob, ApiError>(ApiError::Unauthorized),
                Some(t) => {
                    &&& claims_user(token_claims(t)) is None ==> r == Err::<SummaryJob, ApiError>(
                        ApiError::InvalidToken,
                    )
                    &&& match r {
                        Ok(job) => {
                            &&& claims_user(token_claims(t)) == Some(job.user_id)
                            &&& hs256_signature_valid(t, secret.spec_bytes())
                            &&& job.article@ == trim(article@)
                            &&& article_allowed(trim(article@))
                        },
                        Err(e) => e == ApiError::InvalidToken || (e == ApiError::InvalidArticle
                            && claims_user(token_claims(t)) is Some && hs256_signature_valid(
                            t,
                            secret.spec_bytes(),
                        ) && !article_allowed(trim(article@))),
                    }
                },
            },
        },
{
    let user = authenticated_user(authorization, secret);
    summary_job(user, article)
}

/// One message of the conversation sent to the summarization service.
pub struct ChatMessage {
    /// `developer` or `user`.
    pub role: String,
    pub content: String,
}

/// The request sent to the summarization service.
pub struct ChatRequest {
    pub model: String,
    pub messages: Vec<ChatMessage>,
}

/// The instruction that follows the output prompt.
pub open spec fn summary_instruction() -> Seq<char> {
    "Summarize the article clearly and concisely. Keep its main facts and conclusions. Do not add facts or introductory filler."@
}

/// The request for a summary of `article`: model `gpt-6-luna`, then the
/// output prompt and the summary instruction as developer messages, then
/// the article as the user message.
pub fn summary_request(prompt: &str, article: &str) -> (r: ChatRequest)
    ensures
        r.model@ == "gpt-6-luna"@,
        r.messages@.len() == 3,
        r.messages@[0].role@ == "developer"@,
        r.messages@[0].content@ == prompt@,
        r.messages@[1].role@ == "developer"@,
        r.messages@[1].content@ == summary_instruction(),
        r.messages@[2].role@ == "user"@,
        r.messages@[2].content@ == article@,
{
    let mut messages: Vec<ChatMessage> = Vec::new();
    messages.push(ChatMessage { role: "developer".to_owned(), content: prompt.to_owned() });
    messages.push(
        ChatMessage {
            role: "developer".to_owned(),
            content: "Summarize the article clearly and concisely. Keep its main facts and conclusions. Do not add facts or introductory filler.".to_owned(),
        },
    );
    messages.push(ChatMessage { role: "user".to_owned(), content: article.to_owned() });
    ChatRequest { model: "gpt-6-luna".to_owned(), messages }
}

/// Whether an HTTP status is a success (2xx), as `StatusCode::is_success`
/// tests it.
pub open spec fn is_success_status(status: u16) -> bool {
    200 <= status <= 299
}

/// The summary that a completion gives: the content of its first choice,
/// when there is one and it is not blank. The content is kept as it came.
pub open spec fn completion_summary(contents: Seq<Option<String>>) -> Option<Seq<char>> {
    if contents.len() > 0 && (contents[0] matches Some(c) && trim(c@).len() > 0) {
        Some(contents[0]->0@)
    } else {
        None
    }
}

/// What the summarize handler learns from an outside step.
pub enum SummaryEvent {
    /// The summarization service could not be reached.
    Unreachable,
    /// The service answered with this HTTP status.
    Answered(u16),
    /// The body of a successful answer: the message contents of its choices,
    /// or `None` when it is not a completion.
    BodyRead(Option<Vec<Option<String>>>),
    /// Whether storing the summary succeeded.
    Saved(bool),
}

/// What the summarize handler does next.
pub enum SummaryAction {
    /// Read the body of the service's answer.
    ReadBody,
    /// Store the summary for the user.
    Save { user_id: i32, article: String, summary: String },
    /// Answer the request.
    Reply(Result<String, ApiError>),
}

/// Where the summarize handler stands: the job, and the summary once the
/// service has given one.
pub struct SummaryState {
    pub job: SummaryJob,
    pub summary: Option<String>,
}

/// The result of the summarize handler's step function.
pub open spec fn summary_next(
    state_summary: Option<Seq<char>>,
    event: SummaryEvent,
) -> SummaryDecision {
    match event {
        SummaryEvent::Unreachable => SummaryDecision::Fail(ApiError::SummaryServiceUnavailable),
        SummaryEvent::Answered(status) => if is_success_status(status) {
            SummaryDecision::ReadBody
        } else {
            SummaryDecision::Fail(ApiError::SummaryServiceUnavailable)
        },
        SummaryEvent::BodyRead(None) => SummaryDecision::Fail(
            ApiError::SummaryServiceInvalidResponse,
        ),
        SummaryEvent::BodyRead(Some(contents)) => match completion_summary(contents@) {
            Some(s) => SummaryDecision::Save(s),
            None => SummaryDecision::Fail(ApiError::SummaryServiceEmpty),
        },
        SummaryEvent::Saved(ok) => match state_summary {
            Some(s) => if ok {
                SummaryDecision::Succeed(s)
            } else {
                SummaryDecision::Fail(ApiError::SummarySaveFailed)
            },
            None => SummaryDecision::Fail(ApiError::SummarySaveFailed),
        },
    }
}

/// A completion whose first choice has a content that is not blank is
/// stored and answered with exactly that content, as it came; a completion
/// without choices, or whose first choice has no content or a blank one, is
/// an empty summary.
pub proof fn lemma_first_content_is_the_summary(
    state_summary: Option<Seq<char>>,
    contents: Vec<Option<String>>,
)
    ensures
        contents@.len() > 0 && (contents@[0] matches Some(c) && trim(c@).len() > 0) ==> summary_next(
            state_summary,
            SummaryEvent::BodyRead(Some(contents)),
        ) == SummaryDecision::Save(contents@[0]->0@),
        !(contents@.len() > 0 && (contents@[0] matches Some(c) && trim(c@).len() > 0)) ==> summary_next(
            state_summary,
            SummaryEvent::BodyRead(Some(contents)),
        ) == SummaryDecision::Fail(ApiError::SummaryServiceEmpty),
{
}

/// The kind of step that the summarize handler takes, over plain values.
pub ghost enum SummaryDecision {
    ReadBody,
    Save(Seq<char>),
    Succeed(Seq<char>),
    Fail(ApiError),
}

fn first_summary(contents: Vec<Option<String>>) -> (r: Option<String>)
    ensures
        match r {
            Some(s) => completion_summary(contents@) == Some(s@),
            None => completion_summary(contents@) is None,
        },
{
    let mut contents = contents;
    if contents.len() == 0 {
        return None;
    }
    let first = contents.remove(0);
    match first {
        Some(c) => {
            let v = chars_of(c.as_str());
            let (i, j) = trimmed_range(&v);
            if i < j {
                Some(c)
            } else {
                None
            }
        },
        None => None,
    }
}

/// The summarize handler's step: from where it stands and what the last
/// outside step gave, where it stands next and what it does.
/// An unreachable service or a non-2xx answer is "unavailable"; a body that
/// is not a completion is "invalid response"; a completion without a
/// non-blank first content is "empty summary"; otherwise the summary is
/// stored with the job's user and article, and once stored it is the answer.
pub fn summary_step(state: SummaryState, event: SummaryEvent) -> (r: (SummaryState, SummaryAction))
    ensures
        r.0.job.user_id == state.job.user_id,
        r.0.job.article@ == state.job.article@,
        match summary_next(
            match state.summary {
                Some(s) => Some(s@),
                None => None,
            },
            event,
        ) {
            SummaryDecision::ReadBody => r.1 is ReadBody && r.0.summary == state.summary,
            SummaryDecision::Save(s) => {
                &&& r.1 matches SummaryAction::Save { user_id, article, summary }
                &&& user_id == state.job.user_id
                &&& article@ == state.job.article@
                &&& summary@ == s
                &&& r.0.summary matches Some(k)
                &&& k@ == s
            },
            SummaryDecision::Succeed(s) => r.1 matches SummaryAction::Reply(Ok(k)) && k@ == s,
            SummaryDecision::Fail(e) => r.1 == SummaryAction::Reply(Err(e)),
        },
{
    let SummaryState { job, summary } = state;
    match event {
        SummaryEvent::Unreachable => (
            SummaryState { job, summary },
            SummaryAction::Reply(Err(ApiError::SummaryServiceUnavailable)),
        ),
        SummaryEvent::Answered(status) => {
            if 200 <= status && status <= 299 {
                (SummaryState { job, summary }, SummaryAction::ReadBody)
            } else {
                (
                    SummaryState { job, summary },
                    SummaryAction::Reply(Err(ApiError::SummaryServiceUnavailable)),
                )
            }
        },
        SummaryEvent::BodyRead(None) => (
            SummaryState { job, summary },
            SummaryAction::Reply(Err(ApiError::SummaryServiceInvalidResponse)),
        ),
        SummaryEvent::BodyRead(Some(contents)) => {
            match first_summary(contents) {
                Some(s) => {
                    let action = SummaryAction::Save {
                        user_id: job.user_id,
                        article: job.article.clone(),
                        summary: s.clone(),
                    };
                    (SummaryState { job, summary: Some(s) }, action)
                },
                None => (
                    SummaryState { job, summary },
                    SummaryAction::Reply(Err(ApiError::SummaryServiceEmpty)),
                ),
            }
        },
        SummaryEvent::Saved(ok) => {
            match summary {
                Some(s) => {
                    if ok {
                        let answer = s.clone();
                        (SummaryState { job, summary: Some(s) }, SummaryAction::Reply(Ok(answer)))
                    } else {
                        (
                            SummaryState { job, summary: Some(s) },
                            SummaryAction::Reply(Err(ApiError::SummarySaveFailed)),
                        )
                    }
                },
                None => (
                    SummaryState { job, summary: None },
                    SummaryAction::Reply(Err(ApiError::SummarySaveFailed)),
                ),
            }
        },
    }
}

/// The summary that the handler answers with is the summary it stored:
/// after a completion leads to storing `s`, a successful store answers `s`.
pub proof fn lemma_answer_is_stored_summary(contents: Seq<Option<String>>, s: Seq<char>)
    requires
        completion_summary(contents) == Some(s),
    ensures
        summary_next(Some(s), SummaryEvent::Saved(true)) == SummaryDecision::Succeed(s),
        trim(s).len() > 0,
{
}

} // verus!
