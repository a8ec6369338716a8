//! The registration handler: one record written per request, and the answer
//! that follows from how the write went.
//!
//! The handler does not write to the table itself. An invocation is a short
//! sequence of [`Step`]s: [`start`] asks for one write, the caller performs it
//! and hands the outcome to [`resume`], which gives the reply.

use vstd::prelude::*;
use vstd::string::*;
use crate::clock::{ends_in_utc_offset, utc_now_rfc3339};
use crate::config::Config;
use crate::json::{encode_string, is_plain_text, json_string, quoted};
use crate::record::{record_write, PutItem, PutItemModel, UserRecord, UserRecordModel};
use crate::request::{request_user_id, user_id_of};
use crate::response::{Response, ResponseModel, STATUS_INTERNAL_SERVER_ERROR, STATUS_OK};

verus! {

/// How the write to the table went.
#[derive(Debug, Clone, PartialEq, Eq)]
pub enum WriteOutcome {
    /// The record is stored.
    Written,
    /// The write failed, for whatever reason; `detail` describes the failure
    /// for the operator.
    Failed { detail: String },
}

/// What a [`WriteOutcome`] stands for.
pub enum WriteOutcomeModel {
    Written,
    Failed { detail: Seq<char> },
}

impl View for WriteOutcome {
    type V = WriteOutcomeModel;

    open spec fn view(&self) -> WriteOutcomeModel {
        match self {
            WriteOutcome::Written => WriteOutcomeModel::Written,
            WriteOutcome::Failed { detail } => WriteOutcomeModel::Failed { detail: detail@ },
        }
    }
}

/// The end of an invocation: the response for the client and, after a failure,
/// a line for the operator's error stream.
#[derive(Debug, Clone, PartialEq, Eq)]
pub struct Reply {
    pub response: Response,
    pub log: Option<String>,
}

/// What a [`Reply`] stands for.
pub struct ReplyModel {
    pub response: ResponseModel,
    pub log: Option<Seq<char>>,
}

impl View for Reply {
    type V = ReplyModel;

    open spec fn view(&self) -> ReplyModel {
        ReplyModel {
            response: self.response@,
            log: match self.log {
                Some(line) => Some(line@),
                None => None,
            },
        }
    }
}

/// What an invocation remembers while its write is under way.
#[derive(Debug, Clone, PartialEq, Eq)]
pub struct Pending {
    pub user_id: String,
}

/// What an invocation asks of its caller next.
#[derive(Debug, Clone, PartialEq, Eq)]
pub enum Step {
    /// Write `item`, then call [`resume`] with `pending` and the outcome.
    Write { item: PutItem, pending: Pending },
    /// Send the reply; the invocation is over.
    Done(Reply),
}

/// What a [`Step`] stands for.
pub enum StepModel {
    Write { item: PutItemModel, user_id: Seq<char> },
    Done(ReplyModel),
}

impl View for Step {
    type V = StepModel;

    open spec fn view(&self) -> StepModel {
        match self {
            Step::Write { item, pending } => StepModel::Write {
                item: item@,
                user_id: pending.user_id@,
            },
            Step::Done(reply) => StepModel::Done(reply@),
        }
    }
}

/// The body after a write that succeeded: a JSON object with the message and
/// the user's id, where `id_literal` is the id as a JSON string literal.
pub open spec fn success_body(id_literal: Seq<char>) -> Seq<char> {
    "{\"message\":\"User added successfully\",\"user_id\":"@ + id_literal + "}"@
}

/// The body after a write that failed.
pub open spec fn failure_body() -> Seq<char> {
    "Internal Server Error"@
}

/// The line that reports a failed write to the operator.
pub open spec fn failure_log(detail: Seq<char>) -> Seq<char> {
    "DynamoDB error: "@ + detail
}

/// The reply after a write that succeeded: status 200, the success body, and
/// nothing for the operator.
pub open spec fn success_reply(id_literal: Seq<char>) -> ReplyModel {
    ReplyModel {
        response: ResponseModel { status: STATUS_OK, body: success_body(id_literal) },
        log: None,
    }
}

/// The reply after a write that failed: status 500 and the same body whatever
/// the reason, which goes to the operator alone.
pub open spec fn failure_reply(detail: Seq<char>) -> ReplyModel {
    ReplyModel {
        response: ResponseModel { status: STATUS_INTERNAL_SERVER_ERROR, body: failure_body() },
        log: Some(failure_log(detail)),
    }
}

/// The reply to the registration of `user_id`, given how its write went.
pub open spec fn reply_to(user_id: Seq<char>, outcome: WriteOutcomeModel) -> ReplyModel {
    match outcome {
        WriteOutcomeModel::Written => success_reply(json_string(user_id)),
        WriteOutcomeModel::Failed { detail } => failure_reply(detail),
    }
}

/// The first step of every invocation: the write of the record of `user_id`,
/// made at `created_at`, to `table_name`.
pub open spec fn first_step(table_name: Seq<char>, user_id: Seq<char>, created_at: Seq<char>) -> StepModel {
    StepModel::Write {
        item: record_write(table_name, UserRecordModel { user_id, created_at }),
        user_id,
    }
}

/// The second and last step of every invocation: the reply.
pub open spec fn last_step(user_id: Seq<char>, outcome: WriteOutcomeModel) -> StepModel {
    StepModel::Done(reply_to(user_id, outcome))
}

/// The time that the record of a write step holds; empty for any other step.
pub open spec fn written_stamp(step: StepModel) -> Seq<char> {
    match step {
        StepModel::Write { item, .. } => if item.item.len() == 2 {
            item.item[1].1
        } else {
            Seq::empty()
        },
        StepModel::Done(_) => Seq::empty(),
    }
}

/// Begins the registration of `user_id` at the time `created_at`: asks for the
/// one write of its record to the configured table.
pub fn start_at(config: &Config, user_id: String, created_at: String) -> (step: Step)
    ensures
        step@ == first_step(config.table_name@, user_id@, created_at@),
{
    let pending = Pending { user_id: user_id.clone() };
    let record = UserRecord::new(user_id, created_at);
    let item = record.into_write(config.table_name.clone());
    Step::Write { item, pending }
}

/// Begins the registration that `event` asks for, at the current time.
///
/// The step is always a write, of the record of the request's user to the
/// configured table. The time comes from the clock: whatever it reads, the
/// record's time ends with the UTC offset.
pub fn start(config: &Config, event: &lambda_http::Request) -> (step: Step)
    ensures
        step@ == first_step(config.table_name@, request_user_id(*event), written_stamp(step@)),
        ends_in_utc_offset(written_stamp(step@)),
{
    let user_id = user_id_of(event);
    let created_at = utc_now_rfc3339();
    start_at(config, user_id, created_at)
}

/// The reply after a write that succeeded, for the user whose id is
/// `id_literal` as a JSON string literal.
pub fn reply_success(id_literal: &str) -> (reply: Reply)
    ensures
        reply@ == success_reply(id_literal@),
{
    let body = "{\"message\":\"User added successfully\",\"user_id\":".to_string();
    let body = body.concat(id_literal).concat("}");
    Reply { response: Response::new(STATUS_OK, body), log: None }
}

/// The reply after a write that failed, with `detail` for the operator.
pub fn reply_failure(detail: &str) -> (reply: Reply)
    ensures
        reply@ == failure_reply(detail@),
{
    let line = "DynamoDB error: ".to_string().concat(detail);
    Reply {
        response: Response::new(STATUS_INTERNAL_SERVER_ERROR, "Internal Server Error".to_string()),
        log: Some(line),
    }
}

/// Ends the invocation, given how the write went. The step is always the
/// reply: a write that failed is not tried again.
///
/// Where the id holds no double quote, backslash or control character, the
/// success body holds it unchanged between double quotes.
pub fn resume(pending: Pending, outcome: WriteOutcome) -> (step: Step)
    ensures
        step@ == last_step(pending.user_id@, outcome@),
        outcome is Written && is_plain_text(pending.user_id@) ==> step@ == StepModel::Done(
            success_reply(quoted(pending.user_id@)),
        ),
{
    match outcome {
        WriteOutcome::Written => {
            let id_literal = encode_string(pending.user_id.as_str()).unwrap();
            Step::Done(reply_success(id_literal.as_str()))
        },
        WriteOutcome::Failed { detail } => Step::Done(reply_failure(detail.as_str())),
    }
}

} // verus!
