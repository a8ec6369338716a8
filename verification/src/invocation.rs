//! A registration seen as a whole: the steps of one invocation, and what holds
//! of every one of them.

use vstd::prelude::*;
use crate::json::json_string;
use crate::record::{
    created_at_attribute, record_write, user_id_attribute, PutItemModel, UserRecordModel,
};
use crate::registration::{
    failure_body, failure_reply, first_step, last_step, success_body, success_reply, ReplyModel,
    StepModel, WriteOutcomeModel,
};
use crate::request::{
    first_value, request_query, request_user_id, unknown_user, user_id_parameter,
};
use crate::response::{STATUS_INTERNAL_SERVER_ERROR, STATUS_OK};

verus! {

/// The steps of the invocation that registers `user_id` at `created_at` in
/// `table_name`, where the write ends with `outcome`.
pub open spec fn invocation(
    table_name: Seq<char>,
    user_id: Seq<char>,
    created_at: Seq<char>,
    outcome: WriteOutcomeModel,
) -> Seq<StepModel> {
    seq![first_step(table_name, user_id, created_at), last_step(user_id, outcome)]
}

/// The writes that `steps` ask for, in order.
pub open spec fn writes(steps: Seq<StepModel>) -> Seq<PutItemModel>
    decreases steps.len(),
{
    if steps.len() == 0 {
        Seq::empty()
    } else {
        match steps.last() {
            StepModel::Write { item, .. } => writes(steps.drop_last()).push(item),
            StepModel::Done(_) => writes(steps.drop_last()),
        }
    }
}

/// The replies that `steps` give, in order.
pub open spec fn replies(steps: Seq<StepModel>) -> Seq<ReplyModel>
    decreases steps.len(),
{
    if steps.len() == 0 {
        Seq::empty()
    } else {
        match steps.last() {
            StepModel::Write { .. } => replies(steps.drop_last()),
            StepModel::Done(reply) => replies(steps.drop_last()).push(reply),
        }
    }
}

/// Every invocation asks for exactly one write, that of its record to its
/// table, and gives exactly one reply, however the write went.
pub proof fn invocation_writes_once(
    table_name: Seq<char>,
    user_id: Seq<char>,
    created_at: Seq<char>,
    outcome: WriteOutcomeModel,
)
    ensures
        writes(invocation(table_name, user_id, created_at, outcome)) == seq![
            record_write(table_name, UserRecordModel { user_id, created_at }),
        ],
        replies(invocation(table_name, user_id, created_at, outcome)).len() == 1,
{
    let steps = invocation(table_name, user_id, created_at, outcome);
    let head = steps.drop_last();
    assert(head =~= seq![first_step(table_name, user_id, created_at)]);
    assert(head.drop_last() =~= Seq::<StepModel>::empty());
    assert(writes(head.drop_last()) =~= Seq::<PutItemModel>::empty());
    assert(replies(head.drop_last()) =~= Seq::<ReplyModel>::empty());
    assert(writes(head) =~= seq![
        record_write(table_name, UserRecordModel { user_id, created_at }),
    ]);
    assert(replies(head) =~= Seq::<ReplyModel>::empty());
    assert(writes(steps) =~= writes(head));
    assert(replies(steps) =~= replies(head).push(steps.last()->Done_0));
}

/// A request that carries the user parameter is registered under the first
/// value of that parameter, exactly as given: that value is the id that the
/// record stores, and after a write that succeeded the reply holds its JSON
/// string literal.
pub proof fn present_user_id_is_kept(
    event: lambda_http::Request,
    value: Seq<char>,
    table_name: Seq<char>,
    created_at: Seq<char>,
)
    requires
        first_value(request_query(event), user_id_parameter()) == Some(value),
    ensures
        request_user_id(event) == value,
        writes(
            invocation(table_name, request_user_id(event), created_at, WriteOutcomeModel::Written),
        ) == seq![
            PutItemModel {
                table_name,
                item: seq![(user_id_attribute(), value), (created_at_attribute(), created_at)],
            },
        ],
        replies(
            invocation(table_name, request_user_id(event), created_at, WriteOutcomeModel::Written),
        ) == seq![success_reply(json_string(value))],
        success_reply(json_string(value)).response.status == STATUS_OK,
        success_reply(json_string(value)).response.body == success_body(json_string(value)),
{
    let outcome = WriteOutcomeModel::Written;
    invocation_writes_once(table_name, value, created_at, outcome);
    let steps = invocation(table_name, value, created_at, outcome);
    assert(replies(steps) =~= seq![success_reply(json_string(value))]) by {
        let head = steps.drop_last();
        assert(head =~= seq![first_step(table_name, value, created_at)]);
        assert(head.drop_last() =~= Seq::<StepModel>::empty());
        assert(replies(head.drop_last()) =~= Seq::<ReplyModel>::empty());
        assert(replies(head) =~= Seq::<ReplyModel>::empty());
    }
}

/// A request without the user parameter is registered under the id
/// `unknown`: that is the id that the record stores and that the reply holds.
pub proof fn missing_user_id_is_unknown(
    event: lambda_http::Request,
    table_name: Seq<char>,
    created_at: Seq<char>,
)
    requires
        first_value(request_query(event), user_id_parameter()) is None,
    ensures
        request_user_id(event) == unknown_user(),
        writes(
            invocation(table_name, request_user_id(event), created_at, WriteOutcomeModel::Written),
        ) == seq![
            PutItemModel {
                table_name,
                item: seq![
                    (user_id_attribute(), unknown_user()),
                    (created_at_attribute(), created_at),
                ],
            },
        ],
        replies(
            invocation(table_name, request_user_id(event), created_at, WriteOutcomeModel::Written),
        ) == seq![success_reply(json_string(unknown_user()))],
{
    let outcome = WriteOutcomeModel::Written;
    let user_id = unknown_user();
    invocation_writes_once(table_name, user_id, created_at, outcome);
    let steps = invocation(table_name, user_id, created_at, outcome);
    assert(replies(steps) =~= seq![success_reply(json_string(user_id))]) by {
        let head = steps.drop_last();
        assert(head =~= seq![first_step(table_name, user_id, created_at)]);
        assert(head.drop_last() =~= Seq::<StepModel>::empty());
        assert(replies(head.drop_last()) =~= Seq::<ReplyModel>::empty());
        assert(replies(head) =~= Seq::<ReplyModel>::empty());
    }
}

/// A write that failed, for whatever reason, is answered with status 500 and
/// the body `Internal Server Error`, and with nothing else: the invocation
/// asks for no write beyond the one that failed, and gives no success body.
pub proof fn failed_write_is_internal_error(
    table_name: Seq<char>,
    user_id: Seq<char>,
    created_at: Seq<char>,
    detail: Seq<char>,
)
    ensures
        replies(
            invocation(table_name, user_id, created_at, WriteOutcomeModel::Failed { detail }),
        ) == seq![failure_reply(detail)],
        failure_reply(detail).response.status == STATUS_INTERNAL_SERVER_ERROR,
        failure_reply(detail).response.body == failure_body(),
        writes(
            invocation(table_name, user_id, created_at, WriteOutcomeModel::Failed { detail }),
        ).len() == 1,
{
    let outcome = WriteOutcomeModel::Failed { detail };
    invocation_writes_once(table_name, user_id, created_at, outcome);
    let steps = invocation(table_name, user_id, created_at, outcome);
    assert(replies(steps) =~= seq![failure_reply(detail)]) by {
        let head = steps.drop_last();
        assert(head =~= seq![first_step(table_name, user_id, created_at)]);
        assert(head.drop_last() =~= Seq::<StepModel>::empty());
        assert(replies(head.drop_last()) =~= Seq::<ReplyModel>::empty());
        assert(replies(head) =~= Seq::<ReplyModel>::empty());
    }
}

} // verus!
