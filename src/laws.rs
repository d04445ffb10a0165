//! Properties of the request lifecycle over several events, stated over the
//! lifecycle's spec functions and a model of what the log messages show.
use vstd::prelude::*;
use crate::approval::ApprovalError;
use crate::index::{has_source, has_submitter, PendingRequest};
use crate::lifecycle::{
    approval_effects, approval_state, deletion_effects, deletion_state, edit, permitted,
    press_effects, press_state, press_target, press_upload, refusal, restorable, retire, sound,
    source_log, submit_effects,
    submit_result, submit_state, submitter_log, Action, Effect, LifecycleState, LogStatus, Notice,
};

verus! {

/// What the log messages show after one effect.
pub open spec fn apply_effect(logs: Map<u64, LogStatus>, e: Effect) -> Map<u64, LogStatus> {
    match e {
        Effect::EditLog { log_message_id, status, .. } => logs.insert(log_message_id, status),
        _ => logs,
    }
}

/// What the log messages show after a sequence of effects, in order.
pub open spec fn apply_effects(logs: Map<u64, LogStatus>, es: Seq<Effect>) -> Map<
    u64,
    LogStatus,
>
    decreases es.len(),
{
    if es.len() == 0 {
        logs
    } else {
        apply_effects(apply_effect(logs, es[0]), es.skip(1))
    }
}

/// A request is in the index exactly when its log message shows "pending".
pub open spec fn consistent(st: LifecycleState, logs: Map<u64, LogStatus>) -> bool {
    forall|l: u64|
        #![trigger st.requests.contains_key(l)]
        #![trigger logs.contains_key(l)]
        st.requests.contains_key(l) <==> (logs.contains_key(l) && logs[l] == LogStatus::Pending)
}

proof fn lemma_apply_none(logs: Map<u64, LogStatus>)
    ensures
        apply_effects(logs, seq![]) == logs,
{
}

proof fn lemma_apply_one(logs: Map<u64, LogStatus>, a: Effect)
    ensures
        apply_effects(logs, seq![a]) == apply_effect(logs, a),
{
    let rest = seq![a].skip(1);
    assert(rest =~= Seq::<Effect>::empty());
    assert(apply_effects(apply_effect(logs, a), rest) == apply_effect(logs, a));
}

proof fn lemma_apply_two(logs: Map<u64, LogStatus>, a: Effect, b: Effect)
    ensures
        apply_effects(logs, seq![a, b]) == apply_effect(apply_effect(logs, a), b),
{
    assert(seq![a, b].skip(1) =~= seq![b]);
    lemma_apply_one(apply_effect(logs, a), b);
}

/// In a sound state the submitter's pending request is the one under
/// `submitter_log`, and no other.
proof fn lemma_submitter_log(st: LifecycleState, s: u64)
    requires
        sound(st),
        has_submitter(st.requests, s),
    ensures
        st.requests.contains_key(submitter_log(st.requests, s)),
        st.requests[submitter_log(st.requests, s)].submitter_id == s,
        forall|l: u64|
            st.requests.contains_key(l) && st.requests[l].submitter_id == s ==> l == submitter_log(
                st.requests,
                s,
            ),
{
    let p = submitter_log(st.requests, s);
    assert forall|l: u64| st.requests.contains_key(l) && st.requests[l].submitter_id == s implies l
        == p by {
        assert(st.requests[l].submitter_id == st.requests[p].submitter_id);
    }
}

/// Log message `l` shows "cancelled".
pub open spec fn cancelled_at(logs: Map<u64, LogStatus>, l: u64) -> bool {
    logs.contains_key(l) && logs[l] == LogStatus::Cancelled
}

/// Log message `l` shows the same in `before` and `after`.
pub open spec fn unchanged_at(before: Map<u64, LogStatus>, after: Map<u64, LogStatus>, l: u64) -> bool {
    after.contains_key(l) == before.contains_key(l) && (before.contains_key(l) ==> after[l]
        == before[l])
}

/// Log message `l` shows a pending request of `submitter`.
pub open spec fn held_by(st: LifecycleState, l: u64, submitter: u64) -> bool {
    st.requests.contains_key(l) && st.requests[l].submitter_id == submitter
}

/// None of `rs` has log message `l`.
pub open spec fn not_among(rs: Seq<PendingRequest>, l: u64) -> bool {
    forall|i: int| 0 <= i < rs.len() ==> #[trigger] rs[i].log_message_id != l
}

/// One submission of a request with a new log message, whose log message
/// was just posted as pending: the state stays sound, index and log
/// messages stay consistent, the new request is the submitter's only one,
/// the submitter's earlier request now shows "cancelled", and no other log
/// message changes.
pub proof fn lemma_submit_step(st: LifecycleState, logs: Map<u64, LogStatus>, r: PendingRequest)
    requires
        sound(st),
        consistent(st, logs),
        submit_result(st, r) is Ok,
        !logs.contains_key(r.log_message_id),
    ensures
        ({
            let st2 = submit_state(st, r);
            let logs2 = apply_effects(
                logs.insert(r.log_message_id, LogStatus::Pending),
                submit_effects(st, r),
            );
            &&& sound(st2)
            &&& consistent(st2, logs2)
            &&& st2.requests.contains_key(r.log_message_id)
            &&& st2.requests[r.log_message_id] == r
            &&& forall|l: u64| #[trigger] held_by(st2, l, r.submitter_id) ==> l == r.log_message_id
            &&& logs2.contains_key(r.log_message_id)
            &&& logs2[r.log_message_id] == LogStatus::Pending
            &&& forall|l: u64|
                l != r.log_message_id && #[trigger] held_by(st, l, r.submitter_id) ==> cancelled_at(
                    logs2,
                    l,
                )
            &&& forall|l: u64|
                l != r.log_message_id && !held_by(st, l, r.submitter_id) ==> #[trigger] unchanged_at(
                    logs,
                    logs2,
                    l,
                )
            &&& forall|l: u64|
                #[trigger] st2.requests.contains_key(l) ==> st.requests.contains_key(l) || l
                    == r.log_message_id
            &&& forall|l: u64|
                #[trigger] st2.retired.contains(l) ==> st.retired.contains(l)
                    || st.requests.contains_key(l)
            &&& forall|x: u64|
                has_source(st2.requests, x) ==> has_source(st.requests, x) || x
                    == r.source_message_id
        }),
{
    let st2 = submit_state(st, r);
    let logs1 = logs.insert(r.log_message_id, LogStatus::Pending);
    let logs2 = apply_effects(logs1, submit_effects(st, r));
    let s = r.submitter_id;
    if has_submitter(st.requests, s) {
        lemma_submitter_log(st, s);
        let p = submitter_log(st.requests, s);
        lemma_apply_one(logs1, edit(p, LogStatus::Cancelled, None));
        assert(logs2 == logs1.insert(p, LogStatus::Cancelled));
        assert(st2.requests == st.requests.remove(p).insert(r.log_message_id, r));
        assert forall|l: u64| l != r.log_message_id && #[trigger] held_by(st, l, s) implies cancelled_at(
            logs2,
            l,
        ) by {
            assert(l == p);
        }
    } else {
        lemma_apply_none(logs1);
        assert(st2.requests == st.requests.insert(r.log_message_id, r));
    }
    assert forall|a: u64, b: u64|
        st2.requests.contains_key(a) && st2.requests.contains_key(b)
            && st2.requests[a].submitter_id == st2.requests[b].submitter_id implies a == b by {
        if a != r.log_message_id && b != r.log_message_id {
            assert(st.requests[a].submitter_id == st.requests[b].submitter_id);
        } else if a != r.log_message_id {
            assert(st.requests.contains_key(a) && st.requests[a].submitter_id == s);
        } else if b != r.log_message_id {
            assert(st.requests.contains_key(b) && st.requests[b].submitter_id == s);
        }
    }
    assert forall|l: u64| #[trigger] held_by(st2, l, s) implies l == r.log_message_id by {
        assert(st2.requests[l].submitter_id == st2.requests[r.log_message_id].submitter_id);
    }
    assert forall|a: u64, b: u64|
        st2.requests.contains_key(a) && st2.requests.contains_key(b)
            && st2.requests[a].source_message_id
            == st2.requests[b].source_message_id implies a == b by {
        if a != r.log_message_id && b != r.log_message_id {
            assert(st.requests[a].source_message_id == st.requests[b].source_message_id);
        } else if a != r.log_message_id {
            assert(st.requests.contains_key(a));
            assert(has_source(st.requests, r.source_message_id));
        } else if b != r.log_message_id {
            assert(st.requests.contains_key(b));
            assert(has_source(st.requests, r.source_message_id));
        }
    }
    assert forall|x: u64| has_source(st2.requests, x) implies has_source(st.requests, x) || x
        == r.source_message_id by {
        let l = choose|l: u64| #[trigger]
            st2.requests.contains_key(l) && st2.requests[l].source_message_id == x;
        if l != r.log_message_id {
            assert(st.requests.contains_key(l));
        }
    }
}

/// The state and log messages after submitting each of `rs` in turn, each
/// one's log message posted as pending just before.
pub open spec fn submit_all(st: LifecycleState, logs: Map<u64, LogStatus>, rs: Seq<PendingRequest>) -> (
    LifecycleState,
    Map<u64, LogStatus>,
)
    decreases rs.len(),
{
    if rs.len() == 0 {
        (st, logs)
    } else {
        let r = rs[0];
        submit_all(
            submit_state(st, r),
            apply_effects(logs.insert(r.log_message_id, LogStatus::Pending), submit_effects(st, r)),
            rs.skip(1),
        )
    }
}

/// Every submission of `rs`, made in turn from `st`, is accepted.
pub open spec fn all_accepted(st: LifecycleState, rs: Seq<PendingRequest>) -> bool
    decreases rs.len(),
{
    rs.len() == 0 || (submit_result(st, rs[0]) is Ok && all_accepted(
        submit_state(st, rs[0]),
        rs.skip(1),
    ))
}

/// Submissions by one submitter, each with a log message and a source
/// message that nothing else has used.
pub open spec fn fresh_submissions(
    st: LifecycleState,
    logs: Map<u64, LogStatus>,
    submitter: u64,
    rs: Seq<PendingRequest>,
) -> bool {
    &&& forall|i: int| 0 <= i < rs.len() ==> #[trigger] rs[i].submitter_id == submitter
    &&& forall|i: int|
        0 <= i < rs.len() ==> {
            &&& !st.requests.contains_key(#[trigger] rs[i].log_message_id)
            &&& !st.retired.contains(rs[i].log_message_id)
            &&& !logs.contains_key(rs[i].log_message_id)
            &&& !has_source(st.requests, rs[i].source_message_id)
        }
    &&& forall|i: int, j: int|
        #![trigger rs[i], rs[j]]
        0 <= i < j < rs.len() ==> rs[i].log_message_id != rs[j].log_message_id
            && rs[i].source_message_id != rs[j].source_message_id
}

/// What a run of submissions by one submitter leaves behind.
pub open spec fn resubmission_outcome(
    st: LifecycleState,
    logs: Map<u64, LogStatus>,
    submitter: u64,
    rs: Seq<PendingRequest>,
) -> bool {
    let st2 = submit_all(st, logs, rs).0;
    let logs2 = submit_all(st, logs, rs).1;
    let last = rs.last();
    &&& all_accepted(st, rs)
    &&& sound(st2)
    &&& consistent(st2, logs2)
    &&& st2.requests.contains_key(last.log_message_id)
    &&& st2.requests[last.log_message_id] == last
    &&& forall|l: u64| #[trigger] held_by(st2, l, submitter) ==> l == last.log_message_id
    &&& logs2.contains_key(last.log_message_id)
    &&& logs2[last.log_message_id] == LogStatus::Pending
    &&& forall|i: int| 0 <= i < rs.len() - 1 ==> cancelled_at(logs2, #[trigger] rs[i].log_message_id)
    &&& forall|l: u64| #[trigger] held_by(st, l, submitter) ==> cancelled_at(logs2, l)
}

/// Whatever sequence of submissions one submitter makes, each is accepted;
/// afterwards the last is their only pending request and its log message
/// shows "pending", while the log message of every earlier one, and of any
/// request they had pending before, shows "cancelled". Index and log
/// messages stay consistent throughout.
pub proof fn lemma_resubmissions(
    st: LifecycleState,
    logs: Map<u64, LogStatus>,
    submitter: u64,
    rs: Seq<PendingRequest>,
)
    requires
        sound(st),
        consistent(st, logs),
        rs.len() > 0,
        fresh_submissions(st, logs, submitter, rs),
    ensures
        resubmission_outcome(st, logs, submitter, rs),
{
    lemma_resubmissions_frame(st, logs, submitter, rs);
}

proof fn lemma_resubmissions_frame(
    st: LifecycleState,
    logs: Map<u64, LogStatus>,
    submitter: u64,
    rs: Seq<PendingRequest>,
)
    requires
        sound(st),
        consistent(st, logs),
        rs.len() > 0,
        fresh_submissions(st, logs, submitter, rs),
    ensures
        resubmission_outcome(st, logs, submitter, rs),
        forall|l: u64|
            !held_by(st, l, submitter) && not_among(rs, l) ==> #[trigger] unchanged_at(
                logs,
                submit_all(st, logs, rs).1,
                l,
            ),
    decreases rs.len(),
{
    let r = rs[0];
    assert(r.submitter_id == submitter);
    assert(!st.requests.contains_key(rs[0].log_message_id));
    assert(submit_result(st, r) is Ok);
    lemma_submit_step(st, logs, r);
    let st1 = submit_state(st, r);
    let logs1 = apply_effects(logs.insert(r.log_message_id, LogStatus::Pending), submit_effects(st, r));
    let rest = rs.skip(1);
    assert(submit_all(st, logs, rs) == submit_all(st1, logs1, rest));
    if rs.len() == 1 {
        assert(rest.len() == 0);
        assert(all_accepted(st1, rest));
        assert forall|l: u64|
            !held_by(st, l, submitter) && not_among(rs, l) implies #[trigger] unchanged_at(
                logs,
                logs1,
                l,
            ) by {
            assert(rs[0].log_message_id != l);
        }
    } else {
        lemma_rest_fresh(st, logs, submitter, rs, st1, logs1);
        lemma_resubmissions_frame(st1, logs1, submitter, rest);
        lemma_extend(st, logs, submitter, rs, st1, logs1, submit_all(st1, logs1, rest).1);
    }
}

proof fn lemma_rest_fresh(
    st: LifecycleState,
    logs: Map<u64, LogStatus>,
    submitter: u64,
    rs: Seq<PendingRequest>,
    st1: LifecycleState,
    logs1: Map<u64, LogStatus>,
)
    requires
        rs.len() > 1,
        fresh_submissions(st, logs, submitter, rs),
        forall|l: u64|
            #[trigger] st1.requests.contains_key(l) ==> st.requests.contains_key(l) || l
                == rs[0].log_message_id,
        forall|l: u64| #[trigger] st1.retired.contains(l) ==> st.retired.contains(l) || st.requests.contains_key(l),
        forall|x: u64|
            has_source(st1.requests, x) ==> has_source(st.requests, x) || x
                == rs[0].source_message_id,
        forall|l: u64|
            l != rs[0].log_message_id && !held_by(st, l, submitter) ==> #[trigger] unchanged_at(
                logs,
                logs1,
                l,
            ),
        forall|l: u64| l != rs[0].log_message_id && #[trigger] held_by(st, l, submitter) ==> cancelled_at(logs1, l),
    ensures
        fresh_submissions(st1, logs1, submitter, rs.skip(1)),
{
    let rest = rs.skip(1);
    assert forall|i: int| 0 <= i < rest.len() implies {
        &&& !st1.requests.contains_key(#[trigger] rest[i].log_message_id)
        &&& !st1.retired.contains(rest[i].log_message_id)
        &&& !logs1.contains_key(rest[i].log_message_id)
        &&& !has_source(st1.requests, rest[i].source_message_id)
    } by {
        let l = rest[i].log_message_id;
        assert(rest[i] == rs[i + 1]);
        assert(!st.requests.contains_key(rs[i + 1].log_message_id));
        assert(rs[0].log_message_id != rs[i + 1].log_message_id);
        assert(rs[0].source_message_id != rs[i + 1].source_message_id);
        assert(!held_by(st, l, submitter));
        assert(unchanged_at(logs, logs1, l));
    }
    assert forall|i: int| 0 <= i < rest.len() implies #[trigger] rest[i].submitter_id
        == submitter by {
        assert(rest[i] == rs[i + 1]);
    }
    assert forall|i: int, j: int| 0 <= i < j < rest.len() implies rest[i].log_message_id
        != rest[j].log_message_id && rest[i].source_message_id
        != rest[j].source_message_id by {
        assert(rest[i] == rs[i + 1]);
        assert(rest[j] == rs[j + 1]);
    }
}

proof fn lemma_extend(
    st: LifecycleState,
    logs: Map<u64, LogStatus>,
    submitter: u64,
    rs: Seq<PendingRequest>,
    st1: LifecycleState,
    logs1: Map<u64, LogStatus>,
    logs2: Map<u64, LogStatus>,
)
    requires
        rs.len() > 1,
        rs[0].submitter_id == submitter,
        !st.requests.contains_key(rs[0].log_message_id),
        held_by(st1, rs[0].log_message_id, submitter),
        forall|l: u64| #[trigger] held_by(st1, l, submitter) ==> l == rs[0].log_message_id,
        forall|l: u64| l != rs[0].log_message_id && #[trigger] held_by(st, l, submitter) ==> cancelled_at(logs1, l),
        forall|l: u64|
            l != rs[0].log_message_id && !held_by(st, l, submitter) ==> #[trigger] unchanged_at(
                logs,
                logs1,
                l,
            ),
        forall|i: int| 0 <= i < rs.len() ==> #[trigger] rs[i].submitter_id == submitter,
        forall|i: int| 0 <= i < rs.len() ==> !st.requests.contains_key(#[trigger] rs[i].log_message_id),
        forall|i: int| 0 <= i < rs.len() - 2 ==> cancelled_at(logs2, #[trigger] rs.skip(1)[i].log_message_id),
        forall|l: u64| #[trigger] held_by(st1, l, submitter) ==> cancelled_at(logs2, l),
        forall|l: u64|
            !held_by(st1, l, submitter) && not_among(rs.skip(1), l) ==> #[trigger] unchanged_at(
                logs1,
                logs2,
                l,
            ),
    ensures
        forall|i: int| 0 <= i < rs.len() - 1 ==> cancelled_at(logs2, #[trigger] rs[i].log_message_id),
        forall|l: u64| #[trigger] held_by(st, l, submitter) ==> cancelled_at(logs2, l),
        forall|l: u64|
            !held_by(st, l, submitter) && not_among(rs, l) ==> #[trigger] unchanged_at(logs, logs2, l),
{
    let rest = rs.skip(1);
    assert forall|i: int| 0 <= i < rs.len() - 1 implies cancelled_at(
        logs2,
        #[trigger] rs[i].log_message_id,
    ) by {
        if i == 0 {
            assert(held_by(st1, rs[0].log_message_id, submitter));
        } else {
            assert(rest[i - 1] == rs[i]);
        }
    }
    assert forall|l: u64| #[trigger] held_by(st, l, submitter) implies cancelled_at(logs2, l) by {
        assert(l != rs[0].log_message_id);
        assert(cancelled_at(logs1, l));
        assert(!held_by(st1, l, submitter));
        assert forall|i: int| 0 <= i < rest.len() implies #[trigger] rest[i].log_message_id != l by {
            assert(rest[i] == rs[i + 1]);
            assert(!st.requests.contains_key(rs[i + 1].log_message_id));
        }
        assert(unchanged_at(logs1, logs2, l));
    }
    assert forall|l: u64| !held_by(st, l, submitter) && not_among(rs, l) implies #[trigger] unchanged_at(
        logs,
        logs2,
        l,
    ) by {
        assert(rs[0].log_message_id != l);
        assert(unchanged_at(logs, logs1, l));
        assert(!held_by(st1, l, submitter));
        assert forall|i: int| 0 <= i < rest.len() implies #[trigger] rest[i].log_message_id != l by {
            assert(rest[i] == rs[i + 1]);
        }
        assert(unchanged_at(logs1, logs2, l));
    }
}

/// The submitter has at most one pending request in any sound state.
pub proof fn lemma_one_request_per_submitter(st: LifecycleState, a: u64, b: u64)
    requires
        sound(st),
        st.requests.contains_key(a),
        st.requests.contains_key(b),
        st.requests[a].submitter_id == st.requests[b].submitter_id,
    ensures
        a == b,
{
}

/// Retiring a pending request keeps the state sound.
proof fn lemma_retire_sound(st: LifecycleState, log: u64)
    requires
        sound(st),
    ensures
        sound(retire(st, log)),
{
    let m = retire(st, log).requests;
    assert forall|a: u64, b: u64|
        m.contains_key(a) && m.contains_key(b) && m[a].submitter_id == m[b].submitter_id implies a
        == b by {
        assert(st.requests[a].submitter_id == st.requests[b].submitter_id);
    }
    assert forall|a: u64, b: u64|
        m.contains_key(a) && m.contains_key(b) && m[a].source_message_id
            == m[b].source_message_id implies a == b by {
        assert(st.requests[a].source_message_id == st.requests[b].source_message_id);
    }
}

/// A button press keeps the state sound, and keeps the index consistent
/// with what the log messages show.
pub proof fn lemma_press_consistent(
    st: LifecycleState,
    logs: Map<u64, LogStatus>,
    log: u64,
    action: Action,
    actor: u64,
    authorized: bool,
    recovered: Option<PendingRequest>,
)
    requires
        sound(st),
        consistent(st, logs),
    ensures
        sound(press_state(st, log, action, actor, authorized, recovered)),
        consistent(
            press_state(st, log, action, actor, authorized, recovered),
            apply_effects(logs, press_effects(st, log, action, actor, authorized, recovered)),
        ),
{
    match press_target(st, log, recovered) {
        None => lemma_apply_none(logs),
        Some(r) => {
            if !permitted(action, actor, authorized, r) {
                lemma_apply_one(logs, Effect::Reply { notice: refusal(action) });
            } else {
                lemma_retire_sound(st, log);
                match action {
                    Action::Approve => lemma_apply_one(
                        logs,
                        edit(log, LogStatus::Uploading, Some(r.image_ref)),
                    ),
                    Action::Deny => lemma_apply_two(
                        logs,
                        edit(log, LogStatus::Denied, None),
                        Effect::DeleteSource { source_message_id: r.source_message_id },
                    ),
                    Action::Cancel => lemma_apply_two(
                        logs,
                        edit(log, LogStatus::Cancelled, None),
                        Effect::DeleteSource { source_message_id: r.source_message_id },
                    ),
                }
            }
        },
    }
}

/// The end of an approval in flight keeps the state sound, and keeps the
/// index consistent with what the log messages show.
pub proof fn lemma_approval_consistent(
    st: LifecycleState,
    logs: Map<u64, LogStatus>,
    r: PendingRequest,
    outcome: Result<String, ApprovalError>,
)
    requires
        sound(st),
        consistent(st, logs),
        st.retired.contains(r.log_message_id),
    ensures
        sound(approval_state(st, r, outcome)),
        consistent(
            approval_state(st, r, outcome),
            apply_effects(logs, approval_effects(st, r, outcome)),
        ),
{
    match outcome {
        Ok(hosted) => lemma_apply_two(
            logs,
            edit(r.log_message_id, LogStatus::Approved, Some(hosted)),
            Effect::DeleteSource { source_message_id: r.source_message_id },
        ),
        Err(_) => {
            if restorable(st, r) {
                lemma_apply_two(
                    logs,
                    edit(r.log_message_id, LogStatus::Pending, Some(r.image_ref)),
                    Effect::Reply { notice: Notice::ApprovalFailed },
                );
                let m = st.requests.insert(r.log_message_id, r);
                assert forall|a: u64, b: u64|
                    m.contains_key(a) && m.contains_key(b) && m[a].submitter_id
                        == m[b].submitter_id implies a == b by {
                    if a != r.log_message_id && b != r.log_message_id {
                        assert(st.requests[a].submitter_id == st.requests[b].submitter_id);
                    } else if a != r.log_message_id {
                        assert(st.requests.contains_key(a));
                    } else if b != r.log_message_id {
                        assert(st.requests.contains_key(b));
                    }
                }
                assert forall|a: u64, b: u64|
                    m.contains_key(a) && m.contains_key(b) && m[a].source_message_id
                        == m[b].source_message_id implies a == b by {
                    if a != r.log_message_id && b != r.log_message_id {
                        assert(st.requests[a].source_message_id
                            == st.requests[b].source_message_id);
                    } else if a != r.log_message_id {
                        assert(st.requests.contains_key(a));
                    } else if b != r.log_message_id {
                        assert(st.requests.contains_key(b));
                    }
                }
            } else {
                lemma_apply_two(
                    logs,
                    edit(r.log_message_id, LogStatus::Cancelled, None),
                    Effect::Reply { notice: Notice::ApprovalFailed },
                );
            }
        },
    }
}

/// The deletion of a source message keeps the state sound, and keeps the
/// index consistent with what the log messages show.
pub proof fn lemma_deletion_consistent(st: LifecycleState, logs: Map<u64, LogStatus>, source: u64)
    requires
        sound(st),
        consistent(st, logs),
    ensures
        sound(deletion_state(st, source)),
        consistent(deletion_state(st, source), apply_effects(logs, deletion_effects(st, source))),
{
    if has_source(st.requests, source) {
        let l = source_log(st.requests, source);
        lemma_retire_sound(st, l);
        lemma_apply_one(logs, edit(l, LogStatus::Cancelled, None));
    } else {
        lemma_apply_none(logs);
    }
}

/// A moderator's approval of a pending request: the log message goes from
/// "pending" to "uploading", the request leaves the index and is handed out
/// once for storing; once stored, the log message shows "approved" with the
/// stored image, the source message is deleted, and nothing else changes.
pub proof fn lemma_authorized_approval(
    st: LifecycleState,
    logs: Map<u64, LogStatus>,
    log: u64,
    actor: u64,
    recovered: Option<PendingRequest>,
    hosted: String,
)
    requires
        sound(st),
        consistent(st, logs),
        st.requests.contains_key(log),
    ensures
        ({
            let r = st.requests[log];
            let st1 = press_state(st, log, Action::Approve, actor, true, recovered);
            let logs1 = apply_effects(
                logs,
                press_effects(st, log, Action::Approve, actor, true, recovered),
            );
            let st2 = approval_state(st1, r, Ok(hosted));
            let done = approval_effects(st1, r, Ok(hosted));
            let logs2 = apply_effects(logs1, done);
            &&& logs.contains_key(log) && logs[log] == LogStatus::Pending
            &&& press_upload(st, log, Action::Approve, actor, true, recovered) == Some(r)
            &&& st1.requests == st.requests.remove(log)
            &&& logs1.contains_key(log) && logs1[log] == LogStatus::Uploading
            &&& st2 == st1
            &&& logs2.contains_key(log) && logs2[log] == LogStatus::Approved
            &&& done == seq![
                edit(log, LogStatus::Approved, Some(hosted)),
                Effect::DeleteSource { source_message_id: r.source_message_id },
            ]
            &&& consistent(st2, logs2)
        }),
{
    let r = st.requests[log];
    lemma_press_consistent(st, logs, log, Action::Approve, actor, true, recovered);
    let st1 = press_state(st, log, Action::Approve, actor, true, recovered);
    let logs1 = apply_effects(logs, press_effects(st, log, Action::Approve, actor, true, recovered));
    assert(r.log_message_id == log);
    assert(st1.retired.contains(log));
    lemma_apply_one(logs, edit(log, LogStatus::Uploading, Some(r.image_ref)));
    assert(st1.requests =~= st.requests.remove(log));
    lemma_approval_consistent(st1, logs1, r, Ok(hosted));
    lemma_apply_two(
        logs1,
        edit(log, LogStatus::Approved, Some(hosted)),
        Effect::DeleteSource { source_message_id: r.source_message_id },
    );
}

/// An approve press by someone without the moderator role changes neither
/// the index nor any log message, and hands out nothing to store.
pub proof fn lemma_unauthorized_approval(
    st: LifecycleState,
    logs: Map<u64, LogStatus>,
    log: u64,
    actor: u64,
    recovered: Option<PendingRequest>,
)
    ensures
        press_state(st, log, Action::Approve, actor, false, recovered) == st,
        press_upload(st, log, Action::Approve, actor, false, recovered) is None,
        apply_effects(logs, press_effects(st, log, Action::Approve, actor, false, recovered))
            == logs,
{
    match press_target(st, log, recovered) {
        None => lemma_apply_none(logs),
        Some(r) => lemma_apply_one(logs, Effect::Reply { notice: Notice::AwaitModerator }),
    }
}

/// A press that settles a request removes it from the index, and the same
/// press again, as a racing duplicate would make it, changes nothing and
/// asks for nothing.
pub proof fn lemma_press_twice(
    st: LifecycleState,
    log: u64,
    action: Action,
    actor: u64,
    authorized: bool,
    recovered: Option<PendingRequest>,
)
    requires
        sound(st),
        press_target(st, log, recovered) is Some,
        permitted(action, actor, authorized, press_target(st, log, recovered)->0),
    ensures
        ({
            let st1 = press_state(st, log, action, actor, authorized, recovered);
            &&& st1.requests == st.requests.remove(log)
            &&& !st1.requests.contains_key(log)
            &&& press_state(st1, log, action, actor, authorized, recovered) == st1
            &&& press_effects(st1, log, action, actor, authorized, recovered) == Seq::<
                Effect,
            >::empty()
            &&& press_upload(st1, log, action, actor, authorized, recovered) is None
        }),
{
}

/// The deletion of a source message removes its pending request, if any,
/// from the index; a second deletion of it changes nothing and asks for
/// nothing.
pub proof fn lemma_source_deleted_twice(st: LifecycleState, source: u64)
    requires
        sound(st),
    ensures
        ({
            let st1 = deletion_state(st, source);
            &&& has_source(st.requests, source) ==> st1.requests == st.requests.remove(
                source_log(st.requests, source),
            )
            &&& !has_source(st1.requests, source)
            &&& deletion_state(st1, source) == st1
            &&& deletion_effects(st1, source) == Seq::<Effect>::empty()
        }),
{
    let st1 = deletion_state(st, source);
    if has_source(st.requests, source) {
        let l = source_log(st.requests, source);
        assert(!has_source(st1.requests, source)) by {
            if has_source(st1.requests, source) {
                let k = choose|k: u64| #[trigger]
                    st1.requests.contains_key(k) && st1.requests[k].source_message_id == source;
                assert(st.requests[k].source_message_id == st.requests[l].source_message_id);
            }
        }
    }
}

/// A cancel press by anyone but the submitter changes neither the index
/// nor any log message; the presser is told it is not their request.
pub proof fn lemma_foreign_cancel(
    st: LifecycleState,
    logs: Map<u64, LogStatus>,
    log: u64,
    actor: u64,
    authorized: bool,
    recovered: Option<PendingRequest>,
)
    requires
        press_target(st, log, recovered) is Some,
        actor != press_target(st, log, recovered)->0.submitter_id,
    ensures
        press_state(st, log, Action::Cancel, actor, authorized, recovered) == st,
        press_effects(st, log, Action::Cancel, actor, authorized, recovered) == seq![
            Effect::Reply { notice: Notice::NotYourRequest },
        ],
        press_upload(st, log, Action::Cancel, actor, authorized, recovered) is None,
        apply_effects(logs, press_effects(st, log, Action::Cancel, actor, authorized, recovered))
            == logs,
{
    lemma_apply_one(logs, Effect::Reply { notice: Notice::NotYourRequest });
}

} // verus!
