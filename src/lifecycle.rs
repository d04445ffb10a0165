//! The request lifecycle: a state machine over the pending-request index.
//!
//! Each event (a submission whose log message has been posted, a button
//! press, a deleted source message, the end of an upload) is a call that
//! updates the index and returns the effects the caller must carry out on
//! the chat platform, in order. Every call is also stated as a spec function
//! of the state before it, so that properties of several calls can be proved.
use std::collections::HashSet;
use vstd::prelude::*;
use crate::approval::ApprovalError;
use crate::index::{
    has_source, has_submitter, well_formed, IndexError, PendingRequest, PendingRequestIndex,
};

verus! {

broadcast use vstd::std_specs::hash::group_hash_axioms;

/// What a log message shows.
#[derive(Clone, Copy, Debug, PartialEq, Eq, Structural)]
pub enum LogStatus {
    Pending,
    Uploading,
    Approved,
    Denied,
    Cancelled,
}

/// The title a log message carries in each state.
pub open spec fn status_title(s: LogStatus) -> Seq<char> {
    match s {
        LogStatus::Pending => "Request Pending"@,
        LogStatus::Uploading => "Uploading..."@,
        LogStatus::Approved => "Request Approved"@,
        LogStatus::Denied => "Request Denied"@,
        LogStatus::Cancelled => "Request Cancelled"@,
    }
}

impl LogStatus {
    /// The title the log message carries in this state.
    pub fn title(&self) -> (r: &'static str)
        ensures
            r@ == status_title(*self),
    {
        match self {
            LogStatus::Pending => "Request Pending",
            LogStatus::Uploading => "Uploading...",
            LogStatus::Approved => "Request Approved",
            LogStatus::Denied => "Request Denied",
            LogStatus::Cancelled => "Request Cancelled",
        }
    }

    /// Only a pending log message offers the approve, deny and cancel buttons.
    pub fn has_controls(&self) -> (r: bool)
        ensures
            r == (*self == LogStatus::Pending),
    {
        match self {
            LogStatus::Pending => true,
            _ => false,
        }
    }

    /// A pending or uploading log message keeps its link to the source
    /// message; a settled one drops it.
    pub fn keeps_source_link(&self) -> (r: bool)
        ensures
            r == (*self == LogStatus::Pending || *self == LogStatus::Uploading),
    {
        match self {
            LogStatus::Pending => true,
            LogStatus::Uploading => true,
            _ => false,
        }
    }
}

/// An ephemeral answer to the user who pressed a button.
#[derive(Clone, Copy, Debug, PartialEq, Eq, Structural)]
pub enum Notice {
    /// Approve or deny pressed by someone without the moderator role.
    AwaitModerator,
    /// Cancel pressed by someone other than the submitter.
    NotYourRequest,
    /// The approval could not be completed.
    ApprovalFailed,
}

/// The text of each notice.
pub open spec fn notice_text(n: Notice) -> Seq<char> {
    match n {
        Notice::AwaitModerator => "You must wait for a moderator to approve/deny this background"@,
        Notice::NotYourRequest => "You cannot cancel someone else's background request"@,
        Notice::ApprovalFailed => "Failed to accept request"@,
    }
}

impl Notice {
    /// The text shown to the user.
    pub fn text(&self) -> (r: &'static str)
        ensures
            r@ == notice_text(*self),
    {
        match self {
            Notice::AwaitModerator => "You must wait for a moderator to approve/deny this background",
            Notice::NotYourRequest => "You cannot cancel someone else's background request",
            Notice::ApprovalFailed => "Failed to accept request",
        }
    }
}

/// A button on a log message.
#[derive(Clone, Copy, Debug, PartialEq, Eq, Structural)]
pub enum Action {
    Approve,
    Deny,
    Cancel,
}

/// The button a component identity names.
pub open spec fn action_named(id: Seq<char>) -> Option<Action> {
    if id == "Approve"@ {
        Some(Action::Approve)
    } else if id == "Deny"@ {
        Some(Action::Deny)
    } else if id == "Cancel"@ {
        Some(Action::Cancel)
    } else {
        None
    }
}

/// The button whose component identity is `id`; `None` for any other.
pub fn parse_action(id: &str) -> (r: Option<Action>)
    ensures
        r == action_named(id@),
{
    let id = String::from_str(id);
    if id == String::from_str("Approve") {
        Some(Action::Approve)
    } else if id == String::from_str("Deny") {
        Some(Action::Deny)
    } else if id == String::from_str("Cancel") {
        Some(Action::Cancel)
    } else {
        None
    }
}

/// One step the caller carries out on the chat platform.
#[derive(Debug, PartialEq, Eq)]
pub enum Effect {
    /// Show `status` on the log message; `thumbnail` is the image it shows,
    /// if any. Only a pending log message keeps its buttons.
    EditLog { log_message_id: u64, status: LogStatus, thumbnail: Option<String> },
    /// Delete the user's source message.
    DeleteSource { source_message_id: u64 },
    /// Answer the user who pressed the button, visible to them only.
    Reply { notice: Notice },
}

/// What a button press asks of the caller: the effects, and for an
/// approval the request whose image must now be stored.
#[derive(Debug)]
pub struct Plan {
    pub effects: Vec<Effect>,
    pub upload: Option<PendingRequest>,
}

impl Plan {
    /// Whether the press was answered with a notice. A press that was not
    /// must still be acknowledged.
    pub fn answered(&self) -> (r: bool)
        ensures
            r == exists|i: int| 0 <= i < self.effects@.len() && #[trigger] self.effects@[i] is Reply,
    {
        let mut i: usize = 0;
        while i < self.effects.len()
            invariant
                i <= self.effects@.len(),
                forall|j: int| 0 <= j < i ==> !(#[trigger] self.effects@[j] is Reply),
            decreases self.effects@.len() - i,
        {
            if let Effect::Reply { .. } = &self.effects[i] {
                return true;
            }
            i = i + 1;
        }
        false
    }
}

/// The lifecycle's state: the pending requests by log message, and the log
/// messages of this process that were settled or superseded.
pub struct LifecycleState {
    pub requests: Map<u64, PendingRequest>,
    pub retired: Set<u64>,
}

/// A sound state: a well-formed index, and no settled log message among
/// the pending ones.
pub open spec fn sound(st: LifecycleState) -> bool {
    &&& well_formed(st.requests)
    &&& forall|l: u64| #[trigger] st.retired.contains(l) ==> !st.requests.contains_key(l)
}

/// The effect that shows `status` on log message `log`.
pub open spec fn edit(log: u64, status: LogStatus, thumbnail: Option<String>) -> Effect {
    Effect::EditLog { log_message_id: log, status, thumbnail }
}

/// The log message of the submitter's pending request.
pub open spec fn submitter_log(m: Map<u64, PendingRequest>, submitter: u64) -> u64 {
    choose|l: u64| #[trigger] m.contains_key(l) && m[l].submitter_id == submitter
}

/// The log message of the pending request made by the message `source`.
pub open spec fn source_log(m: Map<u64, PendingRequest>, source: u64) -> u64 {
    choose|l: u64| #[trigger] m.contains_key(l) && m[l].source_message_id == source
}

/// The request of log message `log` leaves the index, and the log message
/// is settled.
pub open spec fn retire(st: LifecycleState, log: u64) -> LifecycleState {
    LifecycleState { requests: st.requests.remove(log), retired: st.retired.insert(log) }
}

// ---- submission -------------------------------------------------------

/// Whether a new request with log message `r.log_message_id` may enter:
/// its log message must be new to this process and its source message must
/// not already stand for a pending request.
pub open spec fn submit_result(st: LifecycleState, r: PendingRequest) -> Result<(), IndexError> {
    if st.requests.contains_key(r.log_message_id) || st.retired.contains(r.log_message_id) {
        Err(IndexError::DuplicateLogMessage)
    } else if has_source(st.requests, r.source_message_id) {
        Err(IndexError::DuplicateSourceMessage)
    } else {
        Ok(())
    }
}

/// The state after a successful submission: the submitter's earlier request,
/// if any, is superseded, and `r` becomes their one pending request.
pub open spec fn submit_state(st: LifecycleState, r: PendingRequest) -> LifecycleState {
    let s = if has_submitter(st.requests, r.submitter_id) {
        retire(st, submitter_log(st.requests, r.submitter_id))
    } else {
        st
    };
    LifecycleState { requests: s.requests.insert(r.log_message_id, r), retired: s.retired }
}

/// The effects of a successful submission: the superseded log message, if
/// any, shows that its request was cancelled.
pub open spec fn submit_effects(st: LifecycleState, r: PendingRequest) -> Seq<Effect> {
    if has_submitter(st.requests, r.submitter_id) {
        seq![edit(submitter_log(st.requests, r.submitter_id), LogStatus::Cancelled, None)]
    } else {
        seq![]
    }
}

// ---- button presses ---------------------------------------------------

/// The request a press on log message `log` acts on: the pending one, none
/// if the log message was settled here, else the one recovered from the log
/// message itself (a request from before the process started).
pub open spec fn press_target(
    st: LifecycleState,
    log: u64,
    recovered: Option<PendingRequest>,
) -> Option<PendingRequest> {
    if st.requests.contains_key(log) {
        Some(st.requests[log])
    } else if st.retired.contains(log) {
        None
    } else if recovered is Some && recovered->0.log_message_id == log {
        recovered
    } else {
        None
    }
}

/// Approving and denying are for moderators; cancelling is for the submitter.
pub open spec fn permitted(action: Action, actor: u64, authorized: bool, r: PendingRequest) -> bool {
    match action {
        Action::Cancel => actor == r.submitter_id,
        _ => authorized,
    }
}

/// What a press that is not permitted is answered with.
pub open spec fn refusal(action: Action) -> Notice {
    match action {
        Action::Cancel => Notice::NotYourRequest,
        _ => Notice::AwaitModerator,
    }
}

/// The state after a press.
pub open spec fn press_state(
    st: LifecycleState,
    log: u64,
    action: Action,
    actor: u64,
    authorized: bool,
    recovered: Option<PendingRequest>,
) -> LifecycleState {
    match press_target(st, log, recovered) {
        Some(r) => if permitted(action, actor, authorized, r) {
            retire(st, log)
        } else {
            st
        },
        None => st,
    }
}

/// The effects of a press: a refusal notice, or the settled log message and
/// the deleted source message, or for an approval the "uploading" log message.
pub open spec fn press_effects(
    st: LifecycleState,
    log: u64,
    action: Action,
    actor: u64,
    authorized: bool,
    recovered: Option<PendingRequest>,
) -> Seq<Effect> {
    match press_target(st, log, recovered) {
        Some(r) => if !permitted(action, actor, authorized, r) {
            seq![Effect::Reply { notice: refusal(action) }]
        } else {
            match action {
                Action::Approve => seq![edit(log, LogStatus::Uploading, Some(r.image_ref))],
                Action::Deny => seq![
                    edit(log, LogStatus::Denied, None),
                    Effect::DeleteSource { source_message_id: r.source_message_id },
                ],
                Action::Cancel => seq![
                    edit(log, LogStatus::Cancelled, None),
                    Effect::DeleteSource { source_message_id: r.source_message_id },
                ],
            }
        },
        None => seq![],
    }
}

/// The request a permitted approve press hands out for storing.
pub open spec fn press_upload(
    st: LifecycleState,
    log: u64,
    action: Action,
    actor: u64,
    authorized: bool,
    recovered: Option<PendingRequest>,
) -> Option<PendingRequest> {
    match press_target(st, log, recovered) {
        Some(r) => if action == Action::Approve && permitted(action, actor, authorized, r) {
            Some(r)
        } else {
            None
        },
        None => None,
    }
}

// ---- end of an approval -----------------------------------------------

/// A request whose approval failed can be pending again when nothing has
/// taken its place meanwhile.
pub open spec fn restorable(st: LifecycleState, r: PendingRequest) -> bool {
    &&& !has_submitter(st.requests, r.submitter_id)
    &&& !st.requests.contains_key(r.log_message_id)
    &&& !has_source(st.requests, r.source_message_id)
}

/// The state after an approval ends.
pub open spec fn approval_state(
    st: LifecycleState,
    r: PendingRequest,
    outcome: Result<String, ApprovalError>,
) -> LifecycleState {
    if outcome is Err && restorable(st, r) {
        LifecycleState {
            requests: st.requests.insert(r.log_message_id, r),
            retired: st.retired.remove(r.log_message_id),
        }
    } else {
        st
    }
}

/// The effects of an approval's end: the approved log message and the
/// deleted source message; on failure a notice, and the log message pending
/// again or, if superseded meanwhile, cancelled.
pub open spec fn approval_effects(
    st: LifecycleState,
    r: PendingRequest,
    outcome: Result<String, ApprovalError>,
) -> Seq<Effect> {
    match outcome {
        Ok(hosted) => seq![
            edit(r.log_message_id, LogStatus::Approved, Some(hosted)),
            Effect::DeleteSource { source_message_id: r.source_message_id },
        ],
        Err(_) => if restorable(st, r) {
            seq![
                edit(r.log_message_id, LogStatus::Pending, Some(r.image_ref)),
                Effect::Reply { notice: Notice::ApprovalFailed },
            ]
        } else {
            seq![
                edit(r.log_message_id, LogStatus::Cancelled, None),
                Effect::Reply { notice: Notice::ApprovalFailed },
            ]
        },
    }
}

// ---- deleted source message -------------------------------------------

/// The state after a source message was deleted.
pub open spec fn deletion_state(st: LifecycleState, source: u64) -> LifecycleState {
    if has_source(st.requests, source) {
        retire(st, source_log(st.requests, source))
    } else {
        st
    }
}

/// The effects of a deleted source message: its log message, if pending,
/// shows that the request was cancelled.
pub open spec fn deletion_effects(st: LifecycleState, source: u64) -> Seq<Effect> {
    if has_source(st.requests, source) {
        seq![edit(source_log(st.requests, source), LogStatus::Cancelled, None)]
    } else {
        seq![]
    }
}

/// The owner of the pending-request index and the only code that changes it.
pub struct RequestLifecycle {
    index: PendingRequestIndex,
    retired: HashSet<u64>,
}

impl View for RequestLifecycle {
    type V = LifecycleState;

    closed spec fn view(&self) -> LifecycleState {
        LifecycleState { requests: self.index@, retired: self.retired@ }
    }
}

fn one_effect(e: Effect) -> (r: Vec<Effect>)
    ensures
        r@ == seq![e],
{
    let mut v = Vec::new();
    v.push(e);
    v
}

fn two_effects(a: Effect, b: Effect) -> (r: Vec<Effect>)
    ensures
        r@ == seq![a, b],
{
    let mut v = Vec::new();
    v.push(a);
    v.push(b);
    v
}

impl RequestLifecycle {
    /// The index is sound and no settled log message is pending.
    pub closed spec fn wf(&self) -> bool {
        &&& self.index.wf()
        &&& forall|l: u64| #[trigger] self.retired@.contains(l) ==> !self.index@.contains_key(l)
    }

    /// A sound lifecycle has a sound state.
    pub proof fn lemma_sound(&self)
        requires
            self.wf(),
        ensures
            sound(self@),
    {
        self.index.lemma_well_formed();
    }

    /// No requests, nothing settled.
    pub fn new() -> (r: RequestLifecycle)
        ensures
            r.wf(),
            r@.requests == Map::<u64, PendingRequest>::empty(),
            r@.retired == Set::<u64>::empty(),
    {
        RequestLifecycle { index: PendingRequestIndex::new(), retired: HashSet::new() }
    }

    /// The pending request shown by log message `log`.
    pub fn pending(&self, log: u64) -> (r: Option<&PendingRequest>)
        requires
            self.wf(),
        ensures
            match r {
                Some(p) => self@.requests.contains_key(log) && *p == self@.requests[log],
                None => !self@.requests.contains_key(log),
            },
    {
        self.index.get_by_log_message(log)
    }

    /// Whether the submitter has a pending request.
    pub fn has_pending(&self, submitter: u64) -> (r: bool)
        requires
            self.wf(),
        ensures
            r == has_submitter(self@.requests, submitter),
    {
        self.index.contains_submitter(submitter)
    }

    /// Records the request whose log message was just posted. The
    /// submitter's earlier request, if any, is superseded first.
    pub fn submit(&mut self, r: PendingRequest) -> (res: Result<Vec<Effect>, IndexError>)
        requires
            old(self).wf(),
        ensures
            final(self).wf(),
            match res {
                Ok(effects) => {
                    &&& submit_result(old(self)@, r) is Ok
                    &&& final(self)@ == submit_state(old(self)@, r)
                    &&& effects@ == submit_effects(old(self)@, r)
                },
                Err(e) => {
                    &&& submit_result(old(self)@, r) == Err::<(), IndexError>(e)
                    &&& final(self)@ == old(self)@
                },
            },
    {
        proof {
            self.index.lemma_well_formed();
        }
        if self.index.get_by_log_message(r.log_message_id).is_some() || self.retired.contains(
            &r.log_message_id,
        ) {
            return Err(IndexError::DuplicateLogMessage);
        }
        if self.index.contains_source_message(r.source_message_id) {
            return Err(IndexError::DuplicateSourceMessage);
        }
        let ghost st = self@;
        let prior = self.index.remove_by_submitter(r.submitter_id);
        let effects = match prior {
            Some(p) => {
                proof {
                    let l = submitter_log(st.requests, r.submitter_id);
                    assert(st.requests.contains_key(p.log_message_id));
                    assert(st.requests.contains_key(l) && st.requests[l].submitter_id
                        == r.submitter_id);
                    assert(l == p.log_message_id);
                }
                self.retired.insert(p.log_message_id);
                one_effect(Effect::EditLog {
                    log_message_id: p.log_message_id,
                    status: LogStatus::Cancelled,
                    thumbnail: None,
                })
            },
            None => Vec::new(),
        };
        let ghost mid = self.index@;
        let inserted = self.index.insert(
            r.submitter_id,
            r.log_message_id,
            r.source_message_id,
            r.image_ref,
        );
        proof {
            assert(!has_submitter(mid, r.submitter_id)) by {
                if has_submitter(mid, r.submitter_id) {
                    let l = choose|l: u64| #[trigger]
                        mid.contains_key(l) && mid[l].submitter_id == r.submitter_id;
                    assert(st.requests.contains_key(l));
                }
            }
            assert(!has_source(mid, r.source_message_id)) by {
                if has_source(mid, r.source_message_id) {
                    let l = choose|l: u64| #[trigger]
                        mid.contains_key(l) && mid[l].source_message_id == r.source_message_id;
                    assert(st.requests.contains_key(l));
                }
            }
            assert(inserted is Ok);
            assert(self@ =~= submit_state(st, r));
        }
        Ok(effects)
    }

    /// Handles a press of `action` by `actor` on log message `log`.
    /// `recovered` is the request as the log message itself records it, for
    /// log messages posted before this process started.
    pub fn press(
        &mut self,
        log: u64,
        action: Action,
        actor: u64,
        authorized: bool,
        recovered: Option<PendingRequest>,
    ) -> (plan: Plan)
        requires
            old(self).wf(),
        ensures
            final(self).wf(),
            final(self)@ == press_state(old(self)@, log, action, actor, authorized, recovered),
            plan.effects@ == press_effects(old(self)@, log, action, actor, authorized, recovered),
            plan.upload == press_upload(old(self)@, log, action, actor, authorized, recovered),
    {
        let ghost st = self@;
        let target = match self.index.get_by_log_message(log) {
            Some(p) => Some(p.duplicate()),
            None => if self.retired.contains(&log) {
                None
            } else {
                match recovered {
                    Some(r) => if r.log_message_id == log {
                        Some(r)
                    } else {
                        None
                    },
                    None => None,
                }
            },
        };
        assert(target == press_target(st, log, recovered));
        match target {
            None => Plan { effects: Vec::new(), upload: None },
            Some(r) => {
                let allowed = match action {
                    Action::Cancel => actor == r.submitter_id,
                    _ => authorized,
                };
                if !allowed {
                    let notice = match action {
                        Action::Cancel => Notice::NotYourRequest,
                        _ => Notice::AwaitModerator,
                    };
                    return Plan { effects: one_effect(Effect::Reply { notice }), upload: None };
                }
                self.index.remove_by_log_message(log);
                self.retired.insert(log);
                assert(self@.requests =~= st.requests.remove(log));
                assert(self@.retired =~= st.retired.insert(log));
                match action {
                    Action::Approve => {
                        let thumbnail = r.image_ref.clone();
                        let effects = one_effect(
                            Effect::EditLog {
                                log_message_id: log,
                                status: LogStatus::Uploading,
                                thumbnail: Some(thumbnail),
                            },
                        );
                        Plan { effects, upload: Some(r) }
                    },
                    Action::Deny => {
                        let effects = two_effects(
                            Effect::EditLog {
                                log_message_id: log,
                                status: LogStatus::Denied,
                                thumbnail: None,
                            },
                            Effect::DeleteSource { source_message_id: r.source_message_id },
                        );
                        Plan { effects, upload: None }
                    },
                    Action::Cancel => {
                        let effects = two_effects(
                            Effect::EditLog {
                                log_message_id: log,
                                status: LogStatus::Cancelled,
                                thumbnail: None,
                            },
                            Effect::DeleteSource { source_message_id: r.source_message_id },
                        );
                        Plan { effects, upload: None }
                    },
                }
            },
        }
    }

    /// Ends the approval of `r`, begun by an approve press, with the address
    /// of the stored image or the reason it failed. On failure the request is
    /// pending again unless another request has taken its place.
    pub fn finish_approval(
        &mut self,
        r: PendingRequest,
        outcome: Result<String, ApprovalError>,
    ) -> (effects: Vec<Effect>)
        requires
            old(self).wf(),
        ensures
            final(self).wf(),
            final(self)@ == approval_state(old(self)@, r, outcome),
            effects@ == approval_effects(old(self)@, r, outcome),
    {
        let ghost st = self@;
        match outcome {
            Ok(hosted) => two_effects(
                Effect::EditLog {
                    log_message_id: r.log_message_id,
                    status: LogStatus::Approved,
                    thumbnail: Some(hosted),
                },
                Effect::DeleteSource { source_message_id: r.source_message_id },
            ),
            Err(_) => {
                let thumbnail = r.image_ref.clone();
                let log = r.log_message_id;
                let inserted = self.index.insert(
                    r.submitter_id,
                    r.log_message_id,
                    r.source_message_id,
                    r.image_ref,
                );
                match inserted {
                    Ok(()) => {
                        self.retired.remove(&log);
                        assert(self@ =~= approval_state(st, r, outcome));
                        two_effects(
                            Effect::EditLog {
                                log_message_id: log,
                                status: LogStatus::Pending,
                                thumbnail: Some(thumbnail),
                            },
                            Effect::Reply { notice: Notice::ApprovalFailed },
                        )
                    },
                    Err(_) => two_effects(
                        Effect::EditLog {
                            log_message_id: log,
                            status: LogStatus::Cancelled,
                            thumbnail: None,
                        },
                        Effect::Reply { notice: Notice::ApprovalFailed },
                    ),
                }
            },
        }
    }

    /// Handles the deletion of a source message by someone else: its pending
    /// request, if any, is cancelled. The message is gone, so nothing deletes it.
    pub fn source_deleted(&mut self, source: u64) -> (effects: Vec<Effect>)
        requires
            old(self).wf(),
        ensures
            final(self).wf(),
            final(self)@ == deletion_state(old(self)@, source),
            effects@ == deletion_effects(old(self)@, source),
    {
        proof {
            self.index.lemma_well_formed();
        }
        let ghost st = self@;
        match self.index.remove_by_source_message(source) {
            Some(p) => {
                proof {
                    let l = source_log(st.requests, source);
                    assert(st.requests.contains_key(p.log_message_id));
                    assert(st.requests.contains_key(l) && st.requests[l].source_message_id
                        == source);
                    assert(l == p.log_message_id);
                }
                self.retired.insert(p.log_message_id);
                assert(self@ =~= retire(st, p.log_message_id));
                one_effect(
                    Effect::EditLog {
                        log_message_id: p.log_message_id,
                        status: LogStatus::Cancelled,
                        thumbnail: None,
                    },
                )
            },
            None => Vec::new(),
        }
    }
}

} // verus!
