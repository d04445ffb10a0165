//! The pending-request index: every in-flight approval request, reachable by
//! its log message, its submitter and its source message.
//!
//! Requests are kept by log message identity; two secondary stores map a
//! submitter and a source message to that identity. All three are updated
//! together, so a removal through any one key removes the request under the
//! other keys as well.
use std::collections::HashMap;
use vstd::prelude::*;

verus! {

broadcast use vstd::std_specs::hash::group_hash_axioms;

/// One in-flight image-approval request.
#[derive(Debug, PartialEq, Eq)]
pub struct PendingRequest {
    /// The user who posted the image.
    pub submitter_id: u64,
    /// The moderator-facing message that shows the request and its controls.
    pub log_message_id: u64,
    /// The user's own message that carries the image.
    pub source_message_id: u64,
    /// Where the submitted image can be fetched.
    pub image_ref: String,
}

impl PendingRequest {
    /// A field-by-field copy.
    pub fn duplicate(&self) -> (r: PendingRequest)
        ensures
            r == *self,
    {
        PendingRequest {
            submitter_id: self.submitter_id,
            log_message_id: self.log_message_id,
            source_message_id: self.source_message_id,
            image_ref: self.image_ref.clone(),
        }
    }
}

/// Why an insertion into the index was refused.
#[derive(Clone, Copy, Debug, PartialEq, Eq, Structural)]
pub enum IndexError {
    /// The submitter already has a pending request; it must be removed first.
    DuplicateSubmitter,
    /// The log message already stands for a pending request.
    DuplicateLogMessage,
    /// The source message already stands for a pending request.
    DuplicateSourceMessage,
}

/// Pending requests by submitter: submitter identity to log message identity.
pub struct PendingRequestUidStore {
    map: HashMap<u64, u64>,
}

/// Pending requests by source message: source message identity to log
/// message identity.
pub struct PendingRequestMidStore {
    map: HashMap<u64, u64>,
}

/// Some pending request in `m` was posted by `submitter`.
pub open spec fn has_submitter(m: Map<u64, PendingRequest>, submitter: u64) -> bool {
    exists|l: u64| #[trigger] m.contains_key(l) && m[l].submitter_id == submitter
}

/// Some pending request in `m` was made by the message `source`.
pub open spec fn has_source(m: Map<u64, PendingRequest>, source: u64) -> bool {
    exists|l: u64| #[trigger] m.contains_key(l) && m[l].source_message_id == source
}

/// The shape of a sound index: each request is kept under its own log
/// message, and no two requests share a submitter or a source message.
pub open spec fn well_formed(m: Map<u64, PendingRequest>) -> bool {
    &&& forall|l: u64| #[trigger] m.contains_key(l) ==> m[l].log_message_id == l
    &&& forall|a: u64, b: u64|
        #![trigger m[a].submitter_id, m[b].submitter_id]
        m.contains_key(a) && m.contains_key(b) && m[a].submitter_id == m[b].submitter_id ==> a
            == b
    &&& forall|a: u64, b: u64|
        #![trigger m[a].source_message_id, m[b].source_message_id]
        m.contains_key(a) && m.contains_key(b) && m[a].source_message_id
            == m[b].source_message_id ==> a == b
}

/// What `insert` answers for a request with these keys, first refusal first.
pub open spec fn insert_result(
    m: Map<u64, PendingRequest>,
    submitter: u64,
    log: u64,
    source: u64,
) -> Result<(), IndexError> {
    if has_submitter(m, submitter) {
        Err(IndexError::DuplicateSubmitter)
    } else if m.contains_key(log) {
        Err(IndexError::DuplicateLogMessage)
    } else if has_source(m, source) {
        Err(IndexError::DuplicateSourceMessage)
    } else {
        Ok(())
    }
}

/// The dual-keyed store of pending requests.
pub struct PendingRequestIndex {
    requests: HashMap<u64, PendingRequest>,
    by_submitter: PendingRequestUidStore,
    by_source: PendingRequestMidStore,
}

impl View for PendingRequestIndex {
    type V = Map<u64, PendingRequest>;

    /// The pending requests, by log message identity.
    closed spec fn view(&self) -> Map<u64, PendingRequest> {
        self.requests@
    }
}

impl PendingRequestIndex {
    /// The three stores agree: each secondary entry leads to a request with
    /// that key, and each request is found under its submitter and source.
    pub closed spec fn wf(&self) -> bool {
        let m = self.requests@;
        let u = self.by_submitter.map@;
        let g = self.by_source.map@;
        &&& forall|l: u64| #[trigger] m.contains_key(l) ==> m[l].log_message_id == l
        &&& forall|l: u64| #[trigger]
            m.contains_key(l) ==> {
                &&& u.contains_key(m[l].submitter_id)
                &&& u[m[l].submitter_id] == l
                &&& g.contains_key(m[l].source_message_id)
                &&& g[m[l].source_message_id] == l
            }
        &&& forall|s: u64| #[trigger]
            u.contains_key(s) ==> m.contains_key(u[s]) && m[u[s]].submitter_id == s
        &&& forall|x: u64| #[trigger]
            g.contains_key(x) ==> m.contains_key(g[x]) && m[g[x]].source_message_id == x
    }

    /// A sound index has the shape of `well_formed`.
    pub proof fn lemma_well_formed(&self)
        requires
            self.wf(),
        ensures
            well_formed(self@),
    {
        let m = self.requests@;
        let u = self.by_submitter.map@;
        let g = self.by_source.map@;
        assert forall|a: u64, b: u64|
            m.contains_key(a) && m.contains_key(b) && m[a].submitter_id
                == m[b].submitter_id implies a == b by {
            assert(u[m[a].submitter_id] == a);
            assert(u[m[b].submitter_id] == b);
        }
        assert forall|a: u64, b: u64|
            m.contains_key(a) && m.contains_key(b) && m[a].source_message_id
                == m[b].source_message_id implies a == b by {
            assert(g[m[a].source_message_id] == a);
            assert(g[m[b].source_message_id] == b);
        }
    }

    /// An empty index.
    pub fn new() -> (r: PendingRequestIndex)
        ensures
            r.wf(),
            r@ == Map::<u64, PendingRequest>::empty(),
    {
        PendingRequestIndex {
            requests: HashMap::new(),
            by_submitter: PendingRequestUidStore { map: HashMap::new() },
            by_source: PendingRequestMidStore { map: HashMap::new() },
        }
    }

    /// The request shown by log message `log`, if it is pending.
    pub fn get_by_log_message(&self, log: u64) -> (r: Option<&PendingRequest>)
        requires
            self.wf(),
        ensures
            match r {
                Some(p) => self@.contains_key(log) && *p == self@[log],
                None => !self@.contains_key(log),
            },
    {
        self.requests.get(&log)
    }

    /// Whether the submitter has a pending request.
    pub fn contains_submitter(&self, submitter: u64) -> (r: bool)
        requires
            self.wf(),
        ensures
            r == has_submitter(self@, submitter),
    {
        let r = self.by_submitter.map.contains_key(&submitter);
        proof {
            if r {
                let l = self.by_submitter.map@[submitter];
                assert(self.requests@.contains_key(l));
            }
        }
        r
    }

    /// Whether a pending request was made by the message `source`.
    pub fn contains_source_message(&self, source: u64) -> (r: bool)
        requires
            self.wf(),
        ensures
            r == has_source(self@, source),
    {
        let r = self.by_source.map.contains_key(&source);
        proof {
            if r {
                let l = self.by_source.map@[source];
                assert(self.requests@.contains_key(l));
            }
        }
        r
    }

    /// Adds a request. Refused, with the index unchanged, when the submitter,
    /// the log message or the source message already stands for one.
    pub fn insert(
        &mut self,
        submitter_id: u64,
        log_message_id: u64,
        source_message_id: u64,
        image_ref: String,
    ) -> (r: Result<(), IndexError>)
        requires
            old(self).wf(),
        ensures
            final(self).wf(),
            r == insert_result(old(self)@, submitter_id, log_message_id, source_message_id),
            r is Ok ==> final(self)@ == old(self)@.insert(
                log_message_id,
                PendingRequest { submitter_id, log_message_id, source_message_id, image_ref },
            ),
            r is Err ==> final(self)@ == old(self)@,
    {
        if self.contains_submitter(submitter_id) {
            return Err(IndexError::DuplicateSubmitter);
        }
        if self.requests.contains_key(&log_message_id) {
            return Err(IndexError::DuplicateLogMessage);
        }
        if self.contains_source_message(source_message_id) {
            return Err(IndexError::DuplicateSourceMessage);
        }
        let request = PendingRequest { submitter_id, log_message_id, source_message_id, image_ref };
        self.requests.insert(log_message_id, request);
        self.by_submitter.map.insert(submitter_id, log_message_id);
        self.by_source.map.insert(source_message_id, log_message_id);
        proof {
            let m0 = old(self).requests@;
            let m = self.requests@;
            let u = self.by_submitter.map@;
            let g = self.by_source.map@;
            assert forall|l: u64| #[trigger] m.contains_key(l) implies {
                &&& u.contains_key(m[l].submitter_id)
                &&& u[m[l].submitter_id] == l
                &&& g.contains_key(m[l].source_message_id)
                &&& g[m[l].source_message_id] == l
            } by {
                if l != log_message_id {
                    assert(m0.contains_key(l));
                    assert(m0[l].submitter_id != submitter_id);
                    assert(m0[l].source_message_id != source_message_id);
                }
            }
        }
        Ok(())
    }

    /// Removes the request shown by log message `log`, under every key.
    pub fn remove_by_log_message(&mut self, log: u64) -> (r: Option<PendingRequest>)
        requires
            old(self).wf(),
        ensures
            final(self).wf(),
            match r {
                Some(p) => {
                    &&& old(self)@.contains_key(log)
                    &&& p == old(self)@[log]
                    &&& final(self)@ == old(self)@.remove(log)
                },
                None => !old(self)@.contains_key(log) && final(self)@ == old(self)@,
            },
    {
        let removed = self.requests.remove(&log);
        match removed {
            Some(p) => {
                self.by_submitter.map.remove(&p.submitter_id);
                self.by_source.map.remove(&p.source_message_id);
                proof {
                    let m0 = old(self).requests@;
                    let m = self.requests@;
                    let u = self.by_submitter.map@;
                    let g = self.by_source.map@;
                    assert forall|l: u64| #[trigger] m.contains_key(l) implies {
                        &&& u.contains_key(m[l].submitter_id)
                        &&& u[m[l].submitter_id] == l
                        &&& g.contains_key(m[l].source_message_id)
                        &&& g[m[l].source_message_id] == l
                    } by {
                        assert(m0.contains_key(l));
                        assert(old(self).by_submitter.map@[m0[l].submitter_id] == l);
                        assert(old(self).by_source.map@[m0[l].source_message_id] == l);
                    }
                }
                Some(p)
            },
            None => None,
        }
    }

    /// Removes the submitter's pending request, under every key.
    pub fn remove_by_submitter(&mut self, submitter: u64) -> (r: Option<PendingRequest>)
        requires
            old(self).wf(),
        ensures
            final(self).wf(),
            match r {
                Some(p) => {
                    &&& p.submitter_id == submitter
                    &&& old(self)@.contains_key(p.log_message_id)
                    &&& p == old(self)@[p.log_message_id]
                    &&& final(self)@ == old(self)@.remove(p.log_message_id)
                },
                None => !has_submitter(old(self)@, submitter) && final(self)@ == old(self)@,
            },
    {
        match self.by_submitter.map.get(&submitter) {
            Some(log) => {
                let log = *log;
                self.remove_by_log_message(log)
            },
            None => {
                proof {
                    assert forall|l: u64| #[trigger]
                        self.requests@.contains_key(l) implies self.requests@[l].submitter_id
                        != submitter by {}
                }
                None
            },
        }
    }

    /// Removes the request made by the message `source`, under every key.
    pub fn remove_by_source_message(&mut self, source: u64) -> (r: Option<PendingRequest>)
        requires
            old(self).wf(),
        ensures
            final(self).wf(),
            match r {
                Some(p) => {
                    &&& p.source_message_id == source
                    &&& old(self)@.contains_key(p.log_message_id)
                    &&& p == old(self)@[p.log_message_id]
                    &&& final(self)@ == old(self)@.remove(p.log_message_id)
                },
                None => !has_source(old(self)@, source) && final(self)@ == old(self)@,
            },
    {
        match self.by_source.map.get(&source) {
            Some(log) => {
                let log = *log;
                self.remove_by_log_message(log)
            },
            None => {
                proof {
                    assert forall|l: u64| #[trigger]
                        self.requests@.contains_key(l) implies self.requests@[l].source_message_id
                        != source by {}
                }
                None
            },
        }
    }
}

} // verus!
