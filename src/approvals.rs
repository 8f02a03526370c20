//! Registry of commands waiting for a human decision.
//!
//! Each pending request has a one-shot decision slot. A decision fills the
//! slot once; resolving the request removes it from the registry exactly
//! once and yields the decision, or `Deny` when the slot was never filled
//! (the caller resolves on timeout, so an unanswered request fails closed).

use crate::text::{clone_opt, clone_strings, str_eq};
use vstd::prelude::*;

verus! {

/// A human decision on a previewed command.
#[derive(Clone, Copy, Debug, PartialEq, Eq, Structural)]
pub enum Decision {
    Deny,
    AllowOnce,
    AllowAlways,
}

/// The wire text of a decision.
pub open spec fn decision_text(d: Decision) -> Seq<char> {
    match d {
        Decision::Deny => "deny"@,
        Decision::AllowOnce => "allow-once"@,
        Decision::AllowAlways => "allow-always"@,
    }
}

/// The decision a wire text names, if any.
pub open spec fn parse_decision_spec(s: Seq<char>) -> Option<Decision> {
    if s == "deny"@ {
        Some(Decision::Deny)
    } else if s == "allow-once"@ {
        Some(Decision::AllowOnce)
    } else if s == "allow-always"@ {
        Some(Decision::AllowAlways)
    } else {
        None
    }
}

impl Decision {
    /// The wire text of this decision.
    pub fn as_str(&self) -> (r: &'static str)
        ensures
            r@ == decision_text(*self),
    {
        match self {
            Decision::Deny => "deny",
            Decision::AllowOnce => "allow-once",
            Decision::AllowAlways => "allow-always",
        }
    }

    /// Reads a decision from its wire text.
    pub fn parse(s: &str) -> (r: Option<Decision>)
        ensures
            r == parse_decision_spec(s@),
    {
        if str_eq(s, "deny") {
            Some(Decision::Deny)
        } else if str_eq(s, "allow-once") {
            Some(Decision::AllowOnce)
        } else if str_eq(s, "allow-always") {
            Some(Decision::AllowAlways)
        } else {
            None
        }
    }

    /// Whether this decision lets the command run.
    pub fn allows(&self) -> (r: bool)
        ensures
            r == (*self != Decision::Deny),
    {
        !matches!(self, Decision::Deny)
    }
}

/// What a human is shown before deciding: the command and its context,
/// with environment variable names only, never their values.
#[derive(Clone, Debug)]
pub struct ApprovalPreview {
    pub id: String,
    pub raw_command: Option<String>,
    pub argv: Vec<String>,
    pub cwd: Option<String>,
    pub env_keys: Vec<String>,
    pub agent_id: Option<String>,
    pub session_key: Option<String>,
    pub expires_at_ms: u64,
}

/// `a` shows the same request as `b`, field by field.
pub open spec fn same_preview(a: ApprovalPreview, b: ApprovalPreview) -> bool {
    &&& a.id@ == b.id@
    &&& a.raw_command == b.raw_command
    &&& a.argv@ == b.argv@
    &&& a.cwd == b.cwd
    &&& a.env_keys@ == b.env_keys@
    &&& a.agent_id == b.agent_id
    &&& a.session_key == b.session_key
    &&& a.expires_at_ms == b.expires_at_ms
}

/// A registered request and its decision slot.
pub struct PendingApproval {
    pub preview: ApprovalPreview,
    pub decision: Option<Decision>,
}

/// Why a decision was not accepted.
#[derive(Clone, Debug, PartialEq, Eq, Structural)]
pub enum DecideError {
    /// The text names none of the three decisions.
    InvalidDecision,
    /// No request with that id waits for a decision.
    NoPending,
}

impl DecideError {
    /// The message reported to whoever delivered `decision` for `id`.
    pub fn message(&self, id: &str, decision: &str) -> (r: String)
        ensures
            *self == DecideError::InvalidDecision ==> r@ == "invalid decision: "@ + decision@,
            *self == DecideError::NoPending ==> r@ == "no pending approval with id "@ + id@,
    {
        match self {
            DecideError::InvalidDecision => crate::text::concat2("invalid decision: ", decision),
            DecideError::NoPending => crate::text::concat2("no pending approval with id ", id),
        }
    }
}

/// Why a request could not be registered.
#[derive(Clone, Copy, Debug, PartialEq, Eq, Structural)]
pub enum RegisterError {
    /// A request with the same id is already registered.
    DuplicateId,
}

/// The registered requests, in registration order.
struct Registry {
    entries: Vec<PendingApproval>,
}

impl View for Registry {
    /// Each registered id with the content of its decision slot.
    type V = Map<Seq<char>, Option<Decision>>;

    closed spec fn view(&self) -> Map<Seq<char>, Option<Decision>> {
        Map::new(
            |k: Seq<char>| exists|i: int| 0 <= i < self.entries@.len() && #[trigger] self.entries@[i].preview.id@ == k,
            |k: Seq<char>|
                self.entries@[choose|i: int| 0 <= i < self.entries@.len() && #[trigger] self.entries@[i].preview.id@ == k].decision,
        )
    }
}

impl Registry {
    /// Ids are unique.
    closed spec fn wf(&self) -> bool {
        forall|i: int, j: int|
            0 <= i < self.entries@.len() && 0 <= j < self.entries@.len() && i != j
                ==> #[trigger] self.entries@[i].preview.id@ != #[trigger] self.entries@[j].preview.id@
    }

    closed spec fn spec_len(&self) -> nat {
        self.entries@.len()
    }

    closed spec fn registered(&self) -> Seq<ApprovalPreview> {
        self.entries@.map_values(|e: PendingApproval| e.preview)
    }

    proof fn lemma_entry(&self, i: int)
        requires
            self.wf(),
            0 <= i < self.entries@.len(),
        ensures
            self@.contains_key(self.entries@[i].preview.id@),
            self@[self.entries@[i].preview.id@] == self.entries@[i].decision,
    {
        let k = self.entries@[i].preview.id@;
        assert(self.entries@[i].preview.id@ == k);
        let j = choose|j: int| 0 <= j < self.entries@.len() && #[trigger] self.entries@[j].preview.id@ == k;
        assert(j == i);
    }

    fn new() -> (r: Registry)
        ensures
            r.wf(),
            r.spec_len() == 0,
            r.registered() == Seq::<ApprovalPreview>::empty(),
            r@ == Map::<Seq<char>, Option<Decision>>::empty(),
    {
        let r = Registry { entries: Vec::new() };
        assert(r@ =~= Map::<Seq<char>, Option<Decision>>::empty());
        assert(r.registered() =~= Seq::<ApprovalPreview>::empty());
        r
    }

    fn find(&self, id: &str) -> (r: Option<usize>)
        ensures
            match r {
                Some(i) => i < self.entries@.len() && self.entries@[i as int].preview.id@ == id@,
                None => forall|i: int| 0 <= i < self.entries@.len() ==> #[trigger] self.entries@[i].preview.id@ != id@,
            },
    {
        let mut i: usize = 0;
        while i < self.entries.len()
            invariant
                i <= self.entries@.len(),
                forall|j: int| 0 <= j < i ==> #[trigger] self.entries@[j].preview.id@ != id@,
            decreases self.entries@.len() - i,
        {
            if str_eq(self.entries[i].preview.id.as_str(), id) {
                return Some(i);
            }
            i = i + 1;
        }
        None
    }

    fn register(&mut self, preview: ApprovalPreview) -> (r: Result<(), RegisterError>)
        requires
            old(self).wf(),
        ensures
            final(self).wf(),
            r is Ok <==> !old(self)@.contains_key(preview.id@),
            r is Ok ==> final(self)@ == old(self)@.insert(preview.id@, None),
            r is Err ==> final(self)@ == old(self)@,
            r is Ok ==> final(self).spec_len() == old(self).spec_len() + 1,
            r is Err ==> final(self).spec_len() == old(self).spec_len(),
            r is Ok ==> final(self).registered() == old(self).registered().push(preview),
            r is Err ==> final(self).registered() == old(self).registered(),
    {
        match self.find(preview.id.as_str()) {
            Some(i) => {
                proof {
                    self.lemma_entry(i as int);
                }
                Err(RegisterError::DuplicateId)
            },
            None => {
                let ghost old_self = *self;
                let ghost id = preview.id@;
                proof {
                    assert(!old_self@.contains_key(id));
                }
                self.entries.push(PendingApproval { preview, decision: None });
                proof {
                    let n = old_self.entries@.len();
                    assert(self.entries@[n as int].preview.id@ == id);
                    assert forall|i: int, j: int|
                        0 <= i < self.entries@.len() && 0 <= j < self.entries@.len() && i != j
                            implies #[trigger] self.entries@[i].preview.id@ != #[trigger] self.entries@[j].preview.id@ by {
                        if i < n && j < n {
                            assert(old_self.entries@[i] == self.entries@[i]);
                            assert(old_self.entries@[j] == self.entries@[j]);
                        } else if i < n {
                            assert(old_self.entries@[i] == self.entries@[i]);
                        } else {
                            assert(old_self.entries@[j] == self.entries@[j]);
                        }
                    }
                    assert forall|k: Seq<char>| #[trigger] self@.contains_key(k) == old_self@.insert(id, None).contains_key(k) by {
                        if self@.contains_key(k) {
                            let i = choose|i: int| 0 <= i < self.entries@.len() && #[trigger] self.entries@[i].preview.id@ == k;
                            if i < n {
                                assert(old_self.entries@[i] == self.entries@[i]);
                            }
                        }
                        if old_self@.contains_key(k) {
                            let i = choose|i: int| 0 <= i < old_self.entries@.len() && #[trigger] old_self.entries@[i].preview.id@ == k;
                            assert(old_self.entries@[i] == self.entries@[i]);
                        }
                        if k == id {
                            assert(self.entries@[n as int].preview.id@ == k);
                        }
                    }
                    assert forall|k: Seq<char>| #[trigger] self@.contains_key(k) implies self@[k] == old_self@.insert(id, None)[k] by {
                        let i = choose|i: int| 0 <= i < self.entries@.len() && #[trigger] self.entries@[i].preview.id@ == k;
                        self.lemma_entry(i);
                        if i < n {
                            assert(old_self.entries@[i] == self.entries@[i]);
                            old_self.lemma_entry(i);
                        }
                    }
                    assert(self@ =~= old_self@.insert(id, None));
                    assert(self.registered() =~= old_self.registered().push(self.entries@[n as int].preview));
                }
                Ok(())
            },
        }
    }

    fn decide(&mut self, id: &str, decision: &str) -> (r: Result<Decision, DecideError>)
        requires
            old(self).wf(),
        ensures
            final(self).wf(),
            parse_decision_spec(decision@) is None ==> r == Err::<Decision, DecideError>(DecideError::InvalidDecision),
            r is Ok <==> decision_accepted(old(self)@, id@, decision@),
            parse_decision_spec(decision@) is Some && r is Err ==> r == Err::<Decision, DecideError>(DecideError::NoPending),
            r is Ok ==> r == Ok::<Decision, DecideError>(parse_decision_spec(decision@)->0),
            r is Ok ==> final(self)@ == old(self)@.insert(id@, parse_decision_spec(decision@)),
            r is Err ==> final(self)@ == old(self)@,
            final(self).spec_len() == old(self).spec_len(),
            final(self).registered() == old(self).registered(),
    {
        let d = match Decision::parse(decision) {
            Some(d) => d,
            None => return Err(DecideError::InvalidDecision),
        };
        let i = match self.find(id) {
            Some(i) => i,
            None => {
                proof {
                    if self@.contains_key(id@) {
                        let j = choose|j: int| 0 <= j < self.entries@.len() && #[trigger] self.entries@[j].preview.id@ == id@;
                    }
                }
                return Err(DecideError::NoPending);
            },
        };
        proof {
            self.lemma_entry(i as int);
        }
        if self.entries[i].decision.is_some() {
            return Err(DecideError::NoPending);
        }
        let ghost old_self = *self;
        let mut e = self.entries.remove(i);
        e.decision = Some(d);
        self.entries.insert(i, e);
        proof {
            let n = old_self.entries@.len();
            assert(self.entries@ == old_self.entries@.update(i as int, e));
            assert forall|j: int| 0 <= j < n && j != i implies #[trigger] self.entries@[j] == old_self.entries@[j] by {}
            assert forall|a: int, b: int|
                0 <= a < self.entries@.len() && 0 <= b < self.entries@.len() && a != b
                    implies #[trigger] self.entries@[a].preview.id@ != #[trigger] self.entries@[b].preview.id@ by {
                assert(old_self.entries@[a].preview.id@ == self.entries@[a].preview.id@);
                assert(old_self.entries@[b].preview.id@ == self.entries@[b].preview.id@);
            }
            assert forall|k: Seq<char>| #[trigger] self@.contains_key(k) == old_self@.insert(id@, Some(d)).contains_key(k) by {
                if self@.contains_key(k) {
                    let j = choose|j: int| 0 <= j < self.entries@.len() && #[trigger] self.entries@[j].preview.id@ == k;
                    assert(old_self.entries@[j].preview.id@ == k);
                }
                if old_self@.contains_key(k) {
                    let j = choose|j: int| 0 <= j < old_self.entries@.len() && #[trigger] old_self.entries@[j].preview.id@ == k;
                    assert(self.entries@[j].preview.id@ == k);
                }
                if k == id@ {
                    assert(self.entries@[i as int].preview.id@ == k);
                }
            }
            assert forall|k: Seq<char>| #[trigger] self@.contains_key(k) implies self@[k] == old_self@.insert(id@, Some(d))[k] by {
                let j = choose|j: int| 0 <= j < self.entries@.len() && #[trigger] self.entries@[j].preview.id@ == k;
                self.lemma_entry(j);
                old_self.lemma_entry(j);
            }
            assert(self@ =~= old_self@.insert(id@, Some(d)));
            assert(self.registered() =~= old_self.registered());
        }
        Ok(d)
    }

    fn resolve(&mut self, id: &str) -> (r: Option<Decision>)
        requires
            old(self).wf(),
        ensures
            final(self).wf(),
            old(self)@.contains_key(id@) ==> r == Some(resolved_decision(old(self)@[id@])),
            old(self)@.contains_key(id@) ==> final(self).spec_len() + 1 == old(self).spec_len(),
            !old(self)@.contains_key(id@) ==> r is None && final(self).spec_len() == old(self).spec_len(),
            final(self)@ == old(self)@.remove(id@),
            !old(self)@.contains_key(id@) ==> final(self).registered() == old(self).registered(),
            old(self)@.contains_key(id@) ==> exists|i: int|
                0 <= i < old(self).registered().len() && (#[trigger] old(self).registered()[i]).id@ == id@
                    && final(self).registered() == old(self).registered().remove(i),
    {
        let i = match self.find(id) {
            Some(i) => i,
            None => {
                proof {
                    if self@.contains_key(id@) {
                        let j = choose|j: int| 0 <= j < self.entries@.len() && #[trigger] self.entries@[j].preview.id@ == id@;
                    }
                    assert(self@ =~= self@.remove(id@));
                }
                return None;
            },
        };
        proof {
            self.lemma_entry(i as int);
        }
        let ghost old_self = *self;
        let e = self.entries.remove(i);
        proof {
            let n = old_self.entries@.len();
            assert(self.entries@ == old_self.entries@.remove(i as int));
            assert forall|a: int, b: int|
                0 <= a < self.entries@.len() && 0 <= b < self.entries@.len() && a != b
                    implies #[trigger] self.entries@[a].preview.id@ != #[trigger] self.entries@[b].preview.id@ by {
                let oa = if a < i { a } else { a + 1 };
                let ob = if b < i { b } else { b + 1 };
                assert(old_self.entries@[oa] == self.entries@[a]);
                assert(old_self.entries@[ob] == self.entries@[b]);
            }
            assert forall|k: Seq<char>| #[trigger] self@.contains_key(k) == old_self@.remove(id@).contains_key(k) by {
                if self@.contains_key(k) {
                    let j = choose|j: int| 0 <= j < self.entries@.len() && #[trigger] self.entries@[j].preview.id@ == k;
                    let oj = if j < i { j } else { j + 1 };
                    assert(old_self.entries@[oj] == self.entries@[j]);
                    assert(old_self.entries@[oj].preview.id@ == k);
                }
                if old_self@.contains_key(k) && k != id@ {
                    let j = choose|j: int| 0 <= j < old_self.entries@.len() && #[trigger] old_self.entries@[j].preview.id@ == k;
                    assert(j != i);
                    let nj = if j < i { j } else { j - 1 };
                    assert(self.entries@[nj] == old_self.entries@[j]);
                    assert(self.entries@[nj].preview.id@ == k);
                }
            }
            assert forall|k: Seq<char>| #[trigger] self@.contains_key(k) implies self@[k] == old_self@.remove(id@)[k] by {
                let j = choose|j: int| 0 <= j < self.entries@.len() && #[trigger] self.entries@[j].preview.id@ == k;
                let oj = if j < i { j } else { j + 1 };
                assert(old_self.entries@[oj] == self.entries@[j]);
                self.lemma_entry(j);
                old_self.lemma_entry(oj);
            }
            assert(self@ =~= old_self@.remove(id@));
            assert(self.registered() =~= old_self.registered().remove(i as int));
            assert(old_self.registered()[i as int].id@ == id@);
        }
        match e.decision {
            Some(d) => Some(d),
            None => Some(Decision::Deny),
        }
    }

    fn previews(&self) -> (r: Vec<ApprovalPreview>)
        requires
            self.wf(),
        ensures
            r@.len() == self.spec_len(),
            r@.len() == self.registered().len(),
            forall|i: int| 0 <= i < r@.len() ==> same_preview(#[trigger] r@[i], self.registered()[i]),
            forall|i: int| 0 <= i < r@.len() ==> self@.contains_key(#[trigger] r@[i].id@),
    {
        let mut out: Vec<ApprovalPreview> = Vec::new();
        let mut i: usize = 0;
        while i < self.entries.len()
            invariant
                i <= self.entries@.len(),
                out@.len() == i,
                forall|j: int| 0 <= j < i ==> same_preview(#[trigger] out@[j], self.entries@[j].preview),
            decreases self.entries@.len() - i,
        {
            let q = &self.entries[i].preview;
            let p = ApprovalPreview {
                id: q.id.clone(),
                raw_command: clone_opt(&q.raw_command),
                argv: clone_strings(&q.argv),
                cwd: clone_opt(&q.cwd),
                env_keys: clone_strings(&q.env_keys),
                agent_id: clone_opt(&q.agent_id),
                session_key: clone_opt(&q.session_key),
                expires_at_ms: q.expires_at_ms,
            };
            out.push(p);
            i = i + 1;
        }
        proof {
            assert forall|i: int| 0 <= i < out@.len() implies self@.contains_key(#[trigger] out@[i].id@) by {
                assert(self.entries@[i].preview.id@ == out@[i].id@);
                self.lemma_entry(i);
            }
        }
        out
    }
}

/// The registry of pending approval requests, keyed by id.
pub struct ApprovalBroker {
    registry: Registry,
}

impl View for ApprovalBroker {
    /// Each registered id with the content of its decision slot.
    type V = Map<Seq<char>, Option<Decision>>;

    closed spec fn view(&self) -> Map<Seq<char>, Option<Decision>> {
        self.registry@
    }
}

impl ApprovalBroker {
    #[verifier::type_invariant]
    closed spec fn inv(&self) -> bool {
        self.registry.wf()
    }

    /// The number of registered requests.
    pub closed spec fn spec_len(&self) -> nat {
        self.registry.spec_len()
    }

    /// The previews of the registered requests, in registration order.
    pub closed spec fn registered(&self) -> Seq<ApprovalPreview> {
        self.registry.registered()
    }

    /// An empty registry.
    pub fn new() -> (r: ApprovalBroker)
        ensures
            r@ == Map::<Seq<char>, Option<Decision>>::empty(),
            r.spec_len() == 0,
            r.registered() == Seq::<ApprovalPreview>::empty(),
    {
        ApprovalBroker { registry: Registry::new() }
    }

    /// Registers a request with an empty decision slot. An id that is
    /// already registered is refused and the registry is left as it was.
    pub fn register(&mut self, preview: ApprovalPreview) -> (r: Result<(), RegisterError>)
        ensures
            r is Ok <==> !old(self)@.contains_key(preview.id@),
            r is Ok ==> final(self)@ == old(self)@.insert(preview.id@, None),
            r is Err ==> final(self)@ == old(self)@,
            r is Ok ==> final(self).spec_len() == old(self).spec_len() + 1,
            r is Err ==> final(self).spec_len() == old(self).spec_len(),
            r is Ok ==> final(self).registered() == old(self).registered().push(preview),
            r is Err ==> final(self).registered() == old(self).registered(),
    {
        proof {
            use_type_invariant(&*self);
        }
        let mut registry = Registry::new();
        std::mem::swap(&mut registry, &mut self.registry);
        let r = registry.register(preview);
        self.registry = registry;
        r
    }

    /// Delivers a decision for the request `id`. The text must name one of
    /// the three decisions; the request must be registered with its slot
    /// still empty. A second decision for the same id is refused.
    pub fn decide(&mut self, id: &str, decision: &str) -> (r: Result<Decision, DecideError>)
        ensures
            parse_decision_spec(decision@) is None ==> r == Err::<Decision, DecideError>(DecideError::InvalidDecision),
            r is Ok <==> decision_accepted(old(self)@, id@, decision@),
            parse_decision_spec(decision@) is Some && r is Err ==> r == Err::<Decision, DecideError>(DecideError::NoPending),
            r is Ok ==> r == Ok::<Decision, DecideError>(parse_decision_spec(decision@)->0),
            r is Ok ==> final(self)@ == old(self)@.insert(id@, parse_decision_spec(decision@)),
            r is Err ==> final(self)@ == old(self)@,
            final(self).spec_len() == old(self).spec_len(),
            final(self).registered() == old(self).registered(),
    {
        proof {
            use_type_invariant(&*self);
        }
        let mut registry = Registry::new();
        std::mem::swap(&mut registry, &mut self.registry);
        let r = registry.decide(id, decision);
        self.registry = registry;
        r
    }

    /// Removes the request `id` and yields its decision, `Deny` when none
    /// was delivered. `None` when no such request is registered, so a
    /// request is resolved at most once.
    pub fn resolve(&mut self, id: &str) -> (r: Option<Decision>)
        ensures
            old(self)@.contains_key(id@) ==> r == Some(resolved_decision(old(self)@[id@])),
            old(self)@.contains_key(id@) ==> final(self).spec_len() + 1 == old(self).spec_len(),
            !old(self)@.contains_key(id@) ==> r is None && final(self).spec_len() == old(self).spec_len(),
            final(self)@ == old(self)@.remove(id@),
            !old(self)@.contains_key(id@) ==> final(self).registered() == old(self).registered(),
            old(self)@.contains_key(id@) ==> exists|i: int|
                0 <= i < old(self).registered().len() && (#[trigger] old(self).registered()[i]).id@ == id@
                    && final(self).registered() == old(self).registered().remove(i),
    {
        proof {
            use_type_invariant(&*self);
        }
        let mut registry = Registry::new();
        std::mem::swap(&mut registry, &mut self.registry);
        let ghost before = registry;
        let r = registry.resolve(id);
        self.registry = registry;
        proof {
            assert(old(self).registered() == before.registered());
            if before@.contains_key(id@) {
                let i = choose|i: int|
                    0 <= i < before.registered().len() && (#[trigger] before.registered()[i]).id@ == id@
                        && registry.registered() == before.registered().remove(i);
                assert(old(self).registered()[i].id@ == id@);
                assert(self.registered() == old(self).registered().remove(i));
            }
        }
        r
    }

    /// The previews of all registered requests, in registration order.
    pub fn previews(&self) -> (r: Vec<ApprovalPreview>)
        ensures
            r@.len() == self.spec_len(),
            r@.len() == self.registered().len(),
            forall|i: int| 0 <= i < r@.len() ==> same_preview(#[trigger] r@[i], self.registered()[i]),
            forall|i: int| 0 <= i < r@.len() ==> self@.contains_key(#[trigger] r@[i].id@),
    {
        proof {
            use_type_invariant(&*self);
        }
        self.registry.previews()
    }
}

/// Whether a registry in state `v` accepts the decision text `t` for `id`:
/// the text names a decision and the request waits with an empty slot.
pub open spec fn decision_accepted(v: Map<Seq<char>, Option<Decision>>, id: Seq<char>, t: Seq<char>) -> bool {
    &&& parse_decision_spec(t) is Some
    &&& v.contains_key(id)
    &&& v[id] is None
}

/// Two decisions delivered to the same request: once the first is
/// accepted, any second one is refused.
pub proof fn lemma_second_decision_refused(
    v: Map<Seq<char>, Option<Decision>>,
    id: Seq<char>,
    first: Seq<char>,
    second: Seq<char>,
)
    requires
        decision_accepted(v, id, first),
    ensures
        !decision_accepted(v.insert(id, parse_decision_spec(first)), id, second),
{
}

/// A request that received no decision resolves to `Deny`, and resolving it
/// removes it, so a later resolution finds nothing: it is removed exactly
/// once.
pub proof fn lemma_unanswered_request_denied_once(v: Map<Seq<char>, Option<Decision>>, id: Seq<char>)
    requires
        v.contains_key(id),
        v[id] is None,
    ensures
        resolved_decision(v[id]) == Decision::Deny,
        !v.remove(id).contains_key(id),
        v.remove(id).remove(id) == v.remove(id),
{
    assert(v.remove(id).remove(id) =~= v.remove(id));
}

/// The decision a request resolves to from the content of its slot: an
/// empty slot means no decision came in time, which denies.
pub open spec fn resolved_decision(slot: Option<Decision>) -> Decision {
    match slot {
        Some(d) => d,
        None => Decision::Deny,
    }
}

} // verus!
