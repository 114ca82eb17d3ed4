//! The correlation registry: maps interaction tokens to one-shot handlers,
//! hands each handler out at most once, and never issues a token twice.

use crate::token::{parsed_token, SlackInteractionId, TokenError};
use std::collections::HashMap;
use vstd::prelude::*;

verus! {

broadcast use vstd::std_specs::hash::group_hash_axioms;

/// Why a registration or a resolution was refused.
#[derive(Clone, Copy, Debug, PartialEq, Eq, Structural)]
pub enum RegistryError {
    /// The candidate token is not newer than every token issued before.
    StaleToken,
    /// No live subscription for the token: unknown, or already consumed.
    UnknownToken,
}

/// One action of a callback delivery: the button's action identifier and
/// the value it carried.
#[derive(Debug)]
pub struct InteractionAction {
    pub action_id: String,
    pub value: Option<String>,
}

/// What became of one action of a callback delivery.
#[derive(Debug)]
pub enum Dispatch<H> {
    /// The subscription was consumed: its handler, and the action's value.
    Deliver(H, Option<String>),
    /// The action identifier is no token.
    Malformed,
    /// The token has no live subscription.
    Unknown,
}

/// The abstract state of the registry: live subscriptions, and the newest
/// token ever issued.
pub struct RegistryModel<H> {
    pub live: Map<u128, H>,
    pub newest: Option<u128>,
}

/// One operation on the registry.
pub enum RegistryOp<H> {
    Register(u128, H),
    Resolve(u128),
}

/// Whether `t` may be issued after `newest`.
pub open spec fn fresh(newest: Option<u128>, t: u128) -> bool {
    match newest {
        None => true,
        Some(n) => n < t,
    }
}

/// Every live token was issued, so none is newer than the newest.
pub open spec fn model_wf<H>(m: RegistryModel<H>) -> bool {
    forall|k: u128| #[trigger]
        m.live.contains_key(k) ==> (m.newest is Some && k <= m.newest->0)
}

/// The state after one operation.
pub open spec fn after<H>(m: RegistryModel<H>, op: RegistryOp<H>) -> RegistryModel<H> {
    match op {
        RegistryOp::Register(c, h) => if fresh(m.newest, c) {
            RegistryModel { live: m.live.insert(c, h), newest: Some(c) }
        } else {
            m
        },
        RegistryOp::Resolve(t) => RegistryModel { live: m.live.remove(t), newest: m.newest },
    }
}

/// The state after a sequence of operations, in order.
pub open spec fn replay<H>(m: RegistryModel<H>, ops: Seq<RegistryOp<H>>) -> RegistryModel<H>
    decreases ops.len(),
{
    if ops.len() == 0 {
        m
    } else {
        after(replay(m, ops.drop_last()), ops.last())
    }
}

/// The tokens that the successful registrations among `ops` returned, in order.
pub open spec fn issued<H>(m: RegistryModel<H>, ops: Seq<RegistryOp<H>>) -> Seq<u128>
    decreases ops.len(),
{
    if ops.len() == 0 {
        Seq::empty()
    } else {
        let before = issued(m, ops.drop_last());
        match ops.last() {
            RegistryOp::Register(c, _) => if fresh(replay(m, ops.drop_last()).newest, c) {
                before.push(c)
            } else {
                before
            },
            RegistryOp::Resolve(_) => before,
        }
    }
}

/// The state after resolving each of `tokens` in order; malformed ones
/// change nothing.
pub open spec fn resolve_all<H>(
    m: RegistryModel<H>,
    tokens: Seq<Result<SlackInteractionId, TokenError>>,
) -> RegistryModel<H>
    decreases tokens.len(),
{
    if tokens.len() == 0 {
        m
    } else {
        let prev = resolve_all(m, tokens.drop_last());
        match tokens.last() {
            Ok(t) => after(prev, RegistryOp::Resolve(t.0)),
            Err(_) => prev,
        }
    }
}

/// The tokens that the action identifiers of `actions` read as.
pub open spec fn action_tokens(actions: Seq<InteractionAction>) -> Seq<
    Result<SlackInteractionId, TokenError>,
> {
    actions.map_values(|a: InteractionAction| parsed_token(a.action_id@))
}

/// Whether `d` is what resolving action `a` gives in state `before`.
pub open spec fn dispatched_as<H>(
    before: RegistryModel<H>,
    a: InteractionAction,
    d: Dispatch<H>,
) -> bool {
    match parsed_token(a.action_id@) {
        Err(_) => d is Malformed,
        Ok(t) => if before.live.contains_key(t.0) {
            d == Dispatch::Deliver(before.live[t.0], a.value)
        } else {
            d is Unknown
        },
    }
}

/// The registry of live callback subscriptions.
pub struct SlackInteractionServer<H> {
    handlers: HashMap<u128, H>,
    newest: Option<u128>,
}

impl<H> View for SlackInteractionServer<H> {
    type V = RegistryModel<H>;

    closed spec fn view(&self) -> RegistryModel<H> {
        RegistryModel { live: self.handlers@, newest: self.newest }
    }
}

impl<H> SlackInteractionServer<H> {
    pub open spec fn wf(&self) -> bool {
        model_wf(self@)
    }

    /// An empty registry that has issued nothing.
    pub fn new() -> (r: SlackInteractionServer<H>)
        ensures
            r.wf(),
            r@.live == Map::<u128, H>::empty(),
            r@.newest is None,
    {
        SlackInteractionServer { handlers: HashMap::new(), newest: None }
    }

    /// Whether a subscription for `token` is live.
    pub fn is_live(&self, token: SlackInteractionId) -> (r: bool)
        ensures
            r == self@.live.contains_key(token.0),
    {
        self.handlers.contains_key(&token.0)
    }

    /// Stores `handler` under `candidate` if the candidate is newer than
    /// every token issued before; returns the issued token.
    pub fn register_token(&mut self, candidate: SlackInteractionId, handler: H) -> (r: Result<
        SlackInteractionId,
        RegistryError,
    >)
        requires
            old(self).wf(),
        ensures
            final(self).wf(),
            final(self)@ == after(old(self)@, RegistryOp::Register(candidate.0, handler)),
            fresh(old(self)@.newest, candidate.0) ==> r == Ok::<
                SlackInteractionId,
                RegistryError,
            >(candidate),
            !fresh(old(self)@.newest, candidate.0) ==> r == Err::<
                SlackInteractionId,
                RegistryError,
            >(RegistryError::StaleToken),
    {
        let ok = match self.newest {
            None => true,
            Some(n) => n < candidate.0,
        };
        if ok {
            self.handlers.insert(candidate.0, handler);
            self.newest = Some(candidate.0);
            assert(final(self)@.live == old(self)@.live.insert(candidate.0, handler));
            Ok(candidate)
        } else {
            Err(RegistryError::StaleToken)
        }
    }

    /// Stores `handler` under a freshly minted token and returns the token.
    /// Fails only when the clock gave a token that is not newer than the
    /// newest one issued.
    pub fn register(&mut self, handler: H) -> (r: Result<SlackInteractionId, RegistryError>)
        requires
            old(self).wf(),
        ensures
            final(self).wf(),
            match r {
                Ok(t) => {
                    &&& fresh(old(self)@.newest, t.0)
                    &&& final(self)@ == after(old(self)@, RegistryOp::Register(t.0, handler))
                },
                Err(e) => e == RegistryError::StaleToken && final(self)@ == old(self)@,
            },
    {
        let candidate = SlackInteractionId::random();
        self.register_token(candidate, handler)
    }

    /// Removes the subscription for `token` and hands its handler out.
    pub fn resolve_and_consume(&mut self, token: SlackInteractionId) -> (r: Result<
        H,
        RegistryError,
    >)
        requires
            old(self).wf(),
        ensures
            final(self).wf(),
            final(self)@ == after(old(self)@, RegistryOp::Resolve(token.0)),
            old(self)@.live.contains_key(token.0) ==> r == Ok::<H, RegistryError>(
                old(self)@.live[token.0],
            ),
            !old(self)@.live.contains_key(token.0) ==> r == Err::<H, RegistryError>(
                RegistryError::UnknownToken,
            ),
    {
        match self.handlers.remove(&token.0) {
            Some(h) => Ok(h),
            None => {
                assert(old(self)@.live.remove(token.0) =~= old(self)@.live);
                Err(RegistryError::UnknownToken)
            },
        }
    }

    /// Resolves each action of one callback delivery independently, in
    /// order: a malformed or unknown one does not stop the others.
    pub fn dispatch(&mut self, actions: &Vec<InteractionAction>) -> (r: Vec<Dispatch<H>>)
        requires
            old(self).wf(),
        ensures
            final(self).wf(),
            final(self)@ == resolve_all(old(self)@, action_tokens(actions@)),
            r@.len() == actions@.len(),
            forall|i: int|
                0 <= i < actions@.len() ==> dispatched_as(
                    resolve_all(old(self)@, action_tokens(actions@).take(i)),
                    actions@[i],
                    #[trigger] r@[i],
                ),
    {
        let ghost start = self@;
        let ghost toks = action_tokens(actions@);
        let mut out: Vec<Dispatch<H>> = Vec::new();
        let mut i: usize = 0;
        while i < actions.len()
            invariant
                i <= actions@.len(),
                toks == action_tokens(actions@),
                self.wf(),
                self@ == resolve_all(start, toks.take(i as int)),
                out@.len() == i,
                forall|j: int|
                    0 <= j < i ==> dispatched_as(
                        resolve_all(start, toks.take(j)),
                        actions@[j],
                        #[trigger] out@[j],
                    ),
            decreases actions@.len() - i,
        {
            let action = &actions[i];
            assert(toks.take(i + 1).drop_last() == toks.take(i as int));
            assert(toks.take(i + 1).last() == toks[i as int]);
            assert(toks[i as int] == parsed_token(action.action_id@));
            let value = match &action.value {
                Some(s) => Some(s.clone()),
                None => None,
            };
            let outcome = match SlackInteractionId::parse(action.action_id.as_str()) {
                Err(_) => Dispatch::Malformed,
                Ok(t) => match self.resolve_and_consume(t) {
                    Ok(h) => Dispatch::Deliver(h, value),
                    Err(_) => Dispatch::Unknown,
                },
            };
            out.push(outcome);
            i = i + 1;
        }
        assert(toks.take(actions@.len() as int) == toks);
        out
    }
}

/// Tokens are never issued twice: along any sequence of operations, the
/// tokens that successful registrations return are pairwise distinct.
pub proof fn lemma_tokens_unique<H>(m: RegistryModel<H>, ops: Seq<RegistryOp<H>>)
    ensures
        forall|i: int, j: int|
            0 <= i < j < issued(m, ops).len() ==> issued(m, ops)[i] != issued(m, ops)[j],
{
    lemma_issued_increasing(m, ops);
}

proof fn lemma_issued_increasing<H>(m: RegistryModel<H>, ops: Seq<RegistryOp<H>>)
    ensures
        forall|i: int, j: int|
            0 <= i < j < issued(m, ops).len() ==> issued(m, ops)[i] < issued(m, ops)[j],
        forall|i: int|
            0 <= i < issued(m, ops).len() ==> (replay(m, ops).newest is Some
                && issued(m, ops)[i] <= replay(m, ops).newest->0),
    decreases ops.len(),
{
    if ops.len() > 0 {
        let prefix = ops.drop_last();
        lemma_issued_increasing(m, prefix);
        let prev = replay(m, prefix);
        let before = issued(m, prefix);
        lemma_newest_monotone(prev, ops.last());
        assert(replay(m, ops) == after(prev, ops.last()));
        match ops.last() {
            RegistryOp::Register(c, _) => {
                if fresh(prev.newest, c) {
                    assert(issued(m, ops) == before.push(c));
                    assert forall|i: int| 0 <= i < before.len() implies before[i] < c by {}
                } else {
                    assert(issued(m, ops) == before);
                }
            },
            RegistryOp::Resolve(_) => {
                assert(issued(m, ops) == before);
            },
        }
    }
}

proof fn lemma_newest_monotone<H>(m: RegistryModel<H>, op: RegistryOp<H>)
    ensures
        m.newest is Some ==> (after(m, op).newest is Some && m.newest->0
            <= after(m, op).newest->0),
{
}

/// A token resolves at most once: once its subscription was consumed, no
/// later sequence of operations makes it live again, so every further
/// resolution of it reports an unknown token.
pub proof fn lemma_resolve_at_most_once<H>(
    m: RegistryModel<H>,
    token: u128,
    ops: Seq<RegistryOp<H>>,
)
    requires
        model_wf(m),
        m.live.contains_key(token),
    ensures
        !replay(after(m, RegistryOp::Resolve(token)), ops).live.contains_key(token),
    decreases ops.len(),
{
    lemma_consumed_stays_dead(after(m, RegistryOp::Resolve(token)), token, ops);
}

proof fn lemma_consumed_stays_dead<H>(m: RegistryModel<H>, token: u128, ops: Seq<RegistryOp<H>>)
    requires
        m.newest is Some,
        token <= m.newest->0,
        !m.live.contains_key(token),
    ensures
        replay(m, ops).newest is Some,
        token <= replay(m, ops).newest->0,
        !replay(m, ops).live.contains_key(token),
    decreases ops.len(),
{
    if ops.len() > 0 {
        lemma_consumed_stays_dead(m, token, ops.drop_last());
    }
}

} // verus!
