//! The singleton node lifecycle: a state machine that claims bring-up
//! exactly once per process, records its terminal outcome, and gates
//! every later operation on that outcome.
//!
//! The state moves only forward: `Uninitialized` to `Initializing` to
//! either `Ready` or `Failed`, both terminal for the process lifetime.
//! The caller that wins the claim performs the bring-up (see
//! [`crate::bringup`]) and reports back through [`NodeLifecycle::complete_init`];
//! every other caller is told to wait for, or observe, that outcome.

use crate::types::AnkurahError;
use vstd::prelude::*;

verus! {

/// What the lifecycle knows of the node once it is up: its identifier
/// and whether it is durable (standalone, no remote peer).
#[derive(Debug)]
pub struct NodeInfo {
    /// The node's identifier, as the engine reports it.
    pub id: String,
    /// True for a durable standalone node; false for an ephemeral node
    /// that depends on a remote authority.
    pub durable: bool,
}

impl Clone for NodeInfo {
    fn clone(&self) -> (res: Self)
        ensures
            res == *self,
    {
        NodeInfo { id: self.id.clone(), durable: self.durable }
    }
}

/// The lifecycle of the process-wide node slot. Forward-only.
#[derive(Debug)]
pub enum ConnectionState {
    /// No bring-up has been claimed yet.
    Uninitialized,
    /// One caller has claimed bring-up and is performing it.
    Initializing,
    /// Bring-up succeeded; the node is available.
    Ready(NodeInfo),
    /// Bring-up failed; later callers observe this error.
    Failed(AnkurahError),
}

/// What a caller asking for initialization must do next.
#[derive(Debug, PartialEq, Eq, Structural)]
pub enum InitDirective {
    /// The caller won the claim: it alone performs bring-up and then
    /// reports the outcome through `complete_init`.
    Proceed,
    /// The node is already up: return success with no further work.
    AlreadyReady,
    /// Another caller is mid-bring-up: wait for its outcome and return
    /// that same outcome.
    JoinInProgress,
    /// A previous bring-up failed: return the stored failure.
    ObserveFailure,
}

/// The access policy a context is bound to. Only the process-wide
/// default policy is exposed.
#[derive(Debug, PartialEq, Eq, Structural)]
pub enum AccessPolicy {
    /// The fixed, process-default policy.
    ProcessDefault,
}

/// A handle for issuing queries and transactions against the engine,
/// bound to a node and an access policy.
#[derive(Debug)]
pub struct ContextHandle {
    /// The identifier of the node the handle is bound to.
    pub node_id: String,
    /// The policy the handle is bound to.
    pub policy: AccessPolicy,
}

impl Clone for ContextHandle {
    fn clone(&self) -> (res: Self)
        ensures
            res == *self,
    {
        ContextHandle { node_id: self.node_id.clone(), policy: AccessPolicy::ProcessDefault }
    }
}

/// The directive handed to a caller asking for initialization in the
/// given state.
pub open spec fn init_directive_of(s: ConnectionState) -> InitDirective {
    match s {
        ConnectionState::Uninitialized => InitDirective::Proceed,
        ConnectionState::Initializing => InitDirective::JoinInProgress,
        ConnectionState::Ready(_) => InitDirective::AlreadyReady,
        ConnectionState::Failed(_) => InitDirective::ObserveFailure,
    }
}

/// The state after a caller asks for initialization: only the very
/// first request moves the state, and only to `Initializing`.
pub open spec fn init_claim(s: ConnectionState) -> ConnectionState {
    match s {
        ConnectionState::Uninitialized => ConnectionState::Initializing,
        _ => s,
    }
}

/// The state after the claiming caller reports its bring-up outcome.
pub open spec fn complete_next(outcome: Result<NodeInfo, AnkurahError>) -> ConnectionState {
    match outcome {
        Ok(n) => ConnectionState::Ready(n),
        Err(e) => ConnectionState::Failed(e),
    }
}

/// Ready and Failed are terminal for the lifetime of the process.
pub open spec fn is_terminal(s: ConnectionState) -> bool {
    s is Ready || s is Failed
}

/// How far along the lifecycle a state is; transitions never lower it.
pub open spec fn state_rank(s: ConnectionState) -> int {
    match s {
        ConnectionState::Uninitialized => 0,
        ConnectionState::Initializing => 1,
        ConnectionState::Ready(_) => 2,
        ConnectionState::Failed(_) => 2,
    }
}

/// The process-wide node slot and its lifecycle state. The host keeps
/// exactly one value of this type, behind one mutual-exclusion guard
/// covering check, claim and publish.
pub struct NodeLifecycle {
    state: ConnectionState,
}

impl NodeLifecycle {
    /// The current lifecycle state.
    pub closed spec fn st(&self) -> ConnectionState {
        self.state
    }

    /// A fresh slot: nothing claimed, nothing brought up.
    pub fn new() -> (r: Self)
        ensures
            r.st() == ConnectionState::Uninitialized,
    {
        NodeLifecycle { state: ConnectionState::Uninitialized }
    }

    /// One caller asks for initialization: under the slot's guard this
    /// is the atomic check-and-set that arbitrates all callers. The
    /// directive says what this caller must do; only a caller told
    /// `Proceed` may run bring-up, and it must then report through
    /// `complete_init`.
    pub fn begin_init(&mut self) -> (d: InitDirective)
        ensures
            d == init_directive_of(old(self).st()),
            final(self).st() == init_claim(old(self).st()),
    {
        match &self.state {
            ConnectionState::Uninitialized => {
                self.state = ConnectionState::Initializing;
                InitDirective::Proceed
            },
            ConnectionState::Initializing => InitDirective::JoinInProgress,
            ConnectionState::Ready(_) => InitDirective::AlreadyReady,
            ConnectionState::Failed(_) => InitDirective::ObserveFailure,
        }
    }

    /// The claiming caller reports its bring-up outcome, moving the
    /// slot to its terminal state.
    pub fn complete_init(&mut self, outcome: Result<NodeInfo, AnkurahError>)
        requires
            old(self).st() is Initializing,
        ensures
            final(self).st() == complete_next(outcome),
            is_terminal(final(self).st()),
    {
        match outcome {
            Ok(n) => {
                self.state = ConnectionState::Ready(n);
            },
            Err(e) => {
                self.state = ConnectionState::Failed(e);
            },
        }
    }

    /// Whether the node is up.
    pub fn is_node_initialized(&self) -> (r: bool)
        ensures
            r == (self.st() is Ready),
    {
        match &self.state {
            ConnectionState::Ready(_) => true,
            _ => false,
        }
    }

    /// The stored failure, if a bring-up failed.
    pub fn stored_failure(&self) -> (r: Option<AnkurahError>)
        ensures
            match self.st() {
                ConnectionState::Failed(e) => r == Some(e),
                _ => r is None,
            },
    {
        match &self.state {
            ConnectionState::Failed(e) => Some(e.clone()),
            _ => None,
        }
    }

    /// A context bound to the process-default policy, or
    /// `NotInitialized` whenever the node is not up.
    pub fn get_context(&self) -> (r: Result<ContextHandle, AnkurahError>)
        ensures
            match self.st() {
                ConnectionState::Ready(n) => r matches Ok(c) && c.node_id == n.id && c.policy
                    == AccessPolicy::ProcessDefault,
                _ => r == Err::<ContextHandle, AnkurahError>(AnkurahError::NotInitialized),
            },
    {
        match &self.state {
            ConnectionState::Ready(n) => Ok(
                ContextHandle { node_id: n.id.clone(), policy: AccessPolicy::ProcessDefault },
            ),
            _ => Err(AnkurahError::NotInitialized),
        }
    }

    /// The node's identifier, or `NotInitialized` whenever the node is
    /// not up.
    pub fn get_node_id(&self) -> (r: Result<String, AnkurahError>)
        ensures
            match self.st() {
                ConnectionState::Ready(n) => r == Ok::<String, AnkurahError>(n.id),
                _ => r == Err::<String, AnkurahError>(AnkurahError::NotInitialized),
            },
    {
        match &self.state {
            ConnectionState::Ready(n) => Ok(n.id.clone()),
            _ => Err(AnkurahError::NotInitialized),
        }
    }
}

/// Idempotent initialization: once the node is up, a caller asking for
/// initialization is told to return success at once, and the state does
/// not move — no storage open, no connection attempt, no bring-up of
/// any kind is directed.
pub proof fn lemma_init_idempotent(n: NodeInfo)
    ensures
        init_directive_of(ConnectionState::Ready(n)) == InitDirective::AlreadyReady,
        init_claim(ConnectionState::Ready(n)) == ConnectionState::Ready(n),
{
}

/// At most one winner: a caller is told to proceed with bring-up
/// exactly when nothing was ever claimed, and once any caller has asked,
/// no later caller is ever told to proceed.
pub proof fn lemma_single_winner(s: ConnectionState)
    ensures
        init_directive_of(s) == InitDirective::Proceed <==> s is Uninitialized,
        init_directive_of(init_claim(s)) != InitDirective::Proceed,
{
}

/// Terminal outcomes are stable: once Ready or Failed, asking for
/// initialization leaves the state exactly as it is, so every caller
/// observes the same terminal outcome.
pub proof fn lemma_terminal_stable(s: ConnectionState)
    requires
        is_terminal(s),
    ensures
        init_claim(s) == s,
        !(s is Initializing),
{
}

/// The lifecycle never regresses: both the claim and the completion
/// transition only raise the state's rank.
pub proof fn lemma_state_monotonic(s: ConnectionState, outcome: Result<NodeInfo, AnkurahError>)
    ensures
        state_rank(init_claim(s)) >= state_rank(s),
        state_rank(complete_next(outcome)) >= state_rank(ConnectionState::Initializing),
{
}

} // verus!
