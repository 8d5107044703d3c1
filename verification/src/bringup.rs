//! The node bring-up sequence, as a step machine.
//!
//! The caller that wins the initialization claim drives this machine:
//! it reads the next action, performs it against the engine (directory
//! creation, storage open, node construction, connection, readiness
//! waits, root creation), and reports what happened. The machine
//! decides every transition — which action comes next in which mode,
//! and which typed error each failure becomes — so the driver performs
//! work and nothing else.
//!
//! A remote endpoint gives an ephemeral node: connect, then wait for
//! the readiness handshake. No endpoint gives a durable standalone
//! node: wait for any persisted root to load, and create a fresh root
//! only if none exists.

use crate::lifecycle::NodeInfo;
use crate::types::AnkurahError;
use vstd::prelude::*;

verus! {

/// Where the bring-up stands.
#[derive(Debug)]
pub enum BringupPhase {
    /// The storage directory must be created if absent.
    EnsureDirectory,
    /// Local persistent storage must be opened at the directory.
    OpenStorage,
    /// The node itself must be constructed over the open storage.
    CreateNode,
    /// A streaming connection to the remote endpoint must be opened.
    ConnectRemote,
    /// The connected node must receive its root from the remote peer.
    AwaitSystemReady,
    /// The standalone node must finish loading any persisted root.
    AwaitRootLoaded,
    /// No persisted root exists; a fresh one must be created.
    CreateRoot,
    /// Bring-up succeeded.
    Done(NodeInfo),
    /// Bring-up failed; the error is what the initialization returns.
    Aborted(AnkurahError),
}

/// The single piece of outside work the driver must perform next.
#[derive(Debug, PartialEq, Eq, Structural)]
pub enum BringupAction {
    /// Create the storage directory (and its parents) if absent.
    CreateDirectory,
    /// Open local persistent storage at the directory.
    OpenStorage,
    /// Construct an ephemeral node over the open storage.
    CreateEphemeralNode,
    /// Construct a durable standalone node over the open storage.
    CreateDurableNode,
    /// Open a streaming connection to the remote endpoint.
    OpenConnection,
    /// Suspend until the readiness handshake completes.
    AwaitSystemReady,
    /// Suspend until any persisted root has loaded, then report whether
    /// one was found.
    AwaitRootLoaded,
    /// Create a fresh root.
    CreateRoot,
}

/// What the driver reports after performing an action.
#[derive(Debug)]
pub enum StepOutcome {
    /// The action finished.
    Success,
    /// The node was constructed; `id` is its identifier.
    NodeCreated { id: String },
    /// The load finished and a persisted root exists.
    RootFound,
    /// The load finished and no persisted root exists.
    RootMissing,
    /// The action failed; `message` is the engine's description.
    Failure { message: String },
}

/// One bring-up in progress: the storage directory it uses, the remote
/// endpoint if any, the node identifier once known, and the phase.
pub struct Bringup {
    path: String,
    remote: Option<String>,
    node_id: Option<String>,
    phase: BringupPhase,
}

impl Bringup {
    /// The storage directory the bring-up uses.
    pub closed spec fn spec_path(&self) -> String {
        self.path
    }

    /// The remote endpoint, if the node is to be ephemeral.
    pub closed spec fn spec_remote(&self) -> Option<String> {
        self.remote
    }

    /// The node identifier, once the node has been constructed.
    pub closed spec fn spec_node_id(&self) -> Option<String> {
        self.node_id
    }

    /// The current phase.
    pub closed spec fn phase(&self) -> BringupPhase {
        self.phase
    }

    /// Bring-up is neither finished nor failed.
    pub open spec fn in_progress(&self) -> bool {
        !(self.phase() is Done) && !(self.phase() is Aborted)
    }

    /// Phases fit the mode: connection phases only with a remote
    /// endpoint, root phases only without one, and the node identifier
    /// is known from node construction onward.
    pub open spec fn wf(&self) -> bool {
        &&& (self.phase() is ConnectRemote || self.phase() is AwaitSystemReady)
            ==> self.spec_remote() is Some
        &&& (self.phase() is AwaitRootLoaded || self.phase() is CreateRoot)
            ==> self.spec_remote() is None
        &&& (self.phase() is ConnectRemote || self.phase() is AwaitSystemReady || self.phase()
            is AwaitRootLoaded || self.phase() is CreateRoot) ==> self.spec_node_id() is Some
    }

    /// Which outcomes the current phase can report.
    pub open spec fn accepts(&self, outcome: StepOutcome) -> bool {
        match self.phase() {
            BringupPhase::EnsureDirectory => outcome is Success || outcome is Failure,
            BringupPhase::OpenStorage => outcome is Success || outcome is Failure,
            BringupPhase::CreateNode => outcome is NodeCreated,
            BringupPhase::ConnectRemote => outcome is Success || outcome is Failure,
            BringupPhase::AwaitSystemReady => outcome is Success,
            BringupPhase::AwaitRootLoaded => outcome is RootFound || outcome is RootMissing,
            BringupPhase::CreateRoot => outcome is Success || outcome is Failure,
            BringupPhase::Done(_) => false,
            BringupPhase::Aborted(_) => false,
        }
    }

    /// Starts a bring-up at the given storage directory, remote if an
    /// endpoint is given.
    pub fn new(path: String, remote: Option<String>) -> (r: Self)
        ensures
            r.spec_path() == path,
            r.spec_remote() == remote,
            r.spec_node_id() is None,
            r.phase() is EnsureDirectory,
            r.wf(),
    {
        Bringup { path, remote, node_id: None, phase: BringupPhase::EnsureDirectory }
    }

    /// The storage directory the bring-up uses.
    pub fn path(&self) -> (r: &String)
        ensures
            r == self.spec_path(),
    {
        &self.path
    }

    /// The remote endpoint, if any.
    pub fn remote(&self) -> (r: &Option<String>)
        ensures
            r == self.spec_remote(),
    {
        &self.remote
    }

    /// The next piece of outside work, or nothing once finished.
    pub fn next_action(&self) -> (a: Option<BringupAction>)
        ensures
            a == next_action_of(self.phase(), self.spec_remote() is Some),
    {
        match &self.phase {
            BringupPhase::EnsureDirectory => Some(BringupAction::CreateDirectory),
            BringupPhase::OpenStorage => Some(BringupAction::OpenStorage),
            BringupPhase::CreateNode => if self.remote.is_some() {
                Some(BringupAction::CreateEphemeralNode)
            } else {
                Some(BringupAction::CreateDurableNode)
            },
            BringupPhase::ConnectRemote => Some(BringupAction::OpenConnection),
            BringupPhase::AwaitSystemReady => Some(BringupAction::AwaitSystemReady),
            BringupPhase::AwaitRootLoaded => Some(BringupAction::AwaitRootLoaded),
            BringupPhase::CreateRoot => Some(BringupAction::CreateRoot),
            BringupPhase::Done(_) => None,
            BringupPhase::Aborted(_) => None,
        }
    }

    /// Takes the driver's report and moves to the next phase, mapping
    /// each failure to its typed error.
    pub fn step(&mut self, outcome: StepOutcome)
        requires
            old(self).in_progress(),
            old(self).wf(),
            old(self).accepts(outcome),
        ensures
            step_rel(*old(self), outcome, *final(self)),
            final(self).wf(),
    {
        let next = match (&self.phase, outcome) {
            (BringupPhase::EnsureDirectory, StepOutcome::Success) => BringupPhase::OpenStorage,
            (BringupPhase::EnsureDirectory, StepOutcome::Failure { message }) => {
                let m = String::from_str("Failed to create ").concat(self.path.as_str()).concat(
                    ": ",
                ).concat(message.as_str());
                BringupPhase::Aborted(AnkurahError::Storage { message: m })
            },
            (BringupPhase::OpenStorage, StepOutcome::Success) => BringupPhase::CreateNode,
            (BringupPhase::OpenStorage, StepOutcome::Failure { message }) => {
                let m = String::from_str("Failed to open storage: ").concat(message.as_str());
                BringupPhase::Aborted(AnkurahError::Storage { message: m })
            },
            (BringupPhase::CreateNode, StepOutcome::NodeCreated { id }) => {
                self.node_id = Some(id);
                if self.remote.is_some() {
                    BringupPhase::ConnectRemote
                } else {
                    BringupPhase::AwaitRootLoaded
                }
            },
            (BringupPhase::ConnectRemote, StepOutcome::Success) => BringupPhase::AwaitSystemReady,
            (BringupPhase::ConnectRemote, StepOutcome::Failure { message }) => BringupPhase::Aborted(
                AnkurahError::Connection { message },
            ),
            (BringupPhase::AwaitSystemReady, StepOutcome::Success) => {
                let id = match &self.node_id {
                    Some(i) => i.clone(),
                    None => vstd::pervasive::unreached(),
                };
                BringupPhase::Done(NodeInfo { id, durable: false })
            },
            (BringupPhase::AwaitRootLoaded, StepOutcome::RootFound) => {
                let id = match &self.node_id {
                    Some(i) => i.clone(),
                    None => vstd::pervasive::unreached(),
                };
                BringupPhase::Done(NodeInfo { id, durable: true })
            },
            (BringupPhase::AwaitRootLoaded, StepOutcome::RootMissing) => BringupPhase::CreateRoot,
            (BringupPhase::CreateRoot, StepOutcome::Success) => {
                let id = match &self.node_id {
                    Some(i) => i.clone(),
                    None => vstd::pervasive::unreached(),
                };
                BringupPhase::Done(NodeInfo { id, durable: true })
            },
            (BringupPhase::CreateRoot, StepOutcome::Failure { message }) => BringupPhase::Aborted(
                AnkurahError::Internal { message },
            ),
            _ => vstd::pervasive::unreached(),
        };
        self.phase = next;
    }

    /// Whether the bring-up has reached Done or Aborted.
    pub fn finished(&self) -> (r: bool)
        ensures
            r == !self.in_progress(),
    {
        match &self.phase {
            BringupPhase::Done(_) => true,
            BringupPhase::Aborted(_) => true,
            _ => false,
        }
    }

    /// The bring-up's result, to be reported to the lifecycle.
    pub fn outcome(&self) -> (r: Result<NodeInfo, AnkurahError>)
        requires
            !self.in_progress(),
        ensures
            match self.phase() {
                BringupPhase::Done(n) => r == Ok::<NodeInfo, AnkurahError>(n),
                BringupPhase::Aborted(e) => r == Err::<NodeInfo, AnkurahError>(e),
                _ => false,
            },
    {
        match &self.phase {
            BringupPhase::Done(n) => Ok(n.clone()),
            BringupPhase::Aborted(e) => Err(e.clone()),
            _ => vstd::pervasive::unreached(),
        }
    }
}

/// The action each phase calls for; connection work only in remote
/// mode, root work only in standalone mode.
pub open spec fn next_action_of(phase: BringupPhase, remote: bool) -> Option<BringupAction> {
    match phase {
        BringupPhase::EnsureDirectory => Some(BringupAction::CreateDirectory),
        BringupPhase::OpenStorage => Some(BringupAction::OpenStorage),
        BringupPhase::CreateNode => if remote {
            Some(BringupAction::CreateEphemeralNode)
        } else {
            Some(BringupAction::CreateDurableNode)
        },
        BringupPhase::ConnectRemote => Some(BringupAction::OpenConnection),
        BringupPhase::AwaitSystemReady => Some(BringupAction::AwaitSystemReady),
        BringupPhase::AwaitRootLoaded => Some(BringupAction::AwaitRootLoaded),
        BringupPhase::CreateRoot => Some(BringupAction::CreateRoot),
        BringupPhase::Done(_) => None,
        BringupPhase::Aborted(_) => None,
    }
}

/// The full transition relation of one step: phases move as the mode
/// dictates, and every failure becomes exactly one typed error, with
/// the message spelled out.
pub open spec fn step_rel(pre: Bringup, outcome: StepOutcome, post: Bringup) -> bool {
    &&& post.spec_path() == pre.spec_path()
    &&& post.spec_remote() == pre.spec_remote()
    &&& match (pre.phase(), outcome) {
        (BringupPhase::EnsureDirectory, StepOutcome::Success) => {
            &&& post.phase() is OpenStorage
            &&& post.spec_node_id() == pre.spec_node_id()
        },
        (BringupPhase::EnsureDirectory, StepOutcome::Failure { message }) => {
            &&& post.spec_node_id() == pre.spec_node_id()
            &&& match post.phase() {
                BringupPhase::Aborted(AnkurahError::Storage { message: m }) => m@ == "Failed to create "@
                    + pre.spec_path()@ + ": "@ + message@,
                _ => false,
            }
        },
        (BringupPhase::OpenStorage, StepOutcome::Success) => {
            &&& post.phase() is CreateNode
            &&& post.spec_node_id() == pre.spec_node_id()
        },
        (BringupPhase::OpenStorage, StepOutcome::Failure { message }) => {
            &&& post.spec_node_id() == pre.spec_node_id()
            &&& match post.phase() {
                BringupPhase::Aborted(AnkurahError::Storage { message: m }) => m@ == "Failed to open storage: "@
                    + message@,
                _ => false,
            }
        },
        (BringupPhase::CreateNode, StepOutcome::NodeCreated { id }) => {
            &&& post.spec_node_id() == Some(id)
            &&& post.phase() == if pre.spec_remote() is Some {
                BringupPhase::ConnectRemote
            } else {
                BringupPhase::AwaitRootLoaded
            }
        },
        (BringupPhase::ConnectRemote, StepOutcome::Success) => {
            &&& post.phase() is AwaitSystemReady
            &&& post.spec_node_id() == pre.spec_node_id()
        },
        (BringupPhase::ConnectRemote, StepOutcome::Failure { message }) => {
            &&& post.spec_node_id() == pre.spec_node_id()
            &&& post.phase() == BringupPhase::Aborted(AnkurahError::Connection { message })
        },
        (BringupPhase::AwaitSystemReady, StepOutcome::Success) => {
            &&& post.spec_node_id() == pre.spec_node_id()
            &&& match post.phase() {
                BringupPhase::Done(n) => Some(n.id) == pre.spec_node_id() && n.durable == false,
                _ => false,
            }
        },
        (BringupPhase::AwaitRootLoaded, StepOutcome::RootFound) => {
            &&& post.spec_node_id() == pre.spec_node_id()
            &&& match post.phase() {
                BringupPhase::Done(n) => Some(n.id) == pre.spec_node_id() && n.durable == true,
                _ => false,
            }
        },
        (BringupPhase::AwaitRootLoaded, StepOutcome::RootMissing) => {
            &&& post.phase() is CreateRoot
            &&& post.spec_node_id() == pre.spec_node_id()
        },
        (BringupPhase::CreateRoot, StepOutcome::Success) => {
            &&& post.spec_node_id() == pre.spec_node_id()
            &&& match post.phase() {
                BringupPhase::Done(n) => Some(n.id) == pre.spec_node_id() && n.durable == true,
                _ => false,
            }
        },
        (BringupPhase::CreateRoot, StepOutcome::Failure { message }) => {
            &&& post.spec_node_id() == pre.spec_node_id()
            &&& post.phase() == BringupPhase::Aborted(AnkurahError::Internal { message })
        },
        _ => false,
    }
}

/// How much bring-up work can still lie ahead of a phase.
pub open spec fn phase_rank(p: BringupPhase) -> int {
    match p {
        BringupPhase::EnsureDirectory => 7,
        BringupPhase::OpenStorage => 6,
        BringupPhase::CreateNode => 5,
        BringupPhase::ConnectRemote => 4,
        BringupPhase::AwaitSystemReady => 3,
        BringupPhase::AwaitRootLoaded => 3,
        BringupPhase::CreateRoot => 2,
        BringupPhase::Done(_) => 0,
        BringupPhase::Aborted(_) => 0,
    }
}

/// Every step strictly lowers the phase rank: a bring-up terminates,
/// and no phase — in particular the storage open — is ever visited
/// twice within one bring-up.
pub proof fn lemma_bringup_progress(pre: Bringup, outcome: StepOutcome, post: Bringup)
    requires
        pre.in_progress(),
        pre.accepts(outcome),
        step_rel(pre, outcome, post),
    ensures
        phase_rank(post.phase()) < phase_rank(pre.phase()),
{
}

/// Mode separation: a remote bring-up never loads or creates a local
/// root, and a standalone bring-up never opens a connection or waits
/// for a remote handshake.
pub proof fn lemma_mode_separation(m: Bringup)
    requires
        m.wf(),
    ensures
        m.spec_remote() is Some ==> !(m.phase() is AwaitRootLoaded) && !(m.phase() is CreateRoot),
        m.spec_remote() is None ==> !(m.phase() is ConnectRemote) && !(m.phase()
            is AwaitSystemReady),
{
}

} // verus!
