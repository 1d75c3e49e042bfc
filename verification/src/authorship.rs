//! The manual-seal authorship loop.
//!
//! The loop consumes seal commands one at a time and moves through the states
//! `Idle -> Building -> Importing -> Idle`.  Block construction and import are
//! carried out by the chain client outside this crate; the loop decides what
//! to do at each step and is handed the outcome.  A failed attempt is reported
//! and abandoned — the loop returns to `Idle` and never retries on its own; a
//! new command must be issued.

use vstd::prelude::*;
use crate::sealing::SealCommand;

verus! {

/// Why an authorship attempt was abandoned.
#[derive(Clone, Copy, Debug, PartialEq, Eq, Structural)]
pub enum AuthorshipError {
    /// The command named a parent block the chain client does not know.
    ParentNotFound,
    /// Draining the pool and constructing the candidate block failed.
    BuildFailed,
    /// The chain client rejected the constructed block.
    ImportRejected,
}

/// Where the loop stands; `Building` and `Importing` carry what the current
/// command asked for.
#[derive(Clone, Copy, Debug, PartialEq, Eq, Structural)]
pub enum AuthorState {
    /// Waiting for the next seal command.
    Idle,
    /// A candidate block is under construction.
    Building { finalize: bool, has_notifier: bool },
    /// The constructed block was handed to the chain client for import.
    Importing { finalize: bool, has_notifier: bool },
}

/// What the chain client is asked to build.
#[derive(Clone, Copy, Debug, PartialEq, Eq, Structural)]
pub struct BuildRequest {
    /// The block to build on.
    pub parent: u64,
    /// Whether ready transactions are drained from the pool; an empty block
    /// is built otherwise.
    pub include_transactions: bool,
}

/// The authorship loop's state machine.
pub struct AuthorshipLoop {
    state: AuthorState,
}

impl AuthorshipLoop {
    /// The loop's current state.
    pub closed spec fn state(&self) -> AuthorState {
        self.state
    }

    /// A loop awaiting its first command.
    pub fn new() -> (r: AuthorshipLoop)
        ensures
            r.state() == AuthorState::Idle,
    {
        AuthorshipLoop { state: AuthorState::Idle }
    }

    /// Starts one attempt for `command`.  The parent is the explicitly
    /// requested block if the command names one, the current best block
    /// otherwise; a request for an unknown parent abandons the attempt with
    /// `ParentNotFound`.  `explicit_parent_known` reports the chain client's
    /// answer for the requested parent, if any.
    ///
    /// Commands are served strictly sequentially: one attempt at a time.
    pub fn on_command(
        &mut self,
        command: &SealCommand,
        best_block: u64,
        explicit_parent_known: bool,
    ) -> (r: Result<BuildRequest, AuthorshipError>)
        requires
            old(self).state() == AuthorState::Idle,
        ensures
            command.parent_hash is Some && !explicit_parent_known ==> r == Err::<
                BuildRequest,
                AuthorshipError,
            >(AuthorshipError::ParentNotFound) && final(self).state() == AuthorState::Idle,
            command.parent_hash is Some && explicit_parent_known ==> r == Ok::<
                BuildRequest,
                AuthorshipError,
            >(
                BuildRequest {
                    parent: command.parent_hash->0,
                    include_transactions: !command.create_empty,
                },
            ) && final(self).state() == (AuthorState::Building {
                finalize: command.finalize,
                has_notifier: command.has_notifier,
            }),
            command.parent_hash is None ==> r == Ok::<BuildRequest, AuthorshipError>(
                BuildRequest { parent: best_block, include_transactions: !command.create_empty },
            ) && final(self).state() == (AuthorState::Building {
                finalize: command.finalize,
                has_notifier: command.has_notifier,
            }),
    {
        let parent: u64 = match command.parent_hash {
            Some(p) => {
                if !explicit_parent_known {
                    return Err(AuthorshipError::ParentNotFound);
                }
                p
            },
            None => best_block,
        };
        self.state = AuthorState::Building {
            finalize: command.finalize,
            has_notifier: command.has_notifier,
        };
        Ok(BuildRequest { parent, include_transactions: !command.create_empty })
    }

    /// Consumes the block builder's outcome.  On success the constructed
    /// block goes to import; on failure the attempt is abandoned and the
    /// loop returns to `Idle` without retrying.
    pub fn on_build_result(&mut self, built: bool) -> (r: Option<AuthorshipError>)
        requires
            old(self).state() matches AuthorState::Building { .. },
        ensures
            old(self).state() matches AuthorState::Building { finalize, has_notifier } ==> {
                &&& built ==> r is None && final(self).state() == (AuthorState::Importing {
                    finalize,
                    has_notifier,
                })
                &&& !built ==> r == Some(AuthorshipError::BuildFailed) && final(self).state()
                    == AuthorState::Idle
            },
    {
        let (finalize, has_notifier) = match self.state {
            AuthorState::Building { finalize, has_notifier } => (finalize, has_notifier),
            _ => (false, false),
        };
        if built {
            self.state = AuthorState::Importing { finalize, has_notifier };
            None
        } else {
            self.state = AuthorState::Idle;
            Some(AuthorshipError::BuildFailed)
        }
    }

    /// Consumes the chain client's import outcome and returns to `Idle`.
    /// On success the result says whether the imported block must now be
    /// finalized, as the command requested; on failure the attempt is
    /// abandoned and reported, never retried.
    pub fn on_import_result(&mut self, imported: bool) -> (r: Result<bool, AuthorshipError>)
        requires
            old(self).state() matches AuthorState::Importing { .. },
        ensures
            final(self).state() == AuthorState::Idle,
            old(self).state() matches AuthorState::Importing { finalize, has_notifier } ==> {
                &&& imported ==> r == Ok::<bool, AuthorshipError>(finalize)
                &&& !imported ==> r == Err::<bool, AuthorshipError>(AuthorshipError::ImportRejected)
            },
    {
        let finalize = match self.state {
            AuthorState::Importing { finalize, .. } => finalize,
            _ => false,
        };
        self.state = AuthorState::Idle;
        if imported {
            Ok(finalize)
        } else {
            Err(AuthorshipError::ImportRejected)
        }
    }

    /// Whether a completion notifier awaits the current attempt's outcome.
    pub fn attempt_has_notifier(&self) -> (r: bool)
        ensures
            r == (self.state() matches AuthorState::Building { has_notifier: true, .. }
                || self.state() matches AuthorState::Importing { has_notifier: true, .. }),
    {
        match self.state {
            AuthorState::Building { has_notifier, .. } => has_notifier,
            AuthorState::Importing { has_notifier, .. } => has_notifier,
            AuthorState::Idle => false,
        }
    }
}

} // verus!
