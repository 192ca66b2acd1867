use crate::error::{Error, MpvError, Result};
use vstd::prelude::*;

verus! {

/// The client API version this crate was written against, as the native
/// version query reports it: major version 1 above the low 16 bits, minor
/// version 101 in them.
pub const MPV_CLIENT_API_VERSION: u64 = 65637;

/// A native call made while a context is started.
#[derive(Debug, Clone, Copy, PartialEq, Eq, Structural)]
pub enum StartupCall {
    /// Ask the loaded library for its client API version.
    ClientApiVersion,
    /// Create a context.
    Create,
    /// Initialise the context just created.
    Initialize,
    /// Terminate and destroy the context just created.
    TerminateDestroy,
}

/// What the native side answered to a `StartupCall`.
#[derive(Debug, Clone, Copy, PartialEq, Eq, Structural)]
pub enum StartupEvent {
    /// The loaded library's client API version.
    ApiVersion(u64),
    /// Whether context creation returned a non-null pointer.
    Created(bool),
    /// The status of initialisation.
    Initialized(MpvError),
    /// The context was torn down.
    Destroyed,
}

/// Where the start of a context stands.
///
/// The version is checked before any other native call, a null context stops
/// everything, and a context whose initialisation failed is torn down before
/// the error is reported.
#[derive(Debug, Clone, PartialEq, Eq)]
pub enum Startup {
    AwaitVersion,
    AwaitCreate,
    AwaitInit,
    AwaitDestroy(Error),
    Ready,
    Failed(Error),
}

impl Startup {
    /// The native call that this state waits on, if any.
    pub open spec fn call_spec(self) -> Option<StartupCall> {
        match self {
            Startup::AwaitVersion => Some(StartupCall::ClientApiVersion),
            Startup::AwaitCreate => Some(StartupCall::Create),
            Startup::AwaitInit => Some(StartupCall::Initialize),
            Startup::AwaitDestroy(_) => Some(StartupCall::TerminateDestroy),
            _ => None,
        }
    }

    /// The state after the answer `ev`. An answer to another call than the one
    /// awaited changes nothing.
    pub open spec fn step_spec(self, ev: StartupEvent) -> Startup {
        match (self, ev) {
            (Startup::AwaitVersion, StartupEvent::ApiVersion(v)) => if v == MPV_CLIENT_API_VERSION {
                Startup::AwaitCreate
            } else {
                Startup::Failed(Error::VersionMismatch { linked: MPV_CLIENT_API_VERSION, loaded: v })
            },
            (Startup::AwaitCreate, StartupEvent::Created(ok)) => if ok {
                Startup::AwaitInit
            } else {
                Startup::Failed(Error::Null)
            },
            (Startup::AwaitInit, StartupEvent::Initialized(st)) => if st == 0 {
                Startup::Ready
            } else {
                Startup::AwaitDestroy(Error::Raw(st))
            },
            (Startup::AwaitDestroy(e), StartupEvent::Destroyed) => Startup::Failed(e),
            _ => self,
        }
    }

    /// The state before any native call.
    pub fn begin() -> (r: Startup)
        ensures
            r == Startup::AwaitVersion,
    {
        Startup::AwaitVersion
    }

    /// The native call to make next; `None` once the start has succeeded or
    /// failed.
    pub fn next_call(&self) -> (r: Option<StartupCall>)
        ensures
            r == self.call_spec(),
    {
        match self {
            Startup::AwaitVersion => Some(StartupCall::ClientApiVersion),
            Startup::AwaitCreate => Some(StartupCall::Create),
            Startup::AwaitInit => Some(StartupCall::Initialize),
            Startup::AwaitDestroy(_) => Some(StartupCall::TerminateDestroy),
            _ => None,
        }
    }

    /// Takes in the native side's answer to the call made.
    pub fn step(self, ev: StartupEvent) -> (r: Startup)
        ensures
            r == self.step_spec(ev),
    {
        match (self, ev) {
            (Startup::AwaitVersion, StartupEvent::ApiVersion(v)) => {
                if v == MPV_CLIENT_API_VERSION {
                    Startup::AwaitCreate
                } else {
                    Startup::Failed(
                        Error::VersionMismatch { linked: MPV_CLIENT_API_VERSION, loaded: v },
                    )
                }
            },
            (Startup::AwaitCreate, StartupEvent::Created(ok)) => {
                if ok {
                    Startup::AwaitInit
                } else {
                    Startup::Failed(Error::Null)
                }
            },
            (Startup::AwaitInit, StartupEvent::Initialized(st)) => {
                if st == 0 {
                    Startup::Ready
                } else {
                    Startup::AwaitDestroy(Error::Raw(st))
                }
            },
            (Startup::AwaitDestroy(e), StartupEvent::Destroyed) => Startup::Failed(e),
            (s, _) => s,
        }
    }

    /// How the start ended: `Ok` once the context is ready, the error once it
    /// failed, `None` while native calls remain.
    pub fn outcome(self) -> (r: Option<Result<()>>)
        ensures
            self == Startup::Ready ==> r == Some(Ok::<(), Error>(())),
            (self matches Startup::Failed(e) ==> r == Some(Err::<(), Error>(e))),
            self.call_spec() is Some ==> r is None,
    {
        match self {
            Startup::Ready => Some(Ok(())),
            Startup::Failed(e) => Some(Err(e)),
            _ => None,
        }
    }
}

/// The native calls that a driver makes from state `s`, when the answers it
/// receives are `evs` in turn: it makes the call that the state awaits, and
/// goes on with the next answer until none is awaited.
pub open spec fn startup_calls(s: Startup, evs: Seq<StartupEvent>) -> Seq<StartupCall>
    decreases evs.len(),
{
    match s.call_spec() {
        None => seq![],
        Some(c) => if evs.len() == 0 {
            seq![c]
        } else {
            seq![c] + startup_calls(s.step_spec(evs[0]), evs.drop_first())
        },
    }
}

/// When the loaded library reports another API version, the start fails with
/// `VersionMismatch` carrying both versions, and the version query is the only
/// native call made, whatever the native side would answer afterwards.
pub proof fn lemma_version_mismatch_stops(loaded: u64, rest: Seq<StartupEvent>)
    requires
        loaded != MPV_CLIENT_API_VERSION,
    ensures
        Startup::AwaitVersion.step_spec(StartupEvent::ApiVersion(loaded)) == Startup::Failed(
            Error::VersionMismatch { linked: MPV_CLIENT_API_VERSION, loaded },
        ),
        startup_calls(Startup::AwaitVersion, seq![StartupEvent::ApiVersion(loaded)] + rest)
            == seq![StartupCall::ClientApiVersion],
{
    let evs = seq![StartupEvent::ApiVersion(loaded)] + rest;
    assert(evs[0] == StartupEvent::ApiVersion(loaded));
    assert(startup_calls(
        Startup::Failed(Error::VersionMismatch { linked: MPV_CLIENT_API_VERSION, loaded }),
        evs.drop_first(),
    ) == Seq::<StartupCall>::empty());
    assert(seq![StartupCall::ClientApiVersion] + Seq::<StartupCall>::empty() =~= seq![
        StartupCall::ClientApiVersion,
    ]);
}

/// A context whose initialisation fails with status `st` is torn down, and
/// only then is `Raw(st)` reported; a null context is reported as `Null` with
/// no further native call.
pub proof fn lemma_failed_start_cleans_up(st: MpvError, rest: Seq<StartupEvent>)
    requires
        st != 0,
    ensures
        Startup::AwaitInit.step_spec(StartupEvent::Initialized(st)).call_spec() == Some(
            StartupCall::TerminateDestroy,
        ),
        Startup::AwaitInit.step_spec(StartupEvent::Initialized(st)).step_spec(
            StartupEvent::Destroyed,
        ) == Startup::Failed(Error::Raw(st)),
        Startup::AwaitCreate.step_spec(StartupEvent::Created(false)) == Startup::Failed(
            Error::Null,
        ),
        startup_calls(Startup::AwaitCreate, seq![StartupEvent::Created(false)] + rest) == seq![
            StartupCall::Create,
        ],
{
    let evs = seq![StartupEvent::Created(false)] + rest;
    assert(evs[0] == StartupEvent::Created(false));
    assert(startup_calls(Startup::Failed(Error::Null), evs.drop_first()) == Seq::<
        StartupCall,
    >::empty());
    assert(seq![StartupCall::Create] + Seq::<StartupCall>::empty() =~= seq![StartupCall::Create]);
}

} // verus!
