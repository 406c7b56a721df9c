use vstd::prelude::*;

use crate::container::{SETUP_NETWORK, SETUP_UGIDMAP};

verus! {

/// The request of a child process that exited before any setup.
pub const FIN: u8 = 0;

/// Where the main process stands while it sets up a new container.
#[derive(PartialEq, Eq, Structural, Clone, Copy, Debug)]
pub enum MainpState {
    /// Nothing has happened yet.
    Idle,
    /// Waiting for the child's request.
    AwaitRequest,
    /// Waiting for the network setup asked for by `request`.
    AwaitNetwork { request: u8 },
    /// Waiting for the UID/GID mapping setup.
    AwaitUgidmap,
    /// The exchange is over.
    Finished,
}

/// What happened since the last step.
#[derive(PartialEq, Eq, Structural, Clone, Copy, Debug)]
pub enum MainpEvent {
    /// The exchange begins.
    Start,
    /// The child's request byte arrived.
    Request(u8),
    /// The network setup finished, successfully or not.
    NetworkDone(bool),
    /// The UID/GID mapping setup finished, successfully or not.
    UgidmapDone(bool),
}

/// What the main process does next.
#[derive(PartialEq, Eq, Structural, Clone, Copy, Debug)]
pub enum MainpAction {
    /// Read the child's request byte.
    ReadRequest,
    /// Configure the network of the child.
    SetupNetwork,
    /// Write the UID/GID mappings of the child.
    SetupUgidmap,
    /// Write `byte` to the child, then finish with `result`.
    Reply { byte: u8, result: u8 },
    /// Finish with `result` without writing.
    Finish { result: u8 },
}

/// Whether `event` is what the main process waits for in `state`.
pub open spec fn event_fits(state: MainpState, event: MainpEvent) -> bool {
    match state {
        MainpState::Idle => event is Start,
        MainpState::AwaitRequest => event is Request,
        MainpState::AwaitNetwork { .. } => event is NetworkDone,
        MainpState::AwaitUgidmap => event is UgidmapDone,
        MainpState::Finished => false,
    }
}

/// What follows a request once the network part is settled: the UID/GID
/// mapping setup if the request asks for it, else the final reply.
pub open spec fn after_network(request: u8) -> (MainpState, MainpAction) {
    if request & SETUP_UGIDMAP == SETUP_UGIDMAP {
        (MainpState::AwaitUgidmap, MainpAction::SetupUgidmap)
    } else {
        (MainpState::Finished, MainpAction::Reply { byte: 0, result: 0 })
    }
}

/// One step of the main process's setup exchange with the child: with no
/// setup to do it finishes at once; otherwise it reads the child's request,
/// finishes with 1 if the child gave up, and runs the requested setups in
/// turn, replying the bit of the first one that fails, or 0.
pub open spec fn mainp_step(ops: u8, state: MainpState, event: MainpEvent) -> (MainpState, MainpAction) {
    match state {
        MainpState::Idle => if ops == 0 {
            (MainpState::Finished, MainpAction::Finish { result: 0 })
        } else {
            (MainpState::AwaitRequest, MainpAction::ReadRequest)
        },
        MainpState::AwaitRequest => {
            let request = event->Request_0;
            if request == FIN {
                (MainpState::Finished, MainpAction::Finish { result: 1 })
            } else if request & SETUP_NETWORK == SETUP_NETWORK {
                (MainpState::AwaitNetwork { request }, MainpAction::SetupNetwork)
            } else {
                after_network(request)
            }
        },
        MainpState::AwaitNetwork { request } => if !event->NetworkDone_0 {
            (MainpState::Finished, MainpAction::Reply { byte: SETUP_NETWORK, result: 0 })
        } else {
            after_network(request)
        },
        MainpState::AwaitUgidmap => if !event->UgidmapDone_0 {
            (MainpState::Finished, MainpAction::Reply { byte: SETUP_UGIDMAP, result: 0 })
        } else {
            (MainpState::Finished, MainpAction::Reply { byte: 0, result: 0 })
        },
        MainpState::Finished => (MainpState::Finished, MainpAction::Finish { result: 0 }),
    }
}

/// One step of the main process's setup exchange; the caller performs the
/// action and hands back what came of it as the next event.
pub fn mainp_setup_step(ops: u8, state: MainpState, event: MainpEvent) -> (r: (MainpState, MainpAction))
    requires
        event_fits(state, event),
    ensures
        r == mainp_step(ops, state, event),
{
    match state {
        MainpState::Idle => {
            if ops == 0 {
                (MainpState::Finished, MainpAction::Finish { result: 0 })
            } else {
                (MainpState::AwaitRequest, MainpAction::ReadRequest)
            }
        },
        MainpState::AwaitRequest => {
            let request = match event {
                MainpEvent::Request(b) => b,
                _ => 0,
            };
            if request == FIN {
                (MainpState::Finished, MainpAction::Finish { result: 1 })
            } else if request & SETUP_NETWORK == SETUP_NETWORK {
                (MainpState::AwaitNetwork { request }, MainpAction::SetupNetwork)
            } else {
                next_after_network(request)
            }
        },
        MainpState::AwaitNetwork { request } => {
            let ok = match event {
                MainpEvent::NetworkDone(ok) => ok,
                _ => false,
            };
            if !ok {
                (MainpState::Finished, MainpAction::Reply { byte: SETUP_NETWORK, result: 0 })
            } else {
                next_after_network(request)
            }
        },
        MainpState::AwaitUgidmap => {
            let ok = match event {
                MainpEvent::UgidmapDone(ok) => ok,
                _ => false,
            };
            if !ok {
                (MainpState::Finished, MainpAction::Reply { byte: SETUP_UGIDMAP, result: 0 })
            } else {
                (MainpState::Finished, MainpAction::Reply { byte: 0, result: 0 })
            }
        },
        MainpState::Finished => (MainpState::Finished, MainpAction::Finish { result: 0 }),
    }
}

/// What follows a request once the network part is settled.
fn next_after_network(request: u8) -> (r: (MainpState, MainpAction))
    ensures
        r == after_network(request),
{
    if request & SETUP_UGIDMAP == SETUP_UGIDMAP {
        (MainpState::AwaitUgidmap, MainpAction::SetupUgidmap)
    } else {
        (MainpState::Finished, MainpAction::Reply { byte: 0, result: 0 })
    }
}

/// The event that answers `action` when the child requests `request` and
/// the setups succeed as `network_ok` and `ugidmap_ok` say.
pub open spec fn answer(action: MainpAction, request: u8, network_ok: bool, ugidmap_ok: bool) -> MainpEvent {
    match action {
        MainpAction::ReadRequest => MainpEvent::Request(request),
        MainpAction::SetupNetwork => MainpEvent::NetworkDone(network_ok),
        MainpAction::SetupUgidmap => MainpEvent::UgidmapDone(ugidmap_ok),
        _ => MainpEvent::Start,
    }
}

/// The actions of an exchange driven from `state` by `event`, for at most
/// `fuel` steps; it ends with the first reply or finish.
pub open spec fn drive(
    ops: u8,
    state: MainpState,
    event: MainpEvent,
    request: u8,
    network_ok: bool,
    ugidmap_ok: bool,
    fuel: nat,
) -> Seq<MainpAction>
    decreases fuel,
{
    if fuel == 0 {
        seq![]
    } else {
        let (next, action) = mainp_step(ops, state, event);
        if action is Reply || action is Finish {
            seq![action]
        } else {
            seq![action] + drive(
                ops,
                next,
                answer(action, request, network_ok, ugidmap_ok),
                request,
                network_ok,
                ugidmap_ok,
                (fuel - 1) as nat,
            )
        }
    }
}

/// The setup exchange of the main process, from the start: with no setup
/// to do it finishes with 0 without reading. Otherwise it reads the
/// request; a child that gave up (`FIN`) makes it finish with 1. Else it
/// sets up the network if asked, and replies `SETUP_NETWORK` if that
/// fails; then it writes the UID/GID mappings if asked, and replies
/// `SETUP_UGIDMAP` if that fails; otherwise it replies 0. Every reply
/// finishes with 0.
pub proof fn lemma_mainp_protocol(ops: u8, request: u8, network_ok: bool, ugidmap_ok: bool)
    ensures
        ({
            let net = request & SETUP_NETWORK == SETUP_NETWORK;
            let ugid = request & SETUP_UGIDMAP == SETUP_UGIDMAP;
            let tail = if ugid {
                if ugidmap_ok {
                    seq![MainpAction::SetupUgidmap, MainpAction::Reply { byte: 0, result: 0 }]
                } else {
                    seq![
                        MainpAction::SetupUgidmap,
                        MainpAction::Reply { byte: SETUP_UGIDMAP, result: 0 },
                    ]
                }
            } else {
                seq![MainpAction::Reply { byte: 0, result: 0 }]
            };
            drive(ops, MainpState::Idle, MainpEvent::Start, request, network_ok, ugidmap_ok, 4) == if ops
                == 0 {
                seq![MainpAction::Finish { result: 0 }]
            } else if request == FIN {
                seq![MainpAction::ReadRequest, MainpAction::Finish { result: 1 }]
            } else if net && !network_ok {
                seq![
                    MainpAction::ReadRequest,
                    MainpAction::SetupNetwork,
                    MainpAction::Reply { byte: SETUP_NETWORK, result: 0 },
                ]
            } else if net {
                seq![MainpAction::ReadRequest, MainpAction::SetupNetwork] + tail
            } else {
                seq![MainpAction::ReadRequest] + tail
            }
        }),
{
    reveal_with_fuel(drive, 5);
}

} // verus!
