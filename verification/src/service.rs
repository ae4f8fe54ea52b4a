//! The control server and its connections taken together, as a mathematical
//! value, and what holds of every step of that whole.

use crate::control::{
    command_of, connection_step, server_step, ConnectionAction, ConnectionError, ConnectionEvent,
    ConnectionState, ConnectionStep, ServerAction, ServerError, ServerEvent, ServerState,
    ServerStep, ID_PROTO_GET_STATUS, ID_PROTO_GRIPE_REGEX, ID_PROTO_NOTIFY_STOP, ID_PROTO_SAY_OK,
};
use crate::activity::{
    apply_op, consistent, fresh_tracker, lemma_step_keeps_consistent, GuardOp, Tracker,
};
use crate::idle::State;
use crate::pattern::{pattern_compiles, WindowMatcher};
use vstd::prelude::*;

verus! {

/// The accept loop, every connection it ever served, the stop signal, and
/// the activity tracker that the connections' guards act on.
pub struct Service {
    /// Whether the configured pattern is in force; fixed at startup.
    pub pattern_set: bool,
    pub server: ServerState,
    /// The connections in the order in which they were served.
    pub connections: Seq<ConnectionState>,
    /// Whether the stop signal is set.
    pub stop_signalled: bool,
    /// The tracker: a guard is acquired when a connection is served and
    /// released when it ends.
    pub tracker: Tracker,
    /// How many guards were released so far.
    pub released: nat,
}

/// One event somewhere in the service.
pub enum ServiceEvent {
    /// An event of the accept loop.
    Server(ServerEvent),
    /// An event of the connection with this index.
    Connection(int, ConnectionEvent),
}

/// The service as it starts.
pub open spec fn fresh_service(pattern_set: bool) -> Service {
    Service {
        pattern_set,
        server: ServerState::Starting,
        connections: Seq::empty(),
        stop_signalled: false,
        tracker: fresh_tracker(),
        released: 0,
    }
}

/// The service after one event, or `None` where the event cannot occur: an
/// event that its state machine does not admit, an event of a connection
/// that does not exist, a stop signal seen though none was set, or an idle
/// wait that ended though the tracker's state is `Active`.
pub open spec fn service_step(s: Service, event: ServiceEvent) -> Option<Service> {
    match event {
        ServiceEvent::Server(e) => match server_step(s.server, e) {
            Some(step) => if e == ServerEvent::Cancelled && !s.stop_signalled {
                None
            } else if e == ServerEvent::IdleElapsed && s.tracker.state != State::Idle {
                None
            } else if step.action == ServerAction::Serve {
                Some(
                    Service {
                        server: step.next,
                        connections: s.connections.push(ConnectionState::AwaitingCommand),
                        tracker: apply_op(s.tracker, GuardOp::Acquire).unwrap(),
                        ..s
                    },
                )
            } else {
                Some(Service { server: step.next, ..s })
            },
            None => None,
        },
        ServiceEvent::Connection(i, e) => if 0 <= i < s.connections.len() {
            match connection_step(s.pattern_set, s.connections[i], e) {
                Some(step) => if e == ConnectionEvent::Cancelled && !s.stop_signalled {
                    None
                } else if step.action is Finish {
                    match apply_op(s.tracker, GuardOp::Release) {
                        Some(tracker) => Some(
                            Service {
                                connections: s.connections.update(i, step.next),
                                tracker,
                                released: s.released + 1,
                                ..s
                            },
                        ),
                        None => None,
                    }
                } else {
                    Some(
                        Service {
                            connections: s.connections.update(i, step.next),
                            stop_signalled: s.stop_signalled || step.action
                                == ConnectionAction::SignalStop,
                            ..s
                        },
                    )
                },
                None => None,
            }
        } else {
            None
        },
    }
}

/// The service after a run of events on a fresh one, or `None` where one of
/// them cannot occur.
pub open spec fn run_service(pattern_set: bool, events: Seq<ServiceEvent>) -> Option<Service>
    decreases events.len(),
{
    if events.len() == 0 {
        Some(fresh_service(pattern_set))
    } else {
        match run_service(pattern_set, events.drop_last()) {
            Some(s) => service_step(s, events.last()),
            None => None,
        }
    }
}

/// The number of connections that are over.
pub open spec fn closed_count(connections: Seq<ConnectionState>) -> nat
    decreases connections.len(),
{
    if connections.len() == 0 {
        0
    } else {
        closed_count(connections.drop_last()) + if connections.last() == ConnectionState::Closed {
            1nat
        } else {
            0nat
        }
    }
}

proof fn lemma_closed_count_push(connections: Seq<ConnectionState>, state: ConnectionState)
    ensures
        closed_count(connections.push(state)) == closed_count(connections) + if state
            == ConnectionState::Closed {
            1nat
        } else {
            0nat
        },
{
    assert(connections.push(state).drop_last() =~= connections);
}

proof fn lemma_closed_count_update(
    connections: Seq<ConnectionState>,
    i: int,
    state: ConnectionState,
)
    requires
        0 <= i < connections.len(),
        connections[i] != ConnectionState::Closed,
    ensures
        closed_count(connections.update(i, state)) == closed_count(connections) + if state
            == ConnectionState::Closed {
            1nat
        } else {
            0nat
        },
    decreases connections.len(),
{
    let last = connections.len() - 1;
    if i == last {
        assert(connections.update(i, state).drop_last() =~= connections.drop_last());
    } else {
        assert(connections.update(i, state).drop_last() =~= connections.drop_last().update(
            i,
            state,
        ));
        lemma_closed_count_update(connections.drop_last(), i, state);
    }
}

/// Every guard is released exactly once: after every run of the service, the
/// number of releases is the number of connections that are over, by whatever
/// path each of them ended.
pub proof fn law_guard_released_once(pattern_set: bool, events: Seq<ServiceEvent>)
    requires
        run_service(pattern_set, events) is Some,
    ensures
        run_service(pattern_set, events).unwrap().released == closed_count(
            run_service(pattern_set, events).unwrap().connections,
        ),
    decreases events.len(),
{
    if events.len() > 0 {
        law_guard_released_once(pattern_set, events.drop_last());
        let s = run_service(pattern_set, events.drop_last()).unwrap();
        match events.last() {
            ServiceEvent::Server(e) => {
                lemma_closed_count_push(s.connections, ConnectionState::AwaitingCommand);
            },
            ServiceEvent::Connection(i, e) => {
                let step = connection_step(s.pattern_set, s.connections[i], e).unwrap();
                lemma_closed_count_update(s.connections, i, step.next);
            },
        }
    }
}

/// The tracker counts the open connections: after every run of the service,
/// its count and the number of connections that are over add up to the number
/// of connections served, and its published state is `Idle` exactly when
/// none is open.
pub proof fn law_tracker_counts_open_connections(pattern_set: bool, events: Seq<ServiceEvent>)
    requires
        run_service(pattern_set, events) is Some,
    ensures
        ({
            let s = run_service(pattern_set, events).unwrap();
            &&& s.tracker.count + closed_count(s.connections) == s.connections.len()
            &&& consistent(s.tracker)
            &&& (s.tracker.state == State::Idle) == (closed_count(s.connections)
                == s.connections.len())
        }),
    decreases events.len(),
{
    if events.len() > 0 {
        law_tracker_counts_open_connections(pattern_set, events.drop_last());
        let s = run_service(pattern_set, events.drop_last()).unwrap();
        match events.last() {
            ServiceEvent::Server(e) => {
                lemma_closed_count_push(s.connections, ConnectionState::AwaitingCommand);
                lemma_step_keeps_consistent(s.tracker, GuardOp::Acquire);
            },
            ServiceEvent::Connection(i, e) => {
                let step = connection_step(s.pattern_set, s.connections[i], e).unwrap();
                lemma_closed_count_update(s.connections, i, step.next);
                if step.action is Finish {
                    lemma_step_keeps_consistent(s.tracker, GuardOp::Release);
                }
            },
        }
    }
}

/// The idle wait never stops the service while a connection is open: where
/// the accept loop sees the idle wait end, every connection served so far is
/// over.
pub proof fn law_idle_stop_needs_no_open_connection(pattern_set: bool, events: Seq<ServiceEvent>)
    requires
        run_service(pattern_set, events) is Some,
        service_step(
            run_service(pattern_set, events).unwrap(),
            ServiceEvent::Server(ServerEvent::IdleElapsed),
        ) is Some,
    ensures
        closed_count(run_service(pattern_set, events).unwrap().connections) == run_service(
            pattern_set,
            events,
        ).unwrap().connections.len(),
{
    law_tracker_counts_open_connections(pattern_set, events);
}

/// The end of a connection always finds its guard held: after every run of
/// the service, each event that the protocol admits for an open connection is
/// a step of the service, unless it is a stop signal that nobody set.
pub proof fn law_open_connection_holds_guard(
    pattern_set: bool,
    events: Seq<ServiceEvent>,
    i: int,
    event: ConnectionEvent,
)
    requires
        run_service(pattern_set, events) is Some,
        0 <= i < run_service(pattern_set, events).unwrap().connections.len(),
        connection_step(
            pattern_set,
            run_service(pattern_set, events).unwrap().connections[i],
            event,
        ) is Some,
        event == ConnectionEvent::Cancelled ==> run_service(
            pattern_set,
            events,
        ).unwrap().stop_signalled,
    ensures
        service_step(
            run_service(pattern_set, events).unwrap(),
            ServiceEvent::Connection(i, event),
        ) is Some,
{
    law_tracker_counts_open_connections(pattern_set, events);
    lemma_pattern_is_fixed(pattern_set, events);
    let s = run_service(pattern_set, events).unwrap();
    lemma_closed_count_bound(s.connections, i);
}

proof fn lemma_pattern_is_fixed(pattern_set: bool, events: Seq<ServiceEvent>)
    requires
        run_service(pattern_set, events) is Some,
    ensures
        run_service(pattern_set, events).unwrap().pattern_set == pattern_set,
    decreases events.len(),
{
    if events.len() > 0 {
        lemma_pattern_is_fixed(pattern_set, events.drop_last());
    }
}

proof fn lemma_closed_count_bound(connections: Seq<ConnectionState>, i: int)
    requires
        0 <= i < connections.len(),
        connections[i] != ConnectionState::Closed,
    ensures
        closed_count(connections) < connections.len(),
    decreases connections.len(),
{
    lemma_closed_count_at_most_len(connections.drop_last());
    if i < connections.len() - 1 {
        lemma_closed_count_bound(connections.drop_last(), i);
    }
}

proof fn lemma_closed_count_at_most_len(connections: Seq<ConnectionState>)
    ensures
        closed_count(connections) <= connections.len(),
    decreases connections.len(),
{
    if connections.len() > 0 {
        lemma_closed_count_at_most_len(connections.drop_last());
    }
}

/// The stop signal is monotonic: no step of the service clears it.
pub proof fn law_stop_signal_stays_set(s: Service, event: ServiceEvent)
    requires
        s.stop_signalled,
        service_step(s, event) is Some,
    ensures
        service_step(s, event).unwrap().stop_signalled,
{
}

/// A stop request on any one connection sets the stop signal and ends
/// nothing by itself: the accept loop and every connection, that one
/// included, stand as before. With the signal set, the accept loop stops with
/// success as soon as it sees it and admits no event afterwards, and every
/// connection that waits for a command ends silently when it sees it. A
/// connection that is writing a reply does not look at the signal before the
/// write is done.
pub proof fn law_stop_request_stops_service(s: Service, i: int)
    requires
        0 <= i < s.connections.len(),
        s.connections[i] == ConnectionState::AwaitingCommand,
    ensures
        service_step(
            s,
            ServiceEvent::Connection(i, ConnectionEvent::Received(ID_PROTO_NOTIFY_STOP)),
        ) == Some(Service { stop_signalled: true, ..s }),
        server_step(ServerState::Listening, ServerEvent::Cancelled) == Some(
            ServerStep {
                next: ServerState::Stopped,
                action: ServerAction::Finish(None::<ServerError>),
            },
        ),
        forall|e: ServerEvent| server_step(ServerState::Stopped, e) is None,
        forall|p: bool|
            #[trigger] connection_step(
                p,
                ConnectionState::AwaitingCommand,
                ConnectionEvent::Cancelled,
            ) == Some(
                ConnectionStep {
                    next: ConnectionState::Closed,
                    action: ConnectionAction::Finish(None::<ConnectionError>),
                },
            ),
        forall|p: bool|
            #[trigger] connection_step(p, ConnectionState::Replying, ConnectionEvent::Cancelled)
                is None,
{
    assert(s.connections.update(i, ConnectionState::AwaitingCommand) =~= s.connections);
}

/// An undefined command byte ends the connection that sent it, with a
/// warning, and touches nothing else: after every run of the service, the
/// accept loop, the stop signal and every other connection stand as before,
/// so the accept loop goes on to admit what it admitted.
pub proof fn law_unknown_command_is_local(
    pattern_set: bool,
    events: Seq<ServiceEvent>,
    i: int,
    byte: u8,
)
    requires
        run_service(pattern_set, events) is Some,
        0 <= i < run_service(pattern_set, events).unwrap().connections.len(),
        run_service(pattern_set, events).unwrap().connections[i]
            == ConnectionState::AwaitingCommand,
        command_of(byte) is None,
    ensures
        connection_step(
            pattern_set,
            ConnectionState::AwaitingCommand,
            ConnectionEvent::Received(byte),
        ) == Some(
            ConnectionStep {
                next: ConnectionState::Closed,
                action: ConnectionAction::Finish(Some(ConnectionError::UnknownCommand(byte))),
            },
        ),
        ({
            let s = run_service(pattern_set, events).unwrap();
            let after = service_step(
                s,
                ServiceEvent::Connection(i, ConnectionEvent::Received(byte)),
            );
            &&& after is Some
            &&& after.unwrap().server == s.server
            &&& after.unwrap().stop_signalled == s.stop_signalled
            &&& after.unwrap().connections == s.connections.update(i, ConnectionState::Closed)
            &&& after.unwrap().released == s.released + 1
        }),
{
    law_open_connection_holds_guard(pattern_set, events, i, ConnectionEvent::Received(byte));
    lemma_pattern_is_fixed(pattern_set, events);
}

/// A status query is answered with `ID_PROTO_SAY_OK` exactly when the
/// configured pattern compiled, and with `ID_PROTO_GRIPE_REGEX` otherwise,
/// for every matcher that `WindowMatcher::new` returns.
pub proof fn law_status_reports_pattern(
    matcher: WindowMatcher,
    default_pattern: Seq<char>,
    configured_pattern: Seq<char>,
)
    requires
        matcher.built_from(default_pattern, configured_pattern),
    ensures
        connection_step(
            matcher.is_set(),
            ConnectionState::AwaitingCommand,
            ConnectionEvent::Received(ID_PROTO_GET_STATUS),
        ) == Some(
            ConnectionStep {
                next: ConnectionState::Replying,
                action: ConnectionAction::Reply(
                    if pattern_compiles(configured_pattern) {
                        ID_PROTO_SAY_OK
                    } else {
                        ID_PROTO_GRIPE_REGEX
                    },
                ),
            },
        ),
{
}

} // verus!
