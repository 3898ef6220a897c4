//! Connecting to the Hyper-V management service: the COM library is set up
//! first, then the `v2` virtualization namespace is tried, and the legacy
//! namespace only when `v2` cannot be opened.
//!
//! The caller performs each action and reports what happened as an event;
//! `connect_step` decides what comes next.
use vstd::prelude::*;
use crate::text::concat_str;

verus! {

/// Where the connection attempt stands.
#[derive(Debug, Clone, PartialEq, Eq)]
pub enum ConnectPhase {
    InitializingCom,
    OpeningV2,
    OpeningLegacy,
    Finished,
}

/// What the caller observed after performing the last action.
#[derive(Debug, Clone, PartialEq, Eq)]
pub enum ConnectEvent {
    ComReady,
    ComFailed(String),
    NamespaceOpened,
    NamespaceFailed(String),
}

/// What the caller is to do next.
#[derive(Debug, Clone, PartialEq, Eq)]
pub enum ConnectAction {
    /// Initialize the COM library.
    InitializeCom,
    /// Open a connection to the namespace with this path.
    OpenNamespace(String),
    /// Use the connection just opened, to the namespace with this path.
    Connected(String),
    /// Give up with this message.
    Failed(String),
}

/// The current virtualization namespace.
pub open spec fn v2_namespace() -> Seq<char> {
    "ROOT\\virtualization\\v2"@
}

/// The legacy virtualization namespace.
pub open spec fn legacy_namespace() -> Seq<char> {
    "ROOT\\virtualization"@
}

/// The events that the caller can observe in each phase.
pub open spec fn connect_fits(phase: ConnectPhase, event: ConnectEvent) -> bool {
    match phase {
        ConnectPhase::InitializingCom => event is ComReady || event is ComFailed,
        ConnectPhase::OpeningV2 => event is NamespaceOpened || event is NamespaceFailed,
        ConnectPhase::OpeningLegacy => event is NamespaceOpened || event is NamespaceFailed,
        ConnectPhase::Finished => false,
    }
}

/// One step of the connection attempt, over plain values.
pub open spec fn connect_transition(
    phase: ConnectPhase,
    event: ConnectEvent,
    next: ConnectPhase,
    action: ConnectAction,
) -> bool {
    match (phase, event) {
        (ConnectPhase::InitializingCom, ConnectEvent::ComReady) => next is OpeningV2 && (
        action matches ConnectAction::OpenNamespace(p) && p@ == v2_namespace()),
        (ConnectPhase::InitializingCom, ConnectEvent::ComFailed(e)) => next is Finished && (
        action matches ConnectAction::Failed(m) && m@ == "Failed to initialize COM library: "@
            + e@),
        (ConnectPhase::OpeningV2, ConnectEvent::NamespaceOpened) => next is Finished && (
        action matches ConnectAction::Connected(p) && p@ == v2_namespace()),
        (ConnectPhase::OpeningV2, ConnectEvent::NamespaceFailed(_)) => next is OpeningLegacy && (
        action matches ConnectAction::OpenNamespace(p) && p@ == legacy_namespace()),
        (ConnectPhase::OpeningLegacy, ConnectEvent::NamespaceOpened) => next is Finished && (
        action matches ConnectAction::Connected(p) && p@ == legacy_namespace()),
        (ConnectPhase::OpeningLegacy, ConnectEvent::NamespaceFailed(e)) => next is Finished && (
        action matches ConnectAction::Failed(m) && m@ == "Failed to connect to WMI (v2 & legacy): "@
            + e@),
        _ => false,
    }
}

/// How many events at most are still to come in a phase.
pub open spec fn connect_rank(phase: ConnectPhase) -> nat {
    match phase {
        ConnectPhase::InitializingCom => 3,
        ConnectPhase::OpeningV2 => 2,
        ConnectPhase::OpeningLegacy => 1,
        ConnectPhase::Finished => 0,
    }
}

/// Starts a connection attempt: the COM library is initialized first.
pub fn connect_wmi_with_fallback() -> (r: (ConnectPhase, ConnectAction))
    ensures
        r.0 is InitializingCom,
        r.1 is InitializeCom,
{
    (ConnectPhase::InitializingCom, ConnectAction::InitializeCom)
}

/// Decides the next action of a connection attempt from what the caller
/// observed.
pub fn connect_step(phase: ConnectPhase, event: ConnectEvent) -> (r: (ConnectPhase, ConnectAction))
    requires
        connect_fits(phase, event),
    ensures
        connect_transition(phase, event, r.0, r.1),
{
    match (phase, event) {
        (ConnectPhase::InitializingCom, ConnectEvent::ComReady) => (
            ConnectPhase::OpeningV2,
            ConnectAction::OpenNamespace(String::from_str("ROOT\\virtualization\\v2")),
        ),
        (ConnectPhase::InitializingCom, ConnectEvent::ComFailed(e)) => (
            ConnectPhase::Finished,
            ConnectAction::Failed(concat_str("Failed to initialize COM library: ", e.as_str())),
        ),
        (ConnectPhase::OpeningV2, ConnectEvent::NamespaceOpened) => (
            ConnectPhase::Finished,
            ConnectAction::Connected(String::from_str("ROOT\\virtualization\\v2")),
        ),
        (ConnectPhase::OpeningV2, ConnectEvent::NamespaceFailed(_)) => (
            ConnectPhase::OpeningLegacy,
            ConnectAction::OpenNamespace(String::from_str("ROOT\\virtualization")),
        ),
        (ConnectPhase::OpeningLegacy, ConnectEvent::NamespaceOpened) => (
            ConnectPhase::Finished,
            ConnectAction::Connected(String::from_str("ROOT\\virtualization")),
        ),
        (ConnectPhase::OpeningLegacy, ConnectEvent::NamespaceFailed(e)) => (
            ConnectPhase::Finished,
            ConnectAction::Failed(concat_str("Failed to connect to WMI (v2 & legacy): ", e.as_str())),
        ),
        _ => vstd::pervasive::unreached(),
    }
}

/// A run of the connection attempt: `phases[0]` is the start, and each
/// event `events[i]` moves `phases[i]` to `phases[i + 1]` with action
/// `actions[i]`.
pub open spec fn connect_run(
    phases: Seq<ConnectPhase>,
    events: Seq<ConnectEvent>,
    actions: Seq<ConnectAction>,
) -> bool {
    &&& phases.len() == events.len() + 1
    &&& actions.len() == events.len()
    &&& phases[0] is InitializingCom
    &&& forall|i: int|
        0 <= i < events.len() ==> connect_fits(phases[i], #[trigger] events[i])
            && connect_transition(phases[i], events[i], phases[i + 1], actions[i])
}

/// Every step of an attempt lowers the rank, so an attempt ends after at
/// most three events.
pub proof fn lemma_connect_terminates(
    phases: Seq<ConnectPhase>,
    events: Seq<ConnectEvent>,
    actions: Seq<ConnectAction>,
)
    requires
        connect_run(phases, events, actions),
    ensures
        events.len() <= 3,
        forall|i: int| 0 <= i < phases.len() ==> connect_rank(#[trigger] phases[i]) + i <= 3,
{
    assert forall|i: int| 0 <= i < phases.len() implies connect_rank(#[trigger] phases[i]) + i <= 3 by {
        lemma_connect_rank_prefix(phases, events, actions, i);
    }
    if events.len() > 3 {
        assert(connect_rank(phases[3]) + 3 <= 3);
        assert(connect_fits(phases[3], events[3]));
    }
}

proof fn lemma_connect_rank_prefix(
    phases: Seq<ConnectPhase>,
    events: Seq<ConnectEvent>,
    actions: Seq<ConnectAction>,
    i: int,
)
    requires
        connect_run(phases, events, actions),
        0 <= i < phases.len(),
    ensures
        connect_rank(phases[i]) + i <= 3,
    decreases i,
{
    if i > 0 {
        lemma_connect_rank_prefix(phases, events, actions, i - 1);
        assert(connect_fits(phases[i - 1], events[i - 1]));
    }
}

/// The legacy namespace is opened only right after the `v2` namespace
/// failed to open, and a connection is only ever made to one of the two
/// virtualization namespaces.
pub proof fn lemma_connect_prefers_v2(
    phases: Seq<ConnectPhase>,
    events: Seq<ConnectEvent>,
    actions: Seq<ConnectAction>,
)
    requires
        connect_run(phases, events, actions),
    ensures
        forall|i: int|
            0 <= i < actions.len() && (#[trigger] actions[i] matches ConnectAction::OpenNamespace(p)
                && p@ == legacy_namespace()) ==> phases[i] is OpeningV2 && events[i] is NamespaceFailed,
        forall|i: int|
            0 <= i < actions.len() && (#[trigger] actions[i] matches ConnectAction::Connected(p)) ==> (
            actions[i] matches ConnectAction::Connected(p) && (p@ == v2_namespace() || p@
                == legacy_namespace())),
        forall|i: int|
            0 <= i < actions.len() && phases[i] is OpeningV2 && (
            #[trigger] events[i]) is NamespaceOpened ==> (actions[i] matches ConnectAction::Connected(
                p,
            ) && p@ == v2_namespace()),
{
    assert forall|i: int|
        0 <= i < actions.len() && (#[trigger] actions[i] matches ConnectAction::OpenNamespace(p)
            && p@ == legacy_namespace()) implies phases[i] is OpeningV2 && events[i] is NamespaceFailed by {
        assert(connect_fits(phases[i], events[i]));
        reveal_strlit("ROOT\\virtualization\\v2");
        reveal_strlit("ROOT\\virtualization");
        assert(v2_namespace().len() != legacy_namespace().len());
    }
    assert forall|i: int|
        0 <= i < actions.len() && (#[trigger] actions[i] matches ConnectAction::Connected(p))
        implies (actions[i] matches ConnectAction::Connected(p) && (p@ == v2_namespace() || p@
            == legacy_namespace())) by {
        assert(connect_fits(phases[i], events[i]));
    }
    assert forall|i: int|
        0 <= i < actions.len() && phases[i] is OpeningV2 && (#[trigger] events[i]) is NamespaceOpened
        implies (actions[i] matches ConnectAction::Connected(p) && p@ == v2_namespace()) by {
        assert(connect_fits(phases[i], events[i]));
    }
}

/// What each observation leads to in a connection attempt:
/// - once COM is ready, the `v2` namespace is opened;
/// - when the `v2` namespace fails to open, whatever the error, the legacy
///   namespace is opened next;
/// - an opened namespace is the one the attempt connects to;
/// - a failure of COM, or of the legacy namespace, ends the attempt with
///   that error in the message.
pub proof fn lemma_connect_observations(
    phases: Seq<ConnectPhase>,
    events: Seq<ConnectEvent>,
    actions: Seq<ConnectAction>,
)
    requires
        connect_run(phases, events, actions),
    ensures
        forall|i: int|
            0 <= i < events.len() && phases[i] is InitializingCom && (#[trigger] events[i]) is ComReady
                ==> phases[i + 1] is OpeningV2 && (actions[i] matches ConnectAction::OpenNamespace(p)
                && p@ == "ROOT\\virtualization\\v2"@),
        forall|i: int|
            0 <= i < events.len() && phases[i] is OpeningV2 && (#[trigger] events[i]) is NamespaceFailed
                ==> phases[i + 1] is OpeningLegacy && (actions[i] matches ConnectAction::OpenNamespace(p)
                && p@ == "ROOT\\virtualization"@),
        forall|i: int|
            0 <= i < events.len() && phases[i] is OpeningV2 && (#[trigger] events[i]) is NamespaceOpened
                ==> phases[i + 1] is Finished && (actions[i] matches ConnectAction::Connected(p) && p@
                == "ROOT\\virtualization\\v2"@),
        forall|i: int|
            0 <= i < events.len() && phases[i] is OpeningLegacy && (#[trigger] events[i]) is NamespaceOpened
                ==> phases[i + 1] is Finished && (actions[i] matches ConnectAction::Connected(p) && p@
                == "ROOT\\virtualization"@),
        forall|i: int|
            0 <= i < events.len() && (#[trigger] events[i] matches ConnectEvent::ComFailed(e)) ==> (
            events[i] matches ConnectEvent::ComFailed(e) && phases[i + 1] is Finished && (
            actions[i] matches ConnectAction::Failed(m) && m@ == "Failed to initialize COM library: "@
                + e@)),
        forall|i: int|
            0 <= i < events.len() && phases[i] is OpeningLegacy && (
            #[trigger] events[i] matches ConnectEvent::NamespaceFailed(e)) ==> (
            events[i] matches ConnectEvent::NamespaceFailed(e) && phases[i + 1] is Finished && (
            actions[i] matches ConnectAction::Failed(m) && m@
                == "Failed to connect to WMI (v2 & legacy): "@ + e@)),
{
    assert forall|i: int| 0 <= i < events.len() implies connect_fits(phases[i], #[trigger] events[i])
        && connect_transition(phases[i], events[i], phases[i + 1], actions[i]) by {}
}

} // verus!
