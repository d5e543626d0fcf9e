use vstd::prelude::*;

verus! {

/// What a watch registry reports after a change: whether the set of
/// watched processes of the watcher changed, and how many it holds now.
#[derive(Debug, Clone, Copy, PartialEq, Eq, Structural)]
pub struct WatchStat {
    pub changed: bool,
    pub watchers: usize,
}

/// The kind of a watch change that is published.
#[derive(Debug, Clone, Copy, PartialEq, Eq, Structural)]
pub enum WatchAction {
    Watch,
    Unwatch,
    Terminate,
}

impl WatchAction {
    /// The label of the action in events and metrics.
    pub fn as_str(&self) -> (r: &'static str)
        ensures
            *self == WatchAction::Watch ==> r@ == "watch"@,
            *self == WatchAction::Unwatch ==> r@ == "unwatch"@,
            *self == WatchAction::Terminate ==> r@ == "terminate"@,
    {
        match self {
            WatchAction::Watch => "watch",
            WatchAction::Unwatch => "unwatch",
            WatchAction::Terminate => "terminate",
        }
    }
}

/// A watch event to publish: the action and the watcher's count of watched
/// processes.
#[derive(Debug, Clone, Copy, PartialEq, Eq, Structural)]
pub struct WatchEvent {
    pub action: WatchAction,
    pub watchers: u32,
}

/// What an endpoint manager does with a watch, unwatch or terminate request.
#[derive(Debug, Clone, Copy, PartialEq, Eq, Structural)]
pub struct WatchPlan {
    /// The event to publish, if any.
    pub publish: Option<WatchEvent>,
    /// Whether the request is sent on to the remote endpoint's watcher.
    pub forward: bool,
}

/// A count of watched processes as it is published: counts beyond
/// `u32::MAX` show as `u32::MAX`.
pub open spec fn published_watchers(watchers: usize) -> u32 {
    if watchers > u32::MAX {
        u32::MAX
    } else {
        watchers as u32
    }
}

/// A count of watched processes as it is published, saturating at `u32::MAX`.
pub fn watchers_to_u32(watchers: usize) -> (r: u32)
    ensures
        r == published_watchers(watchers),
{
    if watchers > u32::MAX as usize {
        u32::MAX
    } else {
        watchers as u32
    }
}

/// The event for an action and a registry count.
pub open spec fn event_for(action: WatchAction, stat: WatchStat) -> WatchEvent {
    WatchEvent { action, watchers: published_watchers(stat.watchers) }
}

/// Whether a watch registry reported a change.
pub open spec fn watch_changed(registry: Option<WatchStat>) -> bool {
    match registry {
        Some(stat) => stat.changed,
        None => false,
    }
}

/// Whether a watch registry, asked to remove a watch, reported a change.
pub open spec fn unwatch_changed(registry: Option<Option<WatchStat>>) -> bool {
    match registry {
        Some(Some(stat)) => stat.changed,
        _ => false,
    }
}

/// The plan for a watch request: nothing once stopped; sent on without an
/// event when the endpoint has no registry; sent on with an event when the
/// registry changed; dropped when it did not.
pub open spec fn watch_plan(stopped: bool, registry: Option<WatchStat>) -> WatchPlan {
    if stopped {
        WatchPlan { publish: None, forward: false }
    } else {
        match registry {
            None => WatchPlan { publish: None, forward: true },
            Some(stat) => if stat.changed {
                WatchPlan { publish: Some(event_for(WatchAction::Watch, stat)), forward: true }
            } else {
                WatchPlan { publish: None, forward: false }
            },
        }
    }
}

/// The plan for an unwatch request: as for a watch, and also dropped when
/// the registry had nothing to remove.
pub open spec fn unwatch_plan(stopped: bool, registry: Option<Option<WatchStat>>) -> WatchPlan {
    if stopped {
        WatchPlan { publish: None, forward: false }
    } else {
        match registry {
            None => WatchPlan { publish: None, forward: true },
            Some(None) => WatchPlan { publish: None, forward: false },
            Some(Some(stat)) => if stat.changed {
                WatchPlan { publish: Some(event_for(WatchAction::Unwatch, stat)), forward: true }
            } else {
                WatchPlan { publish: None, forward: false }
            },
        }
    }
}

/// The plan for a termination notice: always sent on unless stopped, with
/// an event when the registry changed.
pub open spec fn terminate_plan(stopped: bool, registry: Option<WatchStat>) -> WatchPlan {
    if stopped {
        WatchPlan { publish: None, forward: false }
    } else {
        match registry {
            Some(stat) => if stat.changed {
                WatchPlan { publish: Some(event_for(WatchAction::Terminate, stat)), forward: true }
            } else {
                WatchPlan { publish: None, forward: true }
            },
            None => WatchPlan { publish: None, forward: true },
        }
    }
}

/// The plan for a watch request.  `registry` is what the endpoint's watch
/// registry reported for the new watch, or `None` when the endpoint has no
/// registry.  A stopped manager does nothing; a watch that changed nothing
/// is not sent on.
pub fn plan_remote_watch(stopped: bool, registry: Option<WatchStat>) -> (r: WatchPlan)
    ensures
        r == watch_plan(stopped, registry),
        r.forward <==> !stopped && (registry is None || watch_changed(registry)),
        r.publish is Some <==> !stopped && watch_changed(registry),
{
    if stopped {
        return WatchPlan { publish: None, forward: false };
    }
    match registry {
        None => WatchPlan { publish: None, forward: true },
        Some(stat) => {
            if stat.changed {
                WatchPlan {
                    publish: Some(
                        WatchEvent {
                            action: WatchAction::Watch,
                            watchers: watchers_to_u32(stat.watchers),
                        },
                    ),
                    forward: true,
                }
            } else {
                WatchPlan { publish: None, forward: false }
            }
        },
    }
}

/// The plan for an unwatch request.  `registry` is `None` when the endpoint
/// has no registry, and otherwise what the registry reported: `None` when
/// the watcher watched nothing there.  An unwatch that changed nothing, or
/// found nothing to remove, is not sent on.
pub fn plan_remote_unwatch(stopped: bool, registry: Option<Option<WatchStat>>) -> (r: WatchPlan)
    ensures
        r == unwatch_plan(stopped, registry),
        r.forward <==> !stopped && (registry is None || unwatch_changed(registry)),
        r.publish is Some <==> !stopped && unwatch_changed(registry),
{
    if stopped {
        return WatchPlan { publish: None, forward: false };
    }
    match registry {
        None => WatchPlan { publish: None, forward: true },
        Some(None) => WatchPlan { publish: None, forward: false },
        Some(Some(stat)) => {
            if stat.changed {
                WatchPlan {
                    publish: Some(
                        WatchEvent {
                            action: WatchAction::Unwatch,
                            watchers: watchers_to_u32(stat.watchers),
                        },
                    ),
                    forward: true,
                }
            } else {
                WatchPlan { publish: None, forward: false }
            }
        },
    }
}

/// The plan for a termination notice.  `registry` is what the endpoint's
/// registry reported when the terminated process was removed from the
/// watcher's set: `None` when there is no watcher, no registry or nothing to
/// remove.  A notice is always sent on unless the manager is stopped.
pub fn plan_remote_terminate(stopped: bool, registry: Option<WatchStat>) -> (r: WatchPlan)
    ensures
        r == terminate_plan(stopped, registry),
        r.forward <==> !stopped,
        r.publish is Some <==> !stopped && watch_changed(registry),
{
    if stopped {
        return WatchPlan { publish: None, forward: false };
    }
    match registry {
        Some(stat) => {
            if stat.changed {
                WatchPlan {
                    publish: Some(
                        WatchEvent {
                            action: WatchAction::Terminate,
                            watchers: watchers_to_u32(stat.watchers),
                        },
                    ),
                    forward: true,
                }
            } else {
                WatchPlan { publish: None, forward: true }
            }
        },
        None => WatchPlan { publish: None, forward: true },
    }
}

/// Where an outgoing remote message goes.
#[derive(Debug, Clone, Copy, PartialEq, Eq, Structural)]
pub enum DeliveryTarget {
    /// The manager is stopped: the message becomes a dead letter.
    DeadLetter,
    /// The message goes to the endpoint's writer.
    EndpointWriter,
}

/// Where an outgoing message goes: to the dead letters once the manager
/// stopped, else to the writer of its endpoint.
pub fn plan_remote_deliver(stopped: bool) -> (r: DeliveryTarget)
    ensures
        stopped ==> r == DeliveryTarget::DeadLetter,
        !stopped ==> r == DeliveryTarget::EndpointWriter,
{
    if stopped {
        DeliveryTarget::DeadLetter
    } else {
        DeliveryTarget::EndpointWriter
    }
}

/// Why a message could not be sent to a client connection.
#[derive(Debug, Clone, PartialEq, Eq)]
pub enum ClientSendError {
    /// No connection is registered for the client's system id.
    NotFound(String),
    /// The connection refused the message: the system id and the reason.
    SendFailed(String, String),
}

/// A running manager sends a watch, unwatch or termination notice on to the
/// remote endpoint's watcher whenever the endpoint's registry reported a
/// change, and publishes an event of the request's own kind, carrying the
/// registry's count, exactly then.  An unwatch or watch that changed nothing
/// is dropped unless the endpoint has no registry; a termination notice is
/// always sent on.  A stopped manager does nothing at all.
pub proof fn lemma_watch_forwarding(
    stopped: bool,
    watch: Option<WatchStat>,
    unwatch: Option<Option<WatchStat>>,
)
    ensures
        stopped ==> watch_plan(stopped, watch) == (WatchPlan { publish: None, forward: false })
            && unwatch_plan(stopped, unwatch) == (WatchPlan { publish: None, forward: false })
            && terminate_plan(stopped, watch) == (WatchPlan { publish: None, forward: false }),
        watch_plan(stopped, watch).forward <==> !stopped && (watch is None || watch_changed(watch)),
        unwatch_plan(stopped, unwatch).forward <==> !stopped && (unwatch is None
            || unwatch_changed(unwatch)),
        terminate_plan(stopped, watch).forward <==> !stopped,
        watch_plan(stopped, watch).publish is Some <==> !stopped && watch_changed(watch),
        unwatch_plan(stopped, unwatch).publish is Some <==> !stopped && unwatch_changed(unwatch),
        terminate_plan(stopped, watch).publish is Some <==> !stopped && watch_changed(watch),
        watch matches Some(stat) ==> (watch_plan(stopped, watch).publish is Some ==> watch_plan(
            stopped,
            watch,
        ).publish->0 == (WatchEvent {
            action: WatchAction::Watch,
            watchers: published_watchers(stat.watchers),
        })),
        unwatch matches Some(Some(stat)) ==> (unwatch_plan(stopped, unwatch).publish is Some
            ==> unwatch_plan(stopped, unwatch).publish->0 == (WatchEvent {
            action: WatchAction::Unwatch,
            watchers: published_watchers(stat.watchers),
        })),
        watch matches Some(stat) ==> (terminate_plan(stopped, watch).publish is Some
            ==> terminate_plan(stopped, watch).publish->0 == (WatchEvent {
            action: WatchAction::Terminate,
            watchers: published_watchers(stat.watchers),
        })),
{
}

} // verus!
