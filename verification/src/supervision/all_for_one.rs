use vstd::prelude::*;

use crate::supervision::directive::{Directive, SupervisionAction};
use crate::supervision::restart_statistics::{count_recent, failures_within, RestartStatistics};

verus! {

/// The decision label that an all-for-one supervisor reports to its metrics.
#[derive(Debug, Clone, Copy, PartialEq, Eq, Structural)]
pub enum AllForOneDecisionKind {
    Resume,
    StopAll,
    RestartAll,
    StopAllExplicit,
    Escalate,
}

impl AllForOneDecisionKind {
    /// The label text reported to metrics for this decision.
    pub fn label(&self) -> (r: &'static str)
        ensures
            *self == AllForOneDecisionKind::Resume ==> r@ == "resume"@,
            *self == AllForOneDecisionKind::StopAll ==> r@ == "stop_all"@,
            *self == AllForOneDecisionKind::RestartAll ==> r@ == "restart_all"@,
            *self == AllForOneDecisionKind::StopAllExplicit ==> r@ == "stop_all_explicit"@,
            *self == AllForOneDecisionKind::Escalate ==> r@ == "escalate"@,
    {
        match self {
            AllForOneDecisionKind::Resume => "resume",
            AllForOneDecisionKind::StopAll => "stop_all",
            AllForOneDecisionKind::RestartAll => "restart_all",
            AllForOneDecisionKind::StopAllExplicit => "stop_all_explicit",
            AllForOneDecisionKind::Escalate => "escalate",
        }
    }
}

/// The outcome of handling one child failure under an all-for-one strategy.
#[derive(Debug, Clone, Copy, PartialEq, Eq, Structural)]
pub struct AllForOneDecision {
    /// What to do and to which children.
    pub action: SupervisionAction,
    /// The label reported to metrics.
    pub kind: AllForOneDecisionKind,
    /// How many children the action touches, as reported to metrics.
    pub affected_children: usize,
    /// The directive published in the failure event, if one is published.
    pub logged_directive: Option<Directive>,
}

/// When a strategy with at most `max` restarts inside a window of `within`
/// nanoseconds stops instead of restarting, given the failure history `times`
/// and the present time `now`, the failure at `now` not yet recorded.
pub open spec fn stops(max: u32, within: u64, times: Seq<u64>, now: u64) -> bool {
    max == 0 || failures_within(times.push(now), within, now) > max
}

/// The failure history after the strategy handled a failure at `now`.
pub open spec fn history_after(max: u32, within: u64, times: Seq<u64>, now: u64) -> Seq<u64> {
    if stops(max, within, times, now) {
        Seq::empty()
    } else {
        times.push(now)
    }
}

/// The decision of an all-for-one supervisor, given the directive that its
/// decider returned.
pub open spec fn all_for_one_decision(
    max: u32,
    within: u64,
    directive: Directive,
    times: Seq<u64>,
    now: u64,
    children: usize,
) -> AllForOneDecision {
    match directive {
        Directive::Resume => AllForOneDecision {
            action: SupervisionAction::ResumeChild,
            kind: AllForOneDecisionKind::Resume,
            affected_children: 1,
            logged_directive: Some(Directive::Resume),
        },
        Directive::Restart => if stops(max, within, times, now) {
            AllForOneDecision {
                action: SupervisionAction::StopAll,
                kind: AllForOneDecisionKind::StopAll,
                affected_children: children,
                logged_directive: Some(Directive::Stop),
            }
        } else {
            AllForOneDecision {
                action: SupervisionAction::RestartAll,
                kind: AllForOneDecisionKind::RestartAll,
                affected_children: children,
                logged_directive: Some(Directive::Restart),
            }
        },
        Directive::Stop => AllForOneDecision {
            action: SupervisionAction::StopAll,
            kind: AllForOneDecisionKind::StopAllExplicit,
            affected_children: children,
            logged_directive: Some(Directive::Stop),
        },
        Directive::Escalate => AllForOneDecision {
            action: SupervisionAction::Escalate,
            kind: AllForOneDecisionKind::Escalate,
            affected_children: 0,
            logged_directive: None,
        },
    }
}

/// A strategy that applies the decision taken for one failed child to all
/// children of the supervisor.
#[derive(Debug, Clone, Copy, PartialEq, Eq, Structural)]
pub struct AllForOneStrategy {
    /// Restarts allowed inside the window; 0 means a restart request stops instead.
    pub max_nr_of_retries: u32,
    /// The window in nanoseconds; 0 means every recorded failure counts.
    pub within_duration_ns: u64,
}

impl AllForOneStrategy {
    /// A strategy allowing `max_nr_of_retries` restarts within `within_duration_ns`.
    pub fn new(max_nr_of_retries: u32, within_duration_ns: u64) -> (s: Self)
        ensures
            s.max_nr_of_retries == max_nr_of_retries,
            s.within_duration_ns == within_duration_ns,
    {
        AllForOneStrategy { max_nr_of_retries, within_duration_ns }
    }

    /// Records a failure at `now` and says whether the children must stop
    /// rather than restart; on a stop the history is cleared.  With no
    /// restart allowed the history is left as it is.
    pub fn should_stop(&self, rs: &mut RestartStatistics, now: u64) -> (r: bool)
        ensures
            r == stops(self.max_nr_of_retries, self.within_duration_ns, old(rs)@, now),
            self.max_nr_of_retries == 0 ==> final(rs)@ == old(rs)@,
            self.max_nr_of_retries > 0 ==> final(rs)@ == history_after(
                self.max_nr_of_retries,
                self.within_duration_ns,
                old(rs)@,
                now,
            ),
    {
        if self.max_nr_of_retries == 0 {
            true
        } else {
            rs.fail(now);
            let n = rs.number_of_failures(self.within_duration_ns, now);
            if n as u64 > self.max_nr_of_retries as u64 {
                rs.reset();
                true
            } else {
                false
            }
        }
    }

    /// Handles the failure of a child at `now`: `directive` is what the
    /// decider returned for the failure, `children` the number of children of
    /// the supervisor.  The history in `rs` is updated only for a restart
    /// request: cleared when the children stop, extended by `now` when they
    /// restart.
    pub fn handle_child_failure(
        &self,
        directive: Directive,
        rs: &mut RestartStatistics,
        now: u64,
        children: usize,
    ) -> (d: AllForOneDecision)
        ensures
            d == all_for_one_decision(
                self.max_nr_of_retries,
                self.within_duration_ns,
                directive,
                old(rs)@,
                now,
                children,
            ),
            directive == Directive::Restart ==> final(rs)@ == history_after(
                self.max_nr_of_retries,
                self.within_duration_ns,
                old(rs)@,
                now,
            ),
            directive != Directive::Restart ==> final(rs)@ == old(rs)@,
            d.action == SupervisionAction::StopAll ==> d.logged_directive == Some(Directive::Stop),
            d.action == SupervisionAction::RestartAll ==> d.logged_directive == Some(
                Directive::Restart,
            ),
            d.action == SupervisionAction::ResumeChild ==> d.logged_directive == Some(
                Directive::Resume,
            ),
            d.action == SupervisionAction::Escalate ==> d.logged_directive is None,
    {
        match directive {
            Directive::Resume => AllForOneDecision {
                action: SupervisionAction::ResumeChild,
                kind: AllForOneDecisionKind::Resume,
                affected_children: 1,
                logged_directive: Some(Directive::Resume),
            },
            Directive::Restart => {
                if self.max_nr_of_retries == 0 {
                    rs.reset();
                    AllForOneDecision {
                        action: SupervisionAction::StopAll,
                        kind: AllForOneDecisionKind::StopAll,
                        affected_children: children,
                        logged_directive: Some(Directive::Stop),
                    }
                } else if self.should_stop(rs, now) {
                    AllForOneDecision {
                        action: SupervisionAction::StopAll,
                        kind: AllForOneDecisionKind::StopAll,
                        affected_children: children,
                        logged_directive: Some(Directive::Stop),
                    }
                } else {
                    AllForOneDecision {
                        action: SupervisionAction::RestartAll,
                        kind: AllForOneDecisionKind::RestartAll,
                        affected_children: children,
                        logged_directive: Some(Directive::Restart),
                    }
                }
            },
            Directive::Stop => AllForOneDecision {
                action: SupervisionAction::StopAll,
                kind: AllForOneDecisionKind::StopAllExplicit,
                affected_children: children,
                logged_directive: Some(Directive::Stop),
            },
            Directive::Escalate => AllForOneDecision {
                action: SupervisionAction::Escalate,
                kind: AllForOneDecisionKind::Escalate,
                affected_children: 0,
                logged_directive: None,
            },
        }
    }
}

/// With every recorded failure counted (a zero window) and at least one
/// restart allowed, a restart request stops the children exactly when the
/// new failure brings the history above `max` failures.
pub proof fn lemma_restart_limit(max: u32, times: Seq<u64>, now: u64)
    requires
        max > 0,
    ensures
        stops(max, 0, times, now) <==> times.len() + 1 > max,
{
}

/// Stopping the children on a restart request clears the history, so with
/// at least one restart allowed the next restart request, at any time,
/// restarts them.
pub proof fn lemma_stop_clears_history(max: u32, within: u64, times: Seq<u64>, now: u64, later: u64)
    requires
        max > 0,
        stops(max, within, times, now),
    ensures
        history_after(max, within, times, now) == Seq::<u64>::empty(),
        !stops(max, within, history_after(max, within, times, now), later),
{
    let single = Seq::<u64>::empty().push(later);
    assert(single.drop_last() =~= Seq::<u64>::empty());
    assert(count_recent(single, within, later) <= 1) by {
        reveal_with_fuel(count_recent, 2);
    }
}

/// What an all-for-one supervisor does with a failure follows the decider's
/// directive: a resume resumes the failed child alone, a stop stops every
/// child, an escalation hands the failure up and touches no child, and a
/// restart restarts every child unless the restart limit is exceeded, when
/// every child is stopped.  The failure event it publishes carries the
/// directive of the action actually taken, and an escalation publishes none.
pub proof fn lemma_decision_follows_directive(
    max: u32,
    within: u64,
    directive: Directive,
    times: Seq<u64>,
    now: u64,
    children: usize,
)
    ensures
        ({
            let d = all_for_one_decision(max, within, directive, times, now, children);
            &&& directive == Directive::Resume ==> d.action == SupervisionAction::ResumeChild
                && d.affected_children == 1
            &&& directive == Directive::Stop ==> d.action == SupervisionAction::StopAll
                && d.kind == AllForOneDecisionKind::StopAllExplicit && d.affected_children
                == children
            &&& directive == Directive::Escalate ==> d.action == SupervisionAction::Escalate
                && d.affected_children == 0
            &&& directive == Directive::Restart ==> d.affected_children == children && (d.action
                == SupervisionAction::StopAll <==> stops(max, within, times, now)) && (d.action
                == SupervisionAction::RestartAll <==> !stops(max, within, times, now))
            &&& d.action == SupervisionAction::StopAll ==> d.logged_directive == Some(
                Directive::Stop,
            )
            &&& d.action == SupervisionAction::RestartAll ==> d.logged_directive == Some(
                Directive::Restart,
            )
            &&& d.action == SupervisionAction::ResumeChild ==> d.logged_directive == Some(
                Directive::Resume,
            )
            &&& d.action == SupervisionAction::Escalate ==> d.logged_directive is None
        }),
{
}

} // verus!
