//! What holds of every run of the code-development stage.

use crate::helpers::general::code_block;
use crate::models::agents::agent_backend::{
    backend_step, probe_url, AgentBackendDeveloperView, ServerStatus, WaitingView, MAX_BUGS,
    PROBE_TIMEOUT_SECONDS,
};
use crate::models::agents::agents_traits::{
    Abort, ActionView, EventView, FactSheetView, ProbeOutcomeView,
};
use crate::models::agents_basic::basic_agent::AgentState;
use vstd::prelude::*;

verus! {

/// The agent after a run of events, each handed over in turn.
pub open spec fn agent_after(
    agent: AgentBackendDeveloperView,
    sheet: FactSheetView,
    events: Seq<EventView>,
) -> AgentBackendDeveloperView
    decreases events.len(),
{
    if events.len() == 0 {
        agent
    } else {
        let (next, next_sheet, _) = backend_step(agent, sheet, events[0]);
        agent_after(next, next_sheet, events.drop_first())
    }
}

/// How often a run of events takes the agent from `Working` into
/// `UnitTesting`.
pub open spec fn testing_rounds(
    agent: AgentBackendDeveloperView,
    sheet: FactSheetView,
    events: Seq<EventView>,
) -> nat
    decreases events.len(),
{
    if events.len() == 0 {
        0
    } else {
        let (next, next_sheet, _) = backend_step(agent, sheet, events[0]);
        let entered: nat = if agent.attributes.state == AgentState::Working
            && next.attributes.state == AgentState::UnitTesting {
            1
        } else {
            0
        };
        entered + testing_rounds(next, next_sheet, events.drop_first())
    }
}

/// How many more times an agent can enter `UnitTesting`.
pub open spec fn rounds_left(agent: AgentBackendDeveloperView) -> nat {
    if agent.failure is Some {
        0
    } else {
        match agent.attributes.state {
            AgentState::Discovery => (MAX_BUGS + 1) as nat,
            AgentState::Working => (MAX_BUGS + 1 - agent.bug_count) as nat,
            AgentState::UnitTesting => if agent.waiting is Confirmation || agent.waiting is Build {
                (MAX_BUGS - agent.bug_count) as nat
            } else {
                0
            },
            AgentState::Finished => 0,
        }
    }
}

/// The states follow one another in one order only: `Discovery` is left for
/// `Working`, `Working` for `UnitTesting`, and `UnitTesting` either for
/// `Working`, which only a failed build brings about, or for `Finished`,
/// which only the end of a probe round does. `Finished` is never left.
pub proof fn lemma_states_follow_the_graph(
    agent: AgentBackendDeveloperView,
    sheet: FactSheetView,
    event: EventView,
)
    requires
        agent.wf(),
    ensures
        ({
            let next = backend_step(agent, sheet, event).0;
            let before = agent.attributes.state;
            let after = next.attributes.state;
            &&& before == AgentState::Discovery ==> after == AgentState::Discovery || after
                == AgentState::Working
            &&& before == AgentState::Working ==> after == AgentState::Working || after
                == AgentState::UnitTesting
            &&& before == AgentState::UnitTesting ==> after == AgentState::UnitTesting || after
                == AgentState::Working || after == AgentState::Finished
            &&& before == AgentState::Finished ==> after == AgentState::Finished
            &&& before == AgentState::UnitTesting && after == AgentState::Working ==> agent.waiting
                is Build && event is Built && !event->success
            &&& before == AgentState::UnitTesting && after == AgentState::Finished ==> agent.waiting
                is FinalKill && event is Killed
            &&& before != after ==> agent.failure is None && next.failure is None
        }),
{
}

/// After a generation whose answer holds a code block, the fact sheet holds
/// that block as the backend code, the same text that the step has stored
/// as the generated program; nothing else of the fact sheet changes, and
/// nothing of the count of failed builds or of what the last build said.
pub proof fn lemma_stored_code_is_the_extracted_code(
    agent: AgentBackendDeveloperView,
    sheet: FactSheetView,
    reply: Seq<char>,
)
    requires
        agent.failure is None,
        agent.waiting is Completion,
        code_block(reply) is Some,
    ensures
        ({
            let (next, next_sheet, step) = backend_step(agent, sheet, EventView::Text(reply));
            &&& step.action == ActionView::SaveCode(code_block(reply)->0)
            &&& next_sheet == (FactSheetView {
                backend_code: Some(code_block(reply)->0),
                ..sheet
            })
            &&& next.bug_count == agent.bug_count
            &&& next.bug_errors == agent.bug_errors
        }),
{
}

/// The count of failed builds moves only when a build has ended: up by one
/// when it failed, and to zero when it succeeded.
pub proof fn lemma_bug_count_follows_builds(
    agent: AgentBackendDeveloperView,
    sheet: FactSheetView,
    event: EventView,
)
    requires
        agent.wf(),
    ensures
        ({
            let next = backend_step(agent, sheet, event).0;
            let built = agent.failure is None && agent.waiting is Build && event is Built;
            &&& built && event->success ==> next.bug_count == 0
            &&& built && !event->success ==> next.bug_count == agent.bug_count + 1
            &&& !built ==> next.bug_count == agent.bug_count
        }),
{
}

/// A failed build sends the agent back to `Working` while the budget lasts,
/// and ends the run at the failure after that.
pub proof fn lemma_failed_build_loops_or_ends(
    agent: AgentBackendDeveloperView,
    sheet: FactSheetView,
    errors: Seq<char>,
)
    requires
        agent.wf(),
        agent.failure is None,
        agent.waiting is Build,
    ensures
        ({
            let (next, _, step) = backend_step(
                agent,
                sheet,
                EventView::Built { success: false, errors },
            );
            &&& next.bug_errors == Some(errors)
            &&& agent.bug_count < MAX_BUGS ==> next.failure is None && next.attributes.state
                == AgentState::Working
            &&& agent.bug_count == MAX_BUGS ==> next.failure == Some(Abort::TooManyBugs)
                && step.action == ActionView::Abort(Abort::TooManyBugs)
        }),
{
}

/// One step uses up as many of the rounds that are left as it enters.
proof fn lemma_round_budget_step(
    agent: AgentBackendDeveloperView,
    sheet: FactSheetView,
    event: EventView,
)
    requires
        agent.wf(),
    ensures
        ({
            let next = backend_step(agent, sheet, event).0;
            let entered: nat = if agent.attributes.state == AgentState::Working
                && next.attributes.state == AgentState::UnitTesting {
                1
            } else {
                0
            };
            &&& next.wf()
            &&& entered + rounds_left(next) <= rounds_left(agent)
        }),
{
}

/// No run of events takes a well-formed agent into `UnitTesting` more often
/// than its budget of builds allows.
pub proof fn lemma_rounds_within_budget(
    agent: AgentBackendDeveloperView,
    sheet: FactSheetView,
    events: Seq<EventView>,
)
    requires
        agent.wf(),
    ensures
        testing_rounds(agent, sheet, events) <= rounds_left(agent),
    decreases events.len(),
{
    if events.len() > 0 {
        let (next, next_sheet, _) = backend_step(agent, sheet, events[0]);
        lemma_round_budget_step(agent, sheet, events[0]);
        lemma_rounds_within_budget(next, next_sheet, events.drop_first());
    }
}

/// Whatever the driver hands over, an agent that starts in `Discovery` goes
/// from `Working` into `UnitTesting` four times at most: by then it has
/// finished or has given the run up.
pub proof fn lemma_at_most_four_rounds(
    agent: AgentBackendDeveloperView,
    sheet: FactSheetView,
    events: Seq<EventView>,
)
    requires
        agent.wf(),
        agent.attributes.state == AgentState::Discovery,
    ensures
        testing_rounds(agent, sheet, events) <= 4,
{
    lemma_rounds_within_budget(agent, sheet, events);
}

/// An agent that has used up its rounds and still waits for a build has no
/// way on but to finish or to give up: after one more failure the run is
/// over.
pub proof fn lemma_fourth_failure_is_fatal(
    agent: AgentBackendDeveloperView,
    sheet: FactSheetView,
    errors: Seq<char>,
)
    requires
        agent.wf(),
        agent.failure is None,
        agent.waiting is Build,
        rounds_left(agent) == 0,
    ensures
        backend_step(agent, sheet, EventView::Built { success: false, errors }).0.failure == Some(
            Abort::TooManyBugs,
        ),
{
}

/// The addresses of the probes that a run of events has the driver send, in
/// the order in which the steps ask for them.
pub open spec fn probes_sent(
    agent: AgentBackendDeveloperView,
    sheet: FactSheetView,
    events: Seq<EventView>,
) -> Seq<Seq<char>>
    decreases events.len(),
{
    if events.len() == 0 {
        Seq::empty()
    } else {
        let (next, next_sheet, step) = backend_step(agent, sheet, events[0]);
        let sent: Seq<Seq<char>> = match step.action {
            ActionView::Probe { url, timeout } => seq![url],
            _ => Seq::empty(),
        };
        sent + probes_sent(next, next_sheet, events.drop_first())
    }
}

/// The addresses of the endpoints of a round, from the one at `from` on.
pub open spec fn probe_urls(agent: AgentBackendDeveloperView, from: int) -> Seq<Seq<char>> {
    Seq::new(
        (agent.endpoints.len() - from) as nat,
        |k: int| probe_url(agent.endpoints[from + k].route),
    )
}

/// How many endpoints of the round have had their probe sent.
pub open spec fn probes_behind(agent: AgentBackendDeveloperView) -> int {
    match agent.waiting {
        WaitingView::Probe(index) => index + 1,
        WaitingView::ProbeKill(index) => index + 1,
        WaitingView::SchemaSaved => agent.endpoints.len() as int,
        _ => 0,
    }
}

/// Whether the agent is in its probe round: the warm-up is on, a probe is
/// out, or the last one is in.
pub open spec fn in_round(agent: AgentBackendDeveloperView) -> bool {
    agent.failure is None && (agent.waiting is WarmUp || agent.waiting is Probe
        || agent.waiting is ProbeKill || agent.waiting is SchemaSaved)
}

/// Every probe that a step asks for has the same limit of time, and goes to
/// the endpoint that the agent then waits for.
pub proof fn lemma_probe_is_timed(
    agent: AgentBackendDeveloperView,
    sheet: FactSheetView,
    event: EventView,
)
    requires
        agent.wf(),
    ensures
        ({
            let (next, _, step) = backend_step(agent, sheet, event);
            step.action matches ActionView::Probe { url, timeout } ==> {
                &&& timeout == PROBE_TIMEOUT_SECONDS
                &&& next.waiting matches WaitingView::Probe(index)
                &&& url == probe_url(next.endpoints[index as int].route)
            }
        }),
{
}

/// An answer with any status, 200 or not, is followed by the probe of the
/// next endpoint, and after the last endpoint by the storing of the schema:
/// no status ends the round early, and none ends the server.
pub proof fn lemma_status_does_not_stop_round(
    agent: AgentBackendDeveloperView,
    sheet: FactSheetView,
    index: int,
    status: u16,
)
    requires
        agent.wf(),
        agent.failure is None,
        agent.waiting == WaitingView::Probe(index),
    ensures
        ({
            let (next, _, step) = backend_step(
                agent,
                sheet,
                EventView::Probed(ProbeOutcomeView::Status(status)),
            );
            &&& next.failure is None
            &&& next.server == agent.server
            &&& next.endpoints == agent.endpoints
            &&& index + 1 < agent.endpoints.len() ==> next.waiting == WaitingView::Probe(
                index + 1,
            ) && step.action == (ActionView::Probe {
                url: probe_url(agent.endpoints[index + 1].route),
                timeout: PROBE_TIMEOUT_SECONDS,
            })
            &&& index + 1 == agent.endpoints.len() ==> next.waiting == WaitingView::SchemaSaved
                && step.action == ActionView::SaveEndpoints(agent.schema_text)
        }),
{
}

/// A probe that could not reach the server has the server ended at once.
/// While the server's handle can still be used the round then goes on as
/// after any other probe; otherwise it stops, and the schema is stored.
pub proof fn lemma_unreachable_ends_server(
    agent: AgentBackendDeveloperView,
    sheet: FactSheetView,
    index: int,
    detail: Seq<char>,
    usable: bool,
)
    requires
        agent.wf(),
        agent.failure is None,
        agent.waiting == WaitingView::Probe(index),
    ensures
        ({
            let (killed, killed_sheet, order) = backend_step(
                agent,
                sheet,
                EventView::Probed(ProbeOutcomeView::Unreachable(detail)),
            );
            let (next, _, step) = backend_step(killed, killed_sheet, EventView::Killed(usable));
            &&& order.action == ActionView::KillServer
            &&& killed.server == ServerStatus::Terminated
            &&& killed.failure is None
            &&& next.failure is None
            &&& next.endpoints == agent.endpoints
            &&& usable && index + 1 < agent.endpoints.len() ==> next.waiting == WaitingView::Probe(
                index + 1,
            ) && step.action == (ActionView::Probe {
                url: probe_url(agent.endpoints[index + 1].route),
                timeout: PROBE_TIMEOUT_SECONDS,
            })
            &&& !usable || index + 1 == agent.endpoints.len() ==> next.waiting
                == WaitingView::SchemaSaved && step.action == ActionView::SaveEndpoints(
                agent.schema_text,
            )
        }),
{
}

/// Whether no event of the run reports a server's handle that can no
/// longer be used.
pub open spec fn handles_stay_usable(events: Seq<EventView>) -> bool {
    forall|i: int| 0 <= i < events.len() ==> events[i] != EventView::Killed(false)
}

/// A run that has been given up stays given up.
proof fn lemma_failure_stays(
    agent: AgentBackendDeveloperView,
    sheet: FactSheetView,
    events: Seq<EventView>,
)
    requires
        agent.failure is Some,
    ensures
        agent_after(agent, sheet, events).failure is Some,
    decreases events.len(),
{
    if events.len() > 0 {
        let (next, next_sheet, _) = backend_step(agent, sheet, events[0]);
        lemma_failure_stays(next, next_sheet, events.drop_first());
    }
}

/// Past its probe round an agent never waits for the schema to be stored
/// again.
proof fn lemma_round_is_not_reentered(
    agent: AgentBackendDeveloperView,
    sheet: FactSheetView,
    events: Seq<EventView>,
)
    requires
        agent.wf(),
        agent.failure is None,
        agent.waiting is FinalKill || agent.waiting is Nothing,
    ensures
        !in_round(agent_after(agent, sheet, events)),
    decreases events.len(),
{
    if events.len() > 0 {
        let (next, next_sheet, _) = backend_step(agent, sheet, events[0]);
        if next.failure is Some {
            lemma_failure_stays(next, next_sheet, events.drop_first());
        } else {
            lemma_round_is_not_reentered(next, next_sheet, events.drop_first());
        }
    }
}

/// From any point of a probe round to its end, the probes that go out are
/// those of the endpoints that were still to come, one each, in their
/// order.
proof fn lemma_rest_of_round(
    agent: AgentBackendDeveloperView,
    sheet: FactSheetView,
    events: Seq<EventView>,
)
    requires
        agent.wf(),
        in_round(agent),
        in_round(agent_after(agent, sheet, events)),
        agent_after(agent, sheet, events).waiting is SchemaSaved,
        handles_stay_usable(events),
    ensures
        probes_sent(agent, sheet, events) == probe_urls(agent, probes_behind(agent)),
        agent_after(agent, sheet, events).endpoints == agent.endpoints,
    decreases events.len(),
{
    if events.len() > 0 {
        let (next, next_sheet, _) = backend_step(agent, sheet, events[0]);
        let rest = events.drop_first();
        assert(handles_stay_usable(rest)) by {
            assert forall|i: int| 0 <= i < rest.len() implies rest[i] != EventView::Killed(
                false,
            ) by {
                assert(rest[i] == events[i + 1]);
            }
        }
        if next.failure is Some {
            lemma_failure_stays(next, next_sheet, rest);
        } else if next.waiting is FinalKill || next.waiting is Nothing {
            lemma_round_is_not_reentered(next, next_sheet, rest);
        } else {
            lemma_rest_of_round(next, next_sheet, rest);
        }
    }
}

/// A probe round sends exactly one probe to each of its endpoints, in their
/// order, whatever each probe comes to: any run of events that takes the
/// agent from the warm-up to the end of the round, and in which the
/// server's handle stays usable, has the driver send the probes of all the
/// endpoints and no other.
pub proof fn lemma_round_probes_each_endpoint_once(
    agent: AgentBackendDeveloperView,
    sheet: FactSheetView,
    events: Seq<EventView>,
)
    requires
        agent.wf(),
        agent.failure is None,
        agent.waiting is WarmUp,
        agent_after(agent, sheet, events).failure is None,
        agent_after(agent, sheet, events).waiting is SchemaSaved,
        handles_stay_usable(events),
    ensures
        probes_sent(agent, sheet, events) == probe_urls(agent, 0),
        probes_sent(agent, sheet, events).len() == agent.endpoints.len(),
{
    lemma_rest_of_round(agent, sheet, events);
}

/// What the agent knows of the server only moves forward: from absent to
/// running when the server has been started, and from running to
/// terminated with the step that orders its end. It is never started twice
/// and never runs again once its end was ordered.
pub proof fn lemma_server_is_ended_once(
    agent: AgentBackendDeveloperView,
    sheet: FactSheetView,
    event: EventView,
)
    requires
        agent.wf(),
    ensures
        ({
            let (next, _, step) = backend_step(agent, sheet, event);
            &&& agent.server == ServerStatus::Absent ==> next.server != ServerStatus::Terminated
            &&& agent.server == ServerStatus::Terminated ==> next.server
                == ServerStatus::Terminated
            &&& agent.server == ServerStatus::Running && next.server == ServerStatus::Terminated
                ==> step.action == ActionView::KillServer
            &&& agent.server == ServerStatus::Absent && next.server == ServerStatus::Running
                ==> agent.waiting is Server && event is Done
            &&& agent.server == ServerStatus::Running ==> next.server != ServerStatus::Absent
        }),
{
}

/// How often a run of events has the server started.
pub open spec fn server_starts(
    agent: AgentBackendDeveloperView,
    sheet: FactSheetView,
    events: Seq<EventView>,
) -> nat
    decreases events.len(),
{
    if events.len() == 0 {
        0
    } else {
        let (next, next_sheet, _) = backend_step(agent, sheet, events[0]);
        let started: nat = if agent.server == ServerStatus::Absent && next.server
            == ServerStatus::Running {
            1
        } else {
            0
        };
        started + server_starts(next, next_sheet, events.drop_first())
    }
}

/// How often a run of events has a running server ended.
pub open spec fn server_ends(
    agent: AgentBackendDeveloperView,
    sheet: FactSheetView,
    events: Seq<EventView>,
) -> nat
    decreases events.len(),
{
    if events.len() == 0 {
        0
    } else {
        let (next, next_sheet, _) = backend_step(agent, sheet, events[0]);
        let ended: nat = if agent.server == ServerStatus::Running && next.server
            == ServerStatus::Terminated {
            1
        } else {
            0
        };
        ended + server_ends(next, next_sheet, events.drop_first())
    }
}

/// Over any run, the starts and the ends of the server can be read off what
/// the agent knows of it before and after: it is started once if it was
/// absent and no longer is, and ended once if it had not been ended and now
/// has, and otherwise not at all.
pub proof fn lemma_server_starts_and_ends(
    agent: AgentBackendDeveloperView,
    sheet: FactSheetView,
    events: Seq<EventView>,
)
    requires
        agent.wf(),
    ensures
        ({
            let last = agent_after(agent, sheet, events);
            &&& last.wf()
            &&& agent.server != ServerStatus::Absent ==> last.server != ServerStatus::Absent
            &&& agent.server == ServerStatus::Terminated ==> last.server
                == ServerStatus::Terminated
            &&& server_starts(agent, sheet, events) == if agent.server == ServerStatus::Absent
                && last.server != ServerStatus::Absent {
                1nat
            } else {
                0nat
            }
            &&& server_ends(agent, sheet, events) == if agent.server != ServerStatus::Terminated
                && last.server == ServerStatus::Terminated {
                1nat
            } else {
                0nat
            }
        }),
    decreases events.len(),
{
    if events.len() > 0 {
        let (next, next_sheet, _) = backend_step(agent, sheet, events[0]);
        lemma_server_is_ended_once(agent, sheet, events[0]);
        lemma_server_starts_and_ends(next, next_sheet, events.drop_first());
    }
}

/// Over any run of an agent that has no server yet, the server is started
/// once at most, and by the time the agent has finished or the run was
/// given up a server that was started has been ended exactly once: never
/// twice, and never not at all.
pub proof fn lemma_started_server_is_ended_exactly_once(
    agent: AgentBackendDeveloperView,
    sheet: FactSheetView,
    events: Seq<EventView>,
)
    requires
        agent.wf(),
        agent.server == ServerStatus::Absent,
    ensures
        server_starts(agent, sheet, events) <= 1,
        server_ends(agent, sheet, events) <= server_starts(agent, sheet, events),
        ({
            let last = agent_after(agent, sheet, events);
            last.failure is Some || last.attributes.state == AgentState::Finished ==> server_ends(
                agent,
                sheet,
                events,
            ) == server_starts(agent, sheet, events)
        }),
{
    lemma_server_starts_and_ends(agent, sheet, events);
}

/// No server is left running when the agent leaves `UnitTesting`: not when
/// it has finished, not when the run was given up, and not while code is
/// written, before or after a build that failed. A step that tells the
/// driver to finish or to give up is never taken with a server running.
pub proof fn lemma_no_server_outlives_testing(
    agent: AgentBackendDeveloperView,
    sheet: FactSheetView,
    event: EventView,
)
    requires
        agent.wf(),
    ensures
        agent.attributes.state != AgentState::UnitTesting || agent.failure is Some ==> agent.server
            != ServerStatus::Running,
        agent.failure is None && agent.attributes.state == AgentState::Finished ==> agent.server
            == ServerStatus::Terminated,
        ({
            let (next, _, step) = backend_step(agent, sheet, event);
            step.action is Finish || step.action is Abort ==> next.server != ServerStatus::Running
        }),
{
}

/// Ordering the end of a server that was ended before is no fault: after a
/// probe that could not reach it, the round still closes with the order to
/// end it, and the agent finishes whatever comes of that order.
pub proof fn lemma_second_kill_is_harmless(
    agent: AgentBackendDeveloperView,
    sheet: FactSheetView,
    usable: bool,
)
    requires
        agent.wf(),
        agent.failure is None,
        agent.waiting is SchemaSaved,
        agent.server == ServerStatus::Terminated,
    ensures
        ({
            let (killed, killed_sheet, order) = backend_step(agent, sheet, EventView::Done);
            let (next, _, step) = backend_step(killed, killed_sheet, EventView::Killed(usable));
            &&& order.action == ActionView::KillServer
            &&& killed.failure is None
            &&& next.failure is None
            &&& next.attributes.state == AgentState::Finished
            &&& step.action == ActionView::Finish
        }),
{
}

} // verus!
