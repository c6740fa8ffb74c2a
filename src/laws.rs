use vstd::prelude::*;
use crate::routes::{probe_targets, route_paths, RouteObject};
use crate::agent::{
    apply, next, wf, Action, AgentState, AgentView, Event, FatalError, GenerationMode,
    ProbeOutcome, ValidationStep, PROBE_TIMEOUT_SECONDS, RETRY_LIMIT, WARM_UP_SECONDS,
};

verus! {

/// The agent in state `v` after it observes the events `es` one by one, and
/// the work it asked for after each.
pub open spec fn run(v: AgentView, es: Seq<Event>) -> (AgentView, Seq<Action>)
    decreases es.len(),
{
    if es.len() == 0 {
        (v, Seq::empty())
    } else {
        let (w, a) = next(v, es[0]);
        let (u, rest) = run(w, es.drop_first());
        (u, seq![a] + rest)
    }
}

/// One failed attempt: the build fails with `stderr`, the dependency update
/// succeeds, the generator hands back `code`, and the operator agrees to run it.
pub open spec fn failed_attempt(v: AgentView, stderr: String, code: String) -> AgentView {
    let a = apply(v, Event::BuildFinished { success: false, stderr });
    let b = apply(a, Event::DependenciesUpdated { success: true });
    let c = apply(b, Event::Generated(code));
    apply(c, Event::Confirmed(true))
}

/// The agent after one failed attempt for each of `errs`.
pub open spec fn failed_attempts(v: AgentView, errs: Seq<String>, code: String) -> AgentView
    decreases errs.len(),
{
    if errs.len() == 0 {
        v
    } else {
        failed_attempts(failed_attempt(v, errs[0], code), errs.drop_first(), code)
    }
}

/// How many of `acts` ask to stop the server.
pub open spec fn terminations(acts: Seq<Action>) -> nat
    decreases acts.len(),
{
    if acts.len() == 0 {
        0
    } else {
        (if acts[0] == Action::TerminateServer {
            1nat
        } else {
            0nat
        }) + terminations(acts.drop_first())
    }
}

/// The probe results `outs` as events.
pub open spec fn probe_events(outs: Seq<ProbeOutcome>) -> Seq<Event> {
    outs.map_values(|o: ProbeOutcome| Event::Probed(o))
}

/// Once a run has failed, every event leaves the agent as it is and it asks
/// only to abort.
pub proof fn lemma_fatal_is_final(v: AgentView, es: Seq<Event>)
    requires
        v.fatal.is_some(),
    ensures
        run(v, es).0 == v,
        forall|i: int| 0 <= i < es.len() ==> run(v, es).1[i] == Action::Abort(v.fatal->0),
        run(v, es).1.len() == es.len(),
    decreases es.len(),
{
    if es.len() > 0 {
        lemma_fatal_is_final(v, es.drop_first());
    }
}

/// An operator who declines to run the generated code ends the run: whatever
/// follows, no build, server start or probe is asked for.
pub proof fn lemma_declined_confirmation(v: AgentView, es: Seq<Event>)
    requires
        wf(v),
        v.fatal.is_none(),
        v.state == AgentState::UnitTesting,
        v.step == ValidationStep::AwaitingConfirmation,
    ensures
        next(v, Event::Confirmed(false)).1 == Action::Abort(FatalError::SafetyDeclined),
        forall|i: int|
            0 <= i < es.len() ==> run(next(v, Event::Confirmed(false)).0, es).1[i]
                == Action::Abort(FatalError::SafetyDeclined),
{
    lemma_fatal_is_final(next(v, Event::Confirmed(false)).0, es);
}

proof fn lemma_failed_attempts_after_fatal(v: AgentView, errs: Seq<String>, code: String)
    requires
        v.fatal.is_some(),
    ensures
        failed_attempts(v, errs, code) == v,
    decreases errs.len(),
{
    if errs.len() > 0 {
        lemma_failed_attempts_after_fatal(v, errs.drop_first(), code);
    }
}

/// Build failures are retried while their count stays within the retry limit,
/// and the run fails as soon as the count exceeds it: starting from a build
/// with `count` earlier failures, a series of failed attempts ends the run
/// exactly when `count` plus their number is past the limit; until then the
/// agent is back at the build with the count raised and the last error kept.
pub proof fn lemma_retry_limit(v: AgentView, errs: Seq<String>, code: String)
    requires
        wf(v),
        v.fatal.is_none(),
        v.state == AgentState::UnitTesting,
        v.step == ValidationStep::Building,
    ensures
        ({
            let w = failed_attempts(v, errs, code);
            &&& (v.bug_count + errs.len() > RETRY_LIMIT) == (w.fatal == Some(
                FatalError::TooManyBugs,
            ))
            &&& v.bug_count + errs.len() <= RETRY_LIMIT ==> {
                &&& w.fatal.is_none()
                &&& w.bug_count == v.bug_count + errs.len()
                &&& w.state == AgentState::UnitTesting
                &&& w.step == ValidationStep::Building
                &&& errs.len() > 0 ==> w.bug_errors == Some(errs.last())
            }
        }),
    decreases errs.len(),
{
    if errs.len() > 0 {
        let u = failed_attempt(v, errs[0], code);
        if v.bug_count + 1 > RETRY_LIMIT {
            lemma_failed_attempts_after_fatal(u, errs.drop_first(), code);
        } else {
            lemma_retry_limit(u, errs.drop_first(), code);
            if errs.len() > 1 {
                assert(errs.drop_first().last() == errs.last());
            }
        }
    }
}

/// A failed build below the limit sends the agent back to fix the code with
/// the build's error output.
pub proof fn lemma_failed_build_asks_for_fix(v: AgentView, stderr: String)
    requires
        wf(v),
        v.fatal.is_none(),
        v.state == AgentState::UnitTesting,
        v.step == ValidationStep::Building,
        v.bug_count + 1 <= RETRY_LIMIT,
    ensures
        ({
            let (a, _) = next(v, Event::BuildFinished { success: false, stderr });
            let (b, act) = next(a, Event::DependenciesUpdated { success: true });
            &&& act == Action::Generate(GenerationMode::Fix)
            &&& b.bug_errors == Some(stderr)
            &&& b.state == AgentState::Working
        }),
{
}

proof fn lemma_terminations_cons(a: Action, rest: Seq<Action>)
    ensures
        terminations(seq![a] + rest) == (if a == Action::TerminateServer {
            1nat
        } else {
            0nat
        }) + terminations(rest),
{
    assert((seq![a] + rest).drop_first() == rest);
}

proof fn lemma_probing(v: AgentView, outs: Seq<ProbeOutcome>)
    requires
        wf(v),
        v.fatal.is_none(),
        v.state == AgentState::UnitTesting,
        v.step == ValidationStep::Probing,
        v.next_probe + outs.len() == v.routes.len(),
    ensures
        ({
            let (u, acts) = run(v, probe_events(outs));
            &&& terminations(acts) == 1
            &&& acts.len() == outs.len()
            &&& acts.last() == Action::TerminateServer
            &&& forall|i: int|
                0 <= i < outs.len() - 1 ==> #[trigger] acts[i] == Action::Probe {
                    route: v.routes[v.next_probe + i + 1],
                    timeout_seconds: PROBE_TIMEOUT_SECONDS,
                }
            &&& u.fatal.is_none()
            &&& u.state == AgentState::UnitTesting
            &&& u.step == ValidationStep::Terminating
        }),
    decreases outs.len(),
{
    let es = probe_events(outs);
    assert(es[0] == Event::Probed(outs[0]));
    assert(es.drop_first() == probe_events(outs.drop_first()));
    let (w, a) = next(v, es[0]);
    let (u, rest) = run(w, es.drop_first());
    lemma_terminations_cons(a, rest);
    if outs.len() > 1 {
        lemma_probing(w, outs.drop_first());
        assert(a != Action::TerminateServer);
        assert forall|i: int| 0 <= i < outs.len() - 1 implies #[trigger] (seq![a] + rest)[i]
            == Action::Probe {
            route: v.routes[v.next_probe + i + 1],
            timeout_seconds: PROBE_TIMEOUT_SECONDS,
        } by {
            if i > 0 {
                assert((seq![a] + rest)[i] == rest[i - 1]);
            }
        }
    } else {
        assert(es.drop_first().len() == 0);
        assert(seq![a] + rest == seq![a]);
    }
}

/// Every validation that reaches its probes stops the server exactly once,
/// after the last probe, however many probes failed; the run then finishes.
pub proof fn lemma_server_stopped_once(v: AgentView, outs: Seq<ProbeOutcome>)
    requires
        wf(v),
        v.fatal.is_none(),
        v.state == AgentState::UnitTesting,
        v.step == ValidationStep::WarmingUp,
        outs.len() == v.routes.len(),
    ensures
        ({
            let (w, first) = next(v, Event::WarmedUp);
            let (u, acts) = run(w, probe_events(outs));
            let all = seq![first] + acts;
            &&& terminations(all) == 1
            &&& all.last() == Action::TerminateServer
            &&& next(u, Event::ServerTerminated).0.state == AgentState::Finished
            &&& next(u, Event::ServerTerminated).1 == Action::Finish
        }),
{
    let (w, first) = next(v, Event::WarmedUp);
    let (u, acts) = run(w, probe_events(outs));
    lemma_terminations_cons(first, acts);
    if outs.len() > 0 {
        lemma_probing(w, outs);
    } else {
        assert(probe_events(outs).len() == 0);
        assert(seq![first] + acts == seq![first]);
    }
}

/// Once a decoded schema is in, the server is started, given its warm-up,
/// and then exactly the schema's static `GET` routes are probed, each once,
/// in the schema's order and with the probe timeout, whatever each probe
/// returns; the server is stopped once, after the last probe, and the run
/// finishes.
pub proof fn lemma_schema_probed_in_order(
    v: AgentView,
    schema: Vec<RouteObject>,
    outs: Seq<ProbeOutcome>,
)
    requires
        wf(v),
        v.fatal.is_none(),
        v.state == AgentState::UnitTesting,
        v.step == ValidationStep::ExtractingEndpoints,
        outs.len() == probe_targets(schema@).len(),
    ensures
        ({
            let paths = route_paths(probe_targets(schema@));
            let (w0, a0) = next(v, Event::EndpointsExtracted(schema));
            let (w1, a1) = next(w0, Event::ServerStarted);
            let (w2, first) = next(w1, Event::WarmedUp);
            let (u, acts) = run(w2, probe_events(outs));
            let all = seq![first] + acts;
            &&& a0 == Action::StartServer
            &&& a1 == (Action::WarmUp { seconds: WARM_UP_SECONDS })
            &&& all.len() == paths.len() + 1
            &&& forall|i: int|
                0 <= i < paths.len() ==> #[trigger] all[i] == Action::Probe {
                    route: paths[i],
                    timeout_seconds: PROBE_TIMEOUT_SECONDS,
                }
            &&& all[paths.len() as int] == Action::TerminateServer
            &&& terminations(all) == 1
            &&& next(u, Event::ServerTerminated).0.state == AgentState::Finished
            &&& next(u, Event::ServerTerminated).1 == Action::Finish
        }),
{
    let paths = route_paths(probe_targets(schema@));
    let (w0, a0) = next(v, Event::EndpointsExtracted(schema));
    let (w1, a1) = next(w0, Event::ServerStarted);
    let (w2, first) = next(w1, Event::WarmedUp);
    let (u, acts) = run(w2, probe_events(outs));
    lemma_server_stopped_once(w1, outs);
    if outs.len() > 0 {
        lemma_probing(w2, outs);
        assert forall|i: int| 0 <= i < paths.len() implies #[trigger] (seq![first] + acts)[i]
            == Action::Probe { route: paths[i], timeout_seconds: PROBE_TIMEOUT_SECONDS } by {
            if i > 0 {
                assert((seq![first] + acts)[i] == acts[i - 1]);
            }
        }
    } else {
        assert(probe_events(outs).len() == 0);
    }
}

/// A clean build, after any earlier failures within the limit, forgets them:
/// the count goes back to zero, the last error is dropped, and the endpoints
/// are asked for next.
pub proof fn lemma_clean_build_resets(v: AgentView, stderr: String)
    requires
        wf(v),
        v.fatal.is_none(),
        v.state == AgentState::UnitTesting,
        v.step == ValidationStep::Building,
    ensures
        ({
            let (w, a) = next(v, Event::BuildFinished { success: true, stderr });
            &&& w.bug_count == 0
            &&& w.bug_errors.is_none()
            &&& w.step == ValidationStep::ExtractingEndpoints
            &&& a == Action::ExtractEndpoints
        }),
{
}

} // verus!
