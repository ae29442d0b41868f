//! Properties that hold across the engine's handlers, proved from their
//! contracts.

use vstd::prelude::*;
use common_game::components::planet::PlanetState;
use common_game::protocols::orchestrator_planet::{OrchestratorToPlanet, PlanetToOrchestrator};
use common_game::protocols::planet_explorer::{ExplorerToPlanet, PlanetToExplorer};
use common_game::components::resource::{Combinator, Generator};
use crate::cells::charged_count;
use crate::game::{planet_cells, planet_has_rocket, planet_rocket_allowed};
use crate::orbitron::{asteroid_effect, explorer_reply, orchestrator_reply};

verus! {

/// A rocket is stored only on a planet type that allows one.
pub open spec fn planet_consistent(s: PlanetState) -> bool {
    planet_has_rocket(s) ==> planet_rocket_allowed(s)
}

/// The orchestrator's message was a sunray that a cell absorbed.
pub open spec fn sunray_absorbed(msg: OrchestratorToPlanet, r: Option<PlanetToOrchestrator>) -> bool {
    msg is Sunray && r is None
}

/// The orchestrator's message was an asteroid against which the planet built
/// a new rocket (rather than handing out one it already had).
pub open spec fn rocket_built(before: PlanetState, msg: OrchestratorToPlanet, r: Option<PlanetToOrchestrator>) -> bool {
    &&& msg is Asteroid
    &&& !planet_has_rocket(before)
    &&& match r {
        Some(PlanetToOrchestrator::AsteroidAck { rocket, .. }) => rocket is Some,
        _ => false,
    }
}

/// The explorer's request produced a resource.
pub open spec fn resource_made(r: Option<PlanetToExplorer>) -> bool {
    match r {
        Some(PlanetToExplorer::GenerateResourceResponse { resource }) => resource is Some,
        Some(PlanetToExplorer::CombineResourceResponse { complex_response }) => complex_response is Ok,
        _ => false,
    }
}

/// Cell conservation, orchestrator side: the number of charged cells rises by
/// one exactly when a sunray is absorbed, falls by one exactly when an
/// asteroid makes the planet build a rocket, and otherwise stays the same.
pub proof fn law_orchestrator_conserves_cells(
    before: PlanetState,
    after: PlanetState,
    was_running: bool,
    now_running: bool,
    msg: OrchestratorToPlanet,
    r: Option<PlanetToOrchestrator>,
)
    requires
        orchestrator_reply(before, after, was_running, now_running, msg, r),
    ensures
        charged_count(planet_cells(after)) + (if rocket_built(before, msg, r) { 1int } else { 0int })
            == charged_count(planet_cells(before)) + (if sunray_absorbed(msg, r) { 1int } else { 0int }),
{
}

/// Cell conservation, explorer side: the number of charged cells falls by one
/// exactly when a generation or a combination succeeds, and otherwise stays
/// the same; no explorer request charges a cell.
pub proof fn law_explorer_conserves_cells(
    before: PlanetState,
    after: PlanetState,
    generator: Generator,
    combinator: Combinator,
    msg: ExplorerToPlanet,
    r: Option<PlanetToExplorer>,
)
    requires
        explorer_reply(before, after, generator, combinator, msg, r),
    ensures
        charged_count(planet_cells(after)) + (if resource_made(r) { 1int } else { 0int })
            == charged_count(planet_cells(before)),
{
}

/// No orchestrator message leaves a rocket stored on a planet type that
/// forbids one.
pub proof fn law_orchestrator_keeps_consistency(
    before: PlanetState,
    after: PlanetState,
    was_running: bool,
    now_running: bool,
    msg: OrchestratorToPlanet,
    r: Option<PlanetToOrchestrator>,
)
    requires
        orchestrator_reply(before, after, was_running, now_running, msg, r),
        planet_consistent(before),
    ensures
        planet_consistent(after),
{
}

/// No explorer message leaves a rocket stored on a planet type that forbids
/// one.
pub proof fn law_explorer_keeps_consistency(
    before: PlanetState,
    after: PlanetState,
    generator: Generator,
    combinator: Combinator,
    msg: ExplorerToPlanet,
    r: Option<PlanetToExplorer>,
)
    requires
        explorer_reply(before, after, generator, combinator, msg, r),
        planet_consistent(before),
    ensures
        planet_consistent(after),
{
}

/// A planet type without rockets never survives an asteroid, whatever its
/// cells hold, and the asteroid touches no cell.
pub proof fn law_no_rocket_type_is_lost(before: PlanetState, after: PlanetState, got: bool)
    requires
        asteroid_effect(before, after, got),
        planet_consistent(before),
        !planet_rocket_allowed(before),
    ensures
        !got,
        planet_cells(after) == planet_cells(before),
{
}

/// A stored rocket is handed out against an asteroid without touching any
/// cell.
pub proof fn law_stored_rocket_is_handed_out(before: PlanetState, after: PlanetState, got: bool)
    requires
        asteroid_effect(before, after, got),
        planet_has_rocket(before),
    ensures
        got,
        planet_cells(after) == planet_cells(before),
        !planet_has_rocket(after),
{
}

/// One message that the engine handled, with its reply; for an orchestrator
/// message also whether the engine ran before and after it.
pub enum Exchange {
    Orchestrator(OrchestratorToPlanet, Option<PlanetToOrchestrator>, bool, bool),
    Explorer(ExplorerToPlanet, Option<PlanetToExplorer>),
}

/// `e` is what the engine does when it takes the planet from `before` to `after`.
pub open spec fn exchange_holds(
    before: PlanetState,
    after: PlanetState,
    generator: Generator,
    combinator: Combinator,
    e: Exchange,
) -> bool {
    match e {
        Exchange::Orchestrator(msg, r, was_running, now_running) => orchestrator_reply(
            before,
            after,
            was_running,
            now_running,
            msg,
            r,
        ),
        Exchange::Explorer(msg, r) => explorer_reply(before, after, generator, combinator, msg, r),
    }
}

/// How the charged count moves in one exchange: up by one for an absorbed
/// sunray, down by one for a built rocket or a produced resource.
pub open spec fn exchange_delta(before: PlanetState, e: Exchange) -> int {
    match e {
        Exchange::Orchestrator(msg, r, _, _) => (if sunray_absorbed(msg, r) { 1int } else { 0int })
            - (if rocket_built(before, msg, r) { 1int } else { 0int }),
        Exchange::Explorer(_, r) => if resource_made(r) { -1int } else { 0int },
    }
}

/// `states` are the planet states between the exchanges of `log`, in order.
pub open spec fn history_holds(
    states: Seq<PlanetState>,
    generator: Generator,
    combinator: Combinator,
    log: Seq<Exchange>,
) -> bool {
    &&& states.len() == log.len() + 1
    &&& forall|i: int|
        0 <= i < log.len() ==> exchange_holds(
            #[trigger] states[i],
            states[i + 1],
            generator,
            combinator,
            log[i],
        )
}

/// The sum of the charged-count moves of the first `n` exchanges of `log`.
pub open spec fn history_delta(states: Seq<PlanetState>, log: Seq<Exchange>, n: nat) -> int
    decreases n,
{
    if n == 0 {
        0
    } else {
        history_delta(states, log, (n - 1) as nat) + exchange_delta(states[n - 1], log[n - 1])
    }
}

/// Cell conservation over any history: after any sequence of messages, the
/// charged count is the initial one, plus one for each absorbed sunray, minus
/// one for each built rocket and each produced resource; nothing else moves it.
pub proof fn law_history_conserves_cells(
    states: Seq<PlanetState>,
    generator: Generator,
    combinator: Combinator,
    log: Seq<Exchange>,
)
    requires
        history_holds(states, generator, combinator, log),
    ensures
        charged_count(planet_cells(states.last())) == charged_count(planet_cells(states[0]))
            + history_delta(states, log, log.len()),
    decreases log.len(),
{
    if log.len() > 0 {
        let n = (log.len() - 1) as int;
        let prefix_states = states.take(n + 1);
        let prefix_log = log.take(n);
        assert forall|i: int| 0 <= i < prefix_log.len() implies exchange_holds(
            #[trigger] prefix_states[i],
            prefix_states[i + 1],
            generator,
            combinator,
            prefix_log[i],
        ) by {
            assert(exchange_holds(states[i], states[i + 1], generator, combinator, log[i]));
        }
        law_history_conserves_cells(prefix_states, generator, combinator, prefix_log);
        lemma_history_delta_prefix(states, log, prefix_states, prefix_log, n as nat);
        assert(exchange_holds(states[n], states[n + 1], generator, combinator, log[n]));
        match log[n] {
            Exchange::Orchestrator(msg, r, was_running, now_running) => {
                law_orchestrator_conserves_cells(states[n], states[n + 1], was_running, now_running, msg, r);
            },
            Exchange::Explorer(msg, r) => {
                law_explorer_conserves_cells(states[n], states[n + 1], generator, combinator, msg, r);
            },
        }
    }
}

/// The moves of a history's first `n` exchanges depend on nothing after them.
proof fn lemma_history_delta_prefix(
    states: Seq<PlanetState>,
    log: Seq<Exchange>,
    prefix_states: Seq<PlanetState>,
    prefix_log: Seq<Exchange>,
    n: nat,
)
    requires
        n <= prefix_log.len(),
        prefix_log.len() <= log.len(),
        prefix_log.len() < prefix_states.len() <= states.len(),
        forall|i: int| 0 <= i < prefix_log.len() ==> prefix_log[i] == log[i],
        forall|i: int| 0 <= i < prefix_states.len() ==> prefix_states[i] == states[i],
    ensures
        history_delta(prefix_states, prefix_log, n) == history_delta(states, log, n),
    decreases n,
{
    if n > 0 {
        lemma_history_delta_prefix(states, log, prefix_states, prefix_log, (n - 1) as nat);
    }
}

} // verus!
