//! The Orbitron planet's decision engine: how it answers the orchestrator and
//! the explorers, spends its energy cells, and tries to survive an asteroid.
//!
//! The engine owns no planet data: every handler takes the planet state (and,
//! where it needs them, the generator and the combinator) by reference. Its
//! own state is the lifecycle flag.

use vstd::prelude::*;
use vstd::string::StringExecFns;
use common_game::components::planet::{DummyPlanetState, PlanetState};
use common_game::components::resource::{
    BasicResource, BasicResourceType, Combinator, ComplexResource, ComplexResourceRequest,
    ComplexResourceType, Generator, GenericResource,
};
use common_game::components::rocket::Rocket;
use common_game::components::sunray::Sunray;
use common_game::protocols::orchestrator_planet::{OrchestratorToPlanet, PlanetToOrchestrator};
use common_game::protocols::planet_explorer::{ExplorerToPlanet, PlanetToExplorer};
use crate::cells::{
    charged_count, has_cell, is_first, lemma_count_bound, lemma_count_prefix,
    lemma_count_update, lemma_first_unique, switch_first,
};
use crate::game::{
    basic_kind, cell_is_charged, combinator_recipes, combine_with_cell, complex_kind,
    first_full_cell, generate_with_cell, generator_recipes, planet_cells, planet_has_rocket,
    planet_id, planet_rocket_allowed, request_inputs, request_kind,
};

verus! {

/// The identity and the rocket permission stay as they were.
pub open spec fn same_planet(a: PlanetState, b: PlanetState) -> bool {
    &&& planet_id(a) == planet_id(b)
    &&& planet_rocket_allowed(a) == planet_rocket_allowed(b)
}

/// What a sunray does: it charges the first empty cell when there is one
/// (`absorbed`), and otherwise changes nothing.
pub open spec fn sunray_effect(before: PlanetState, after: PlanetState, absorbed: bool) -> bool {
    &&& same_planet(before, after)
    &&& planet_has_rocket(after) == planet_has_rocket(before)
    &&& absorbed == has_cell(planet_cells(before), false)
    &&& planet_cells(after) == if absorbed {
        switch_first(planet_cells(before), true)
    } else {
        planet_cells(before)
    }
    &&& charged_count(planet_cells(after)) == charged_count(planet_cells(before)) + if absorbed {
        1nat
    } else {
        0nat
    }
}

/// What a generation request for `kind` does: with a charged cell and a
/// recipe for `kind`, it yields a `kind` resource and discharges the first
/// charged cell; otherwise it yields nothing and changes nothing.
pub open spec fn generate_effect(
    before: PlanetState,
    after: PlanetState,
    generator: Generator,
    kind: BasicResourceType,
    r: Option<BasicResource>,
) -> bool {
    &&& same_planet(before, after)
    &&& planet_has_rocket(after) == planet_has_rocket(before)
    &&& r is Some <==> has_cell(planet_cells(before), true) && generator_recipes(generator).contains(kind)
    &&& r is Some ==> basic_kind(r->Some_0) == kind
        && planet_cells(after) == switch_first(planet_cells(before), false)
    &&& r is None ==> planet_cells(after) == planet_cells(before)
    &&& charged_count(planet_cells(after)) + (if r is Some { 1nat } else { 0nat })
        == charged_count(planet_cells(before))
}

/// What a combination request does: with a recipe for the requested type and
/// a charged cell, it yields that resource and discharges the first charged
/// cell; otherwise it fails with the reason, hands both inputs back unchanged,
/// and changes nothing.
pub open spec fn combine_effect(
    before: PlanetState,
    after: PlanetState,
    combinator: Combinator,
    req: ComplexResourceRequest,
    r: Result<ComplexResource, (String, GenericResource, GenericResource)>,
) -> bool {
    let supported = combinator_recipes(combinator).contains(request_kind(req));
    &&& same_planet(before, after)
    &&& planet_has_rocket(after) == planet_has_rocket(before)
    &&& r is Ok <==> supported && has_cell(planet_cells(before), true)
    &&& r is Ok ==> complex_kind(r->Ok_0) == request_kind(req)
        && planet_cells(after) == switch_first(planet_cells(before), false)
    &&& r is Err ==> planet_cells(after) == planet_cells(before)
        && (r->Err_0.1, r->Err_0.2) == request_inputs(req)
    &&& !supported ==> r is Err && r->Err_0.0@ == unsupported_reason(request_kind(req))
    &&& supported && !has_cell(planet_cells(before), true)
        ==> r is Err && r->Err_0.0@ == no_cell_reason()
    &&& charged_count(planet_cells(after)) + (if r is Ok { 1nat } else { 0nat })
        == charged_count(planet_cells(before))
}

/// What an asteroid does: a stored rocket is handed out as it is; otherwise,
/// on a planet type that allows rockets, the first charged cell is spent on a
/// rocket that is handed out (`got`); otherwise nothing is handed out and
/// nothing changes. No rocket stays stored.
pub open spec fn asteroid_effect(before: PlanetState, after: PlanetState, got: bool) -> bool {
    let built = got && !planet_has_rocket(before);
    &&& same_planet(before, after)
    &&& !planet_has_rocket(after)
    &&& planet_has_rocket(before) ==> got
    &&& !planet_has_rocket(before) && !planet_rocket_allowed(before) ==> !got
    &&& !planet_has_rocket(before) && planet_rocket_allowed(before)
        ==> got == has_cell(planet_cells(before), true)
    &&& planet_cells(after) == if built {
        switch_first(planet_cells(before), false)
    } else {
        planet_cells(before)
    }
    &&& charged_count(planet_cells(after)) + (if built { 1nat } else { 0nat })
        == charged_count(planet_cells(before))
}

/// The reply to one explorer message, and what it does to the planet.
pub open spec fn explorer_reply(
    before: PlanetState,
    after: PlanetState,
    generator: Generator,
    combinator: Combinator,
    msg: ExplorerToPlanet,
    r: Option<PlanetToExplorer>,
) -> bool {
    match msg {
        ExplorerToPlanet::SupportedResourceRequest { .. } => after == before && match r {
            Some(PlanetToExplorer::SupportedResourceResponse { resource_list }) => resource_list@
                == generator_recipes(generator),
            _ => false,
        },
        ExplorerToPlanet::SupportedCombinationRequest { .. } => after == before && match r {
            Some(PlanetToExplorer::SupportedCombinationResponse { combination_list }) => combination_list@
                == combinator_recipes(combinator),
            _ => false,
        },
        ExplorerToPlanet::GenerateResourceRequest { resource, .. } => match r {
            Some(PlanetToExplorer::GenerateResourceResponse { resource: made }) => generate_effect(
                before,
                after,
                generator,
                resource,
                made,
            ),
            _ => false,
        },
        ExplorerToPlanet::CombineResourceRequest { msg: req, .. } => match r {
            Some(PlanetToExplorer::CombineResourceResponse { complex_response }) => combine_effect(
                before,
                after,
                combinator,
                req,
                complex_response,
            ),
            _ => false,
        },
        ExplorerToPlanet::AvailableEnergyCellRequest { .. } => after == before && match r {
            Some(PlanetToExplorer::AvailableEnergyCellResponse { available_cells }) => available_cells as nat
                == charged_count(planet_cells(before)),
            _ => false,
        },
    }
}

/// The reply to one orchestrator message, what it does to the planet, and
/// whether the engine runs afterwards. Only start and stop signals move the
/// lifecycle flag; topology and kill notifications are the runtime's, and
/// change nothing here.
pub open spec fn orchestrator_reply(
    before: PlanetState,
    after: PlanetState,
    was_running: bool,
    now_running: bool,
    msg: OrchestratorToPlanet,
    r: Option<PlanetToOrchestrator>,
) -> bool {
    match msg {
        OrchestratorToPlanet::Sunray(_) => {
            &&& now_running == was_running
            &&& sunray_effect(before, after, r is None)
            &&& r is Some ==> r == Some(
                PlanetToOrchestrator::SunrayAck { planet_id: planet_id(before) },
            )
        },
        OrchestratorToPlanet::InternalStateRequest => {
            &&& now_running == was_running
            &&& after == before
            &&& match r {
                Some(PlanetToOrchestrator::InternalStateResponse { planet_id: id, planet_state }) => {
                    &&& id == planet_id(before)
                    &&& planet_state.energy_cells@ == planet_cells(before)
                    &&& planet_state.charged_cells_count == charged_count(planet_cells(before))
                    &&& planet_state.has_rocket == planet_has_rocket(before)
                },
                _ => false,
            }
        },
        OrchestratorToPlanet::Asteroid(_) => {
            &&& now_running == was_running
            &&& match r {
                Some(PlanetToOrchestrator::AsteroidAck { planet_id: id, rocket }) => {
                    &&& id == planet_id(before)
                    &&& asteroid_effect(before, after, rocket is Some)
                },
                _ => false,
            }
        },
        OrchestratorToPlanet::StartPlanetAI => now_running && after == before && r is None,
        OrchestratorToPlanet::StopPlanetAI => !now_running && after == before && r is None,
        _ => now_running == was_running && after == before && r is None,
    }
}

/// The name of a complex resource type, as it appears in messages.
pub open spec fn complex_name(kind: ComplexResourceType) -> Seq<char> {
    match kind {
        ComplexResourceType::Diamond => "Diamond"@,
        ComplexResourceType::Water => "Water"@,
        ComplexResourceType::Life => "Life"@,
        ComplexResourceType::Robot => "Robot"@,
        ComplexResourceType::Dolphin => "Dolphin"@,
        ComplexResourceType::AIPartner => "AIPartner"@,
    }
}

/// Why a combination of a type without a recipe here was refused.
pub open spec fn unsupported_reason(kind: ComplexResourceType) -> Seq<char> {
    "There isn't a recipe for "@ + complex_name(kind)
}

/// Why a combination was refused for want of energy.
pub open spec fn no_cell_reason() -> Seq<char> {
    "No charged energy cell available"@
}

/// The name of a complex resource type.
pub fn complex_type_name(kind: ComplexResourceType) -> (r: &'static str)
    ensures
        r@ == complex_name(kind),
{
    match kind {
        ComplexResourceType::Diamond => "Diamond",
        ComplexResourceType::Water => "Water",
        ComplexResourceType::Life => "Life",
        ComplexResourceType::Robot => "Robot",
        ComplexResourceType::Dolphin => "Dolphin",
        ComplexResourceType::AIPartner => "AIPartner",
    }
}

/// The complex resource type that a combination request asks for.
pub fn request_type(req: &ComplexResourceRequest) -> (r: ComplexResourceType)
    ensures
        r == request_kind(*req),
{
    match req {
        ComplexResourceRequest::Water(_, _) => ComplexResourceType::Water,
        ComplexResourceRequest::Diamond(_, _) => ComplexResourceType::Diamond,
        ComplexResourceRequest::Life(_, _) => ComplexResourceType::Life,
        ComplexResourceRequest::Robot(_, _) => ComplexResourceType::Robot,
        ComplexResourceRequest::Dolphin(_, _) => ComplexResourceType::Dolphin,
        ComplexResourceRequest::AIPartner(_, _) => ComplexResourceType::AIPartner,
    }
}

/// Takes a combination request apart into its two inputs, unchanged.
pub fn request_into_inputs(req: ComplexResourceRequest) -> (r: (GenericResource, GenericResource))
    ensures
        r == request_inputs(req),
{
    match req {
        ComplexResourceRequest::Water(a, b) => (
            GenericResource::BasicResources(BasicResource::Hydrogen(a)),
            GenericResource::BasicResources(BasicResource::Oxygen(b)),
        ),
        ComplexResourceRequest::Diamond(a, b) => (
            GenericResource::BasicResources(BasicResource::Carbon(a)),
            GenericResource::BasicResources(BasicResource::Carbon(b)),
        ),
        ComplexResourceRequest::Life(a, b) => (
            GenericResource::ComplexResources(ComplexResource::Water(a)),
            GenericResource::BasicResources(BasicResource::Carbon(b)),
        ),
        ComplexResourceRequest::Robot(a, b) => (
            GenericResource::BasicResources(BasicResource::Silicon(a)),
            GenericResource::ComplexResources(ComplexResource::Life(b)),
        ),
        ComplexResourceRequest::Dolphin(a, b) => (
            GenericResource::ComplexResources(ComplexResource::Water(a)),
            GenericResource::ComplexResources(ComplexResource::Life(b)),
        ),
        ComplexResourceRequest::AIPartner(a, b) => (
            GenericResource::ComplexResources(ComplexResource::Robot(a)),
            GenericResource::ComplexResources(ComplexResource::Diamond(b)),
        ),
    }
}

/// The decision engine of an Orbitron planet.
///
/// It starts stopped; start and stop signals set the flag. The handlers do not
/// consult the flag: the runtime that calls them decides whether a stopped
/// planet is asked anything.
pub struct Orbitron {
    is_stopped: bool,
}

impl Default for Orbitron {
    /// The same as `Orbitron::new`: a stopped engine.
    fn default() -> (r: Self)
        ensures
            !r.running(),
    {
        Orbitron::new()
    }
}

impl Orbitron {
    /// The engine runs (a start signal came after the last stop signal).
    pub closed spec fn running(&self) -> bool {
        !self.is_stopped
    }

    /// A new engine, in the stopped state.
    pub fn new() -> (r: Self)
        ensures
            !r.running(),
    {
        Orbitron { is_stopped: true }
    }

    /// Whether the engine runs.
    pub fn is_running(&self) -> (r: bool)
        ensures
            r == self.running(),
    {
        !self.is_stopped
    }

    /// Start signal: the engine runs afterwards, whatever it did before.
    pub fn start(&mut self)
        ensures
            final(self).running(),
    {
        self.is_stopped = false;
    }

    /// Stop signal: the engine is stopped afterwards, whatever it did before.
    pub fn stop(&mut self)
        ensures
            !final(self).running(),
    {
        self.is_stopped = true;
    }

    /// A sunray charges the first empty cell; with every cell charged it is
    /// rejected and nothing changes. Returns whether it was absorbed.
    pub fn handle_sunray(&self, state: &mut PlanetState, sunray: Sunray) -> (absorbed: bool)
        ensures
            sunray_effect(*old(state), *final(state), absorbed),
    {
        let ghost cells = planet_cells(*state);
        let rejected = state.charge_cell(sunray);
        match rejected {
            Some(_) => false,
            None => {
                proof {
                    let i = choose|i: int|
                        is_first(cells, false, i) && planet_cells(*state) == cells.update(i, true);
                    lemma_first_unique(cells, false, i);
                    lemma_count_update(cells, i, true);
                }
                true
            },
        }
    }

    /// The basic resource types that this planet can generate: exactly the
    /// generator's recipes.
    pub fn handle_supported_resources(&self, generator: &Generator) -> (r: std::collections::HashSet<BasicResourceType>)
        ensures
            r@ == generator_recipes(*generator),
    {
        generator.all_available_recipes()
    }

    /// The complex resource types that this planet can combine: exactly the
    /// combinator's recipes.
    pub fn handle_supported_combinations(&self, combinator: &Combinator) -> (r: std::collections::HashSet<ComplexResourceType>)
        ensures
            r@ == combinator_recipes(*combinator),
    {
        combinator.all_available_recipes()
    }

    /// Generates a basic resource of type `kind` from the first charged cell.
    ///
    /// Nothing is produced, and no cell changes, when no cell is charged or
    /// `kind` has no recipe on this planet.
    pub fn handle_generate(&self, state: &mut PlanetState, generator: &Generator, kind: BasicResourceType) -> (r: Option<BasicResource>)
        ensures
            generate_effect(*old(state), *final(state), *generator, kind, r),
    {
        let ghost cells = planet_cells(*state);
        match first_full_cell(state) {
            None => None,
            Some(i) => {
                proof {
                    lemma_first_unique(cells, true, i as int);
                }
                if !generator.contains(kind) {
                    return None;
                }
                match generate_with_cell(generator, state, i, kind) {
                    Ok(resource) => {
                        proof {
                            lemma_count_update(cells, i as int, false);
                        }
                        Some(resource)
                    },
                    Err(_) => None,
                }
            },
        }
    }

    /// Combines the two inputs of `req` into the requested complex resource,
    /// spending the first charged cell.
    ///
    /// A type without a recipe here is refused whatever the cells hold; a type
    /// with a recipe is refused when no cell is charged. A refusal changes no
    /// cell and hands both inputs back unchanged.
    pub fn handle_combine(&self, state: &mut PlanetState, combinator: &Combinator, req: ComplexResourceRequest) -> (r: Result<ComplexResource, (String, GenericResource, GenericResource)>)
        ensures
            combine_effect(*old(state), *final(state), *combinator, req, r),
    {
        let ghost cells = planet_cells(*state);
        let kind = request_type(&req);
        if !combinator.contains(kind) {
            let reason = "There isn't a recipe for ".to_owned().concat(complex_type_name(kind));
            let (a, b) = request_into_inputs(req);
            return Err((reason, a, b));
        }
        match first_full_cell(state) {
            None => {
                let (a, b) = request_into_inputs(req);
                Err(("No charged energy cell available".to_owned(), a, b))
            },
            Some(i) => {
                proof {
                    lemma_first_unique(cells, true, i as int);
                }
                let r = combine_with_cell(combinator, state, i, req);
                proof {
                    if r is Ok {
                        lemma_count_update(cells, i as int, false);
                    }
                }
                r
            },
        }
    }

    /// A copy of what the orchestrator may see of the planet: each cell's
    /// charge, the charged count, and whether a rocket is stored.
    pub fn handle_state_request(&self, state: &PlanetState) -> (r: DummyPlanetState)
        ensures
            r.energy_cells@ == planet_cells(*state),
            r.charged_cells_count == charged_count(planet_cells(*state)),
            r.has_rocket == planet_has_rocket(*state),
    {
        state.to_dummy()
    }

    /// The planet's one chance against an asteroid: hands out a stored rocket,
    /// or else builds one from the first charged cell where the planet type
    /// allows rockets. `None` means that the planet is lost.
    pub fn handle_asteroid(&self, state: &mut PlanetState, generator: &Generator, combinator: &Combinator) -> (r: Option<Rocket>)
        ensures
            asteroid_effect(*old(state), *final(state), r is Some),
    {
        let ghost cells = planet_cells(*state);
        if state.has_rocket() {
            return state.take_rocket();
        }
        if !state.can_have_rocket() {
            return None;
        }
        match first_full_cell(state) {
            None => None,
            Some(i) => {
                proof {
                    lemma_first_unique(cells, true, i as int);
                    lemma_count_update(cells, i as int, false);
                }
                match state.build_rocket(i) {
                    Ok(()) => state.take_rocket(),
                    Err(_) => None,
                }
            },
        }
    }

    /// Answers one orchestrator message: sunrays, state requests and
    /// asteroids go to their handlers, start and stop signals set the
    /// lifecycle flag, and the other messages are left to the runtime.
    ///
    /// A sunray gets an acknowledgement only when it was rejected.
    pub fn handle_orchestrator_msg(&mut self, state: &mut PlanetState, generator: &Generator, combinator: &Combinator, msg: OrchestratorToPlanet) -> (r: Option<PlanetToOrchestrator>)
        ensures
            orchestrator_reply(*old(state), *final(state), old(self).running(), final(self).running(), msg, r),
    {
        match msg {
            OrchestratorToPlanet::Sunray(sunray) => {
                if self.handle_sunray(state, sunray) {
                    None
                } else {
                    Some(PlanetToOrchestrator::SunrayAck { planet_id: state.id() })
                }
            },
            OrchestratorToPlanet::InternalStateRequest => {
                let planet_state = self.handle_state_request(state);
                Some(PlanetToOrchestrator::InternalStateResponse { planet_id: state.id(), planet_state })
            },
            OrchestratorToPlanet::Asteroid(_) => {
                let rocket = self.handle_asteroid(state, generator, combinator);
                Some(PlanetToOrchestrator::AsteroidAck { planet_id: state.id(), rocket })
            },
            OrchestratorToPlanet::StartPlanetAI => {
                self.start();
                None
            },
            OrchestratorToPlanet::StopPlanetAI => {
                self.stop();
                None
            },
            _ => None,
        }
    }

    /// Answers one explorer message; every explorer request gets a reply.
    ///
    /// The cell count must fit the reply's `u32` field.
    pub fn handle_explorer_msg(&mut self, state: &mut PlanetState, generator: &Generator, combinator: &Combinator, msg: ExplorerToPlanet) -> (r: Option<PlanetToExplorer>)
        requires
            planet_cells(*old(state)).len() <= u32::MAX,
        ensures
            *final(self) == *old(self),
            explorer_reply(*old(state), *final(state), *generator, *combinator, msg, r),
    {
        match msg {
            ExplorerToPlanet::SupportedResourceRequest { .. } => {
                Some(PlanetToExplorer::SupportedResourceResponse {
                    resource_list: self.handle_supported_resources(generator),
                })
            },
            ExplorerToPlanet::SupportedCombinationRequest { .. } => {
                Some(PlanetToExplorer::SupportedCombinationResponse {
                    combination_list: self.handle_supported_combinations(combinator),
                })
            },
            ExplorerToPlanet::GenerateResourceRequest { resource, .. } => {
                Some(PlanetToExplorer::GenerateResourceResponse {
                    resource: self.handle_generate(state, generator, resource),
                })
            },
            ExplorerToPlanet::CombineResourceRequest { msg, .. } => {
                Some(PlanetToExplorer::CombineResourceResponse {
                    complex_response: self.handle_combine(state, combinator, msg),
                })
            },
            ExplorerToPlanet::AvailableEnergyCellRequest { .. } => {
                let count = self.handle_available_cells(state);
                proof {
                    lemma_count_bound(planet_cells(*state));
                }
                Some(PlanetToExplorer::AvailableEnergyCellResponse { available_cells: count as u32 })
            },
        }
    }

    /// The number of charged cells.
    pub fn handle_available_cells(&self, state: &PlanetState) -> (r: usize)
        ensures
            r == charged_count(planet_cells(*state)),
    {
        let ghost cells = planet_cells(*state);
        let n = state.cells_count();
        let mut count: usize = 0;
        let mut i: usize = 0;
        while i < n
            invariant
                n == cells.len(),
                cells == planet_cells(*state),
                i <= n,
                count <= i,
                count == charged_count(cells.take(i as int)),
            decreases n - i,
        {
            proof {
                lemma_count_prefix(cells, i as int);
            }
            if cell_is_charged(state, i) {
                count = count + 1;
            }
            i = i + 1;
        }
        proof {
            assert(cells.take(n as int) =~= cells);
        }
        count
    }
}

} // verus!
