//! The parts of `common_game` that the engine uses, with the contracts that
//! their sources show.
//!
//! The message and resource enums are declared with their variants visible, so
//! that verified code matches on them and builds them. The resource values
//! themselves, the planet state, the generator and the combinator are opaque:
//! what the engine needs of them is named by the spec functions below.

use vstd::prelude::*;
use common_game::components::asteroid::Asteroid;
use common_game::components::planet::{DummyPlanetState, PlanetState};
use common_game::components::resource::{
    AIPartner, BasicResource, BasicResourceType, Carbon, Combinator, ComplexResource,
    ComplexResourceRequest, ComplexResourceType, Diamond, Dolphin, Generator, GenericResource,
    Hydrogen, Life, Oxygen, Robot, Silicon, Water,
};
use common_game::components::rocket::Rocket;
use common_game::components::sunray::Sunray;
use common_game::protocols::orchestrator_planet::{OrchestratorToPlanet, PlanetToOrchestrator};
use common_game::protocols::planet_explorer::{ExplorerToPlanet, PlanetToExplorer};
use crate::cells::{charged_count, has_cell, is_first};

verus! {

#[verifier::external_type_specification]
#[verifier::external_body]
pub struct ExPlanetState(PlanetState);

#[verifier::external_type_specification]
pub struct ExDummyPlanetState(DummyPlanetState);

#[verifier::external_type_specification]
#[verifier::external_body]
pub struct ExSunray(Sunray);

#[verifier::external_type_specification]
#[verifier::external_body]
pub struct ExAsteroid(Asteroid);

#[verifier::external_type_specification]
#[verifier::external_body]
pub struct ExRocket(Rocket);

#[verifier::external_type_specification]
#[verifier::external_body]
pub struct ExGenerator(Generator);

#[verifier::external_type_specification]
#[verifier::external_body]
pub struct ExCombinator(Combinator);

#[verifier::external_type_specification]
#[verifier::external_body]
pub struct ExOxygen(Oxygen);

#[verifier::external_type_specification]
#[verifier::external_body]
pub struct ExHydrogen(Hydrogen);

#[verifier::external_type_specification]
#[verifier::external_body]
pub struct ExCarbon(Carbon);

#[verifier::external_type_specification]
#[verifier::external_body]
pub struct ExSilicon(Silicon);

#[verifier::external_type_specification]
#[verifier::external_body]
pub struct ExDiamond(Diamond);

#[verifier::external_type_specification]
#[verifier::external_body]
pub struct ExWater(Water);

#[verifier::external_type_specification]
#[verifier::external_body]
pub struct ExLife(Life);

#[verifier::external_type_specification]
#[verifier::external_body]
pub struct ExRobot(Robot);

#[verifier::external_type_specification]
#[verifier::external_body]
pub struct ExDolphin(Dolphin);

#[verifier::external_type_specification]
#[verifier::external_body]
pub struct ExAIPartner(AIPartner);

#[verifier::external_type_specification]
pub struct ExBasicResourceType(BasicResourceType);

#[verifier::external_type_specification]
pub struct ExComplexResourceType(ComplexResourceType);

#[verifier::external_type_specification]
pub struct ExBasicResource(BasicResource);

#[verifier::external_type_specification]
pub struct ExComplexResource(ComplexResource);

#[verifier::external_type_specification]
pub struct ExGenericResource(GenericResource);

#[verifier::external_type_specification]
pub struct ExComplexResourceRequest(ComplexResourceRequest);

#[verifier::external_type_specification]
#[verifier::external_body]
#[verifier::reject_recursive_types(T)]
pub struct ExSender<T>(crossbeam_channel::Sender<T>);

#[verifier::external_type_specification]
pub struct ExOrchestratorToPlanet(OrchestratorToPlanet);

#[verifier::external_type_specification]
pub struct ExPlanetToOrchestrator(PlanetToOrchestrator);

#[verifier::external_type_specification]
pub struct ExExplorerToPlanet(ExplorerToPlanet);

#[verifier::external_type_specification]
pub struct ExPlanetToExplorer(PlanetToExplorer);


// ---------------------------------------------------------------------------
// Names for what the opaque values hold.

/// Charge state of each energy cell of a planet, in index order.
pub uninterp spec fn planet_cells(s: PlanetState) -> Seq<bool>;

/// The planet holds a built rocket.
pub uninterp spec fn planet_has_rocket(s: PlanetState) -> bool;

/// The planet's type allows it to hold a rocket.
pub uninterp spec fn planet_rocket_allowed(s: PlanetState) -> bool;

/// The planet's identifier.
pub uninterp spec fn planet_id(s: PlanetState) -> u32;

/// The basic resources that a generator has a recipe for.
pub uninterp spec fn generator_recipes(g: Generator) -> Set<BasicResourceType>;

/// The complex resources that a combinator has a recipe for.
pub uninterp spec fn combinator_recipes(c: Combinator) -> Set<ComplexResourceType>;

// ---------------------------------------------------------------------------
// What a resource value is.

/// The type of a basic resource.
pub open spec fn basic_kind(b: BasicResource) -> BasicResourceType {
    match b {
        BasicResource::Oxygen(_) => BasicResourceType::Oxygen,
        BasicResource::Hydrogen(_) => BasicResourceType::Hydrogen,
        BasicResource::Carbon(_) => BasicResourceType::Carbon,
        BasicResource::Silicon(_) => BasicResourceType::Silicon,
    }
}

/// The type of a complex resource.
pub open spec fn complex_kind(c: ComplexResource) -> ComplexResourceType {
    match c {
        ComplexResource::Diamond(_) => ComplexResourceType::Diamond,
        ComplexResource::Water(_) => ComplexResourceType::Water,
        ComplexResource::Life(_) => ComplexResourceType::Life,
        ComplexResource::Robot(_) => ComplexResourceType::Robot,
        ComplexResource::Dolphin(_) => ComplexResourceType::Dolphin,
        ComplexResource::AIPartner(_) => ComplexResourceType::AIPartner,
    }
}

/// The complex resource that a combination request asks for.
pub open spec fn request_kind(req: ComplexResourceRequest) -> ComplexResourceType {
    match req {
        ComplexResourceRequest::Water(_, _) => ComplexResourceType::Water,
        ComplexResourceRequest::Diamond(_, _) => ComplexResourceType::Diamond,
        ComplexResourceRequest::Life(_, _) => ComplexResourceType::Life,
        ComplexResourceRequest::Robot(_, _) => ComplexResourceType::Robot,
        ComplexResourceRequest::Dolphin(_, _) => ComplexResourceType::Dolphin,
        ComplexResourceRequest::AIPartner(_, _) => ComplexResourceType::AIPartner,
    }
}

/// The two inputs of a combination request, each as a generic resource.
pub open spec fn request_inputs(req: ComplexResourceRequest) -> (GenericResource, GenericResource) {
    match req {
        ComplexResourceRequest::Water(a, b) => (
            GenericResource::BasicResources(BasicResource::Hydrogen(a)),
            GenericResource::BasicResources(BasicResource::Oxygen(b)),
        ),
        ComplexResourceRequest::Diamond(a, b) => (
            GenericResource::BasicResources(BasicResource::Carbon(a)),
            GenericResource::BasicResources(BasicResource::Carbon(b)),
        ),
        ComplexResourceRequest::Life(a, b) => (
            GenericResource::ComplexResources(ComplexResource::Water(a)),
            GenericResource::BasicResources(BasicResource::Carbon(b)),
        ),
        ComplexResourceRequest::Robot(a, b) => (
            GenericResource::BasicResources(BasicResource::Silicon(a)),
            GenericResource::ComplexResources(ComplexResource::Life(b)),
        ),
        ComplexResourceRequest::Dolphin(a, b) => (
            GenericResource::ComplexResources(ComplexResource::Water(a)),
            GenericResource::ComplexResources(ComplexResource::Life(b)),
        ),
        ComplexResourceRequest::AIPartner(a, b) => (
            GenericResource::ComplexResources(ComplexResource::Robot(a)),
            GenericResource::ComplexResources(ComplexResource::Diamond(b)),
        ),
    }
}

// ---------------------------------------------------------------------------
// The planet state.

/// `PlanetState::id` returns the planet's identifier.
pub assume_specification[ PlanetState::id ](s: &PlanetState) -> (r: u32)
    ensures
        r == planet_id(*s),
;

/// `PlanetState::cells_count` returns the number of energy cells.
pub assume_specification[ PlanetState::cells_count ](s: &PlanetState) -> (r: usize)
    ensures
        r == planet_cells(*s).len(),
;

/// `PlanetState::can_have_rocket` tells whether the planet type allows a rocket.
pub assume_specification[ PlanetState::can_have_rocket ](s: &PlanetState) -> (r: bool)
    ensures
        r == planet_rocket_allowed(*s),
;

/// `PlanetState::has_rocket` tells whether a rocket is built and stored.
pub assume_specification[ PlanetState::has_rocket ](s: &PlanetState) -> (r: bool)
    ensures
        r == planet_has_rocket(*s),
;

/// Relies on `PlanetState::cell` and `EnergyCell::is_charged`: the charge of
/// the `i`-th cell (`cell` panics out of bounds).
#[verifier::external_body]
pub(crate) fn cell_is_charged(s: &PlanetState, i: usize) -> (r: bool)
    requires
        i < planet_cells(*s).len(),
    ensures
        r == planet_cells(*s)[i as int],
{
    s.cell(i).is_charged()
}

/// Relies on `PlanetState::full_cell`: the index of the first charged cell,
/// found without changing the state.
#[verifier::external_body]
pub(crate) fn first_full_cell(s: &mut PlanetState) -> (r: Option<usize>)
    ensures
        *final(s) == *old(s),
        r is None <==> !has_cell(planet_cells(*old(s)), true),
        r is Some ==> is_first(planet_cells(*old(s)), true, r->Some_0 as int),
{
    s.full_cell().map(|(_, i)| i)
}

/// `PlanetState::charge_cell` charges the first empty cell, or hands the
/// sunray back when every cell is charged.
pub assume_specification[ PlanetState::charge_cell ](s: &mut PlanetState, sunray: Sunray) -> (r: Option<Sunray>)
    ensures
        planet_id(*final(s)) == planet_id(*old(s)),
        planet_rocket_allowed(*final(s)) == planet_rocket_allowed(*old(s)),
        planet_has_rocket(*final(s)) == planet_has_rocket(*old(s)),
        r is Some <==> !has_cell(planet_cells(*old(s)), false),
        r is Some ==> planet_cells(*final(s)) == planet_cells(*old(s)),
        r is None ==> exists|i: int|
            is_first(planet_cells(*old(s)), false, i)
            && planet_cells(*final(s)) == planet_cells(*old(s)).update(i, true),
;

/// `PlanetState::build_rocket` discharges the `i`-th cell into a stored rocket;
/// it fails, changing nothing, when the type forbids rockets, a rocket is
/// already stored, or the cell is empty (it panics on an index out of bounds).
pub assume_specification[ PlanetState::build_rocket ](s: &mut PlanetState, i: usize) -> (r: Result<(), String>)
    requires
        i < planet_cells(*old(s)).len(),
    ensures
        planet_id(*final(s)) == planet_id(*old(s)),
        planet_rocket_allowed(*final(s)) == planet_rocket_allowed(*old(s)),
        r is Ok <==> planet_rocket_allowed(*old(s)) && !planet_has_rocket(*old(s))
            && planet_cells(*old(s))[i as int],
        r is Ok ==> planet_has_rocket(*final(s))
            && planet_cells(*final(s)) == planet_cells(*old(s)).update(i as int, false),
        r is Err ==> planet_has_rocket(*final(s)) == planet_has_rocket(*old(s))
            && planet_cells(*final(s)) == planet_cells(*old(s)),
;

/// `PlanetState::take_rocket` moves the stored rocket out, if there is one.
pub assume_specification[ PlanetState::take_rocket ](s: &mut PlanetState) -> (r: Option<Rocket>)
    ensures
        planet_id(*final(s)) == planet_id(*old(s)),
        planet_rocket_allowed(*final(s)) == planet_rocket_allowed(*old(s)),
        planet_cells(*final(s)) == planet_cells(*old(s)),
        !planet_has_rocket(*final(s)),
        r is Some <==> planet_has_rocket(*old(s)),
;

/// `PlanetState::to_dummy` copies out the cells' charges, their count and
/// whether a rocket is stored.
pub assume_specification[ PlanetState::to_dummy ](s: &PlanetState) -> (r: DummyPlanetState)
    ensures
        r.energy_cells@ == planet_cells(*s),
        r.charged_cells_count == charged_count(planet_cells(*s)),
        r.has_rocket == planet_has_rocket(*s),
;

// ---------------------------------------------------------------------------
// Generator and combinator.

/// `Generator::contains` looks the type up in the generator's recipes.
pub assume_specification[ Generator::contains ](g: &Generator, basic: BasicResourceType) -> (r: bool)
    ensures
        r == generator_recipes(*g).contains(basic),
;

/// `Generator::all_available_recipes` copies the generator's recipes.
pub assume_specification[ Generator::all_available_recipes ](g: &Generator) -> (r: std::collections::HashSet<BasicResourceType>)
    ensures
        r@ == generator_recipes(*g),
;

/// `Combinator::contains` looks the type up in the combinator's recipes.
pub assume_specification[ Combinator::contains ](c: &Combinator, complex: ComplexResourceType) -> (r: bool)
    ensures
        r == combinator_recipes(*c).contains(complex),
;

/// `Combinator::all_available_recipes` copies the combinator's recipes.
pub assume_specification[ Combinator::all_available_recipes ](c: &Combinator) -> (r: std::collections::HashSet<ComplexResourceType>)
    ensures
        r@ == combinator_recipes(*c),
;

/// Relies on `Generator::try_make`, handed the `i`-th cell (`cell_mut` panics
/// out of bounds): it makes `kind` and discharges the cell when the cell is
/// charged and `kind` has a recipe, and otherwise fails leaving the cell as it was.
#[verifier::external_body]
pub(crate) fn generate_with_cell(g: &Generator, s: &mut PlanetState, i: usize, kind: BasicResourceType) -> (r: Result<BasicResource, String>)
    requires
        i < planet_cells(*old(s)).len(),
    ensures
        planet_id(*final(s)) == planet_id(*old(s)),
        planet_rocket_allowed(*final(s)) == planet_rocket_allowed(*old(s)),
        planet_has_rocket(*final(s)) == planet_has_rocket(*old(s)),
        r is Ok <==> generator_recipes(*g).contains(kind) && planet_cells(*old(s))[i as int],
        r is Ok ==> basic_kind(r->Ok_0) == kind
            && planet_cells(*final(s)) == planet_cells(*old(s)).update(i as int, false),
        r is Err ==> planet_cells(*final(s)) == planet_cells(*old(s)),
{
    g.try_make(kind, s.cell_mut(i))
}

/// Relies on `Combinator::try_make`, handed the `i`-th cell (`cell_mut` panics
/// out of bounds): it makes the requested resource and discharges the cell when
/// the cell is charged and the resource has a recipe, and otherwise fails,
/// leaving the cell as it was and handing both inputs back.
#[verifier::external_body]
pub(crate) fn combine_with_cell(c: &Combinator, s: &mut PlanetState, i: usize, req: ComplexResourceRequest) -> (r: Result<ComplexResource, (String, GenericResource, GenericResource)>)
    requires
        i < planet_cells(*old(s)).len(),
    ensures
        planet_id(*final(s)) == planet_id(*old(s)),
        planet_rocket_allowed(*final(s)) == planet_rocket_allowed(*old(s)),
        planet_has_rocket(*final(s)) == planet_has_rocket(*old(s)),
        r is Ok <==> combinator_recipes(*c).contains(request_kind(req))
            && planet_cells(*old(s))[i as int],
        r is Ok ==> complex_kind(r->Ok_0) == request_kind(req)
            && planet_cells(*final(s)) == planet_cells(*old(s)).update(i as int, false),
        r is Err ==> (r->Err_0.1, r->Err_0.2) == request_inputs(req)
            && planet_cells(*final(s)) == planet_cells(*old(s)),
{
    c.try_make(req, s.cell_mut(i))
}

} // verus!
