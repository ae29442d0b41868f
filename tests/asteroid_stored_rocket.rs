#![allow(unused_imports, dead_code)]

use common_game::components::forge::Forge;
use common_game::components::planet::{DummyPlanetState, Planet, PlanetAI, PlanetState, PlanetType};
use common_game::components::resource::{
    BasicResource, BasicResourceType, Combinator, ComplexResource, ComplexResourceRequest,
    ComplexResourceType, Generator, GenericResource, ResourceType,
};
use common_game::components::rocket::Rocket;
use common_game::components::sunray::Sunray;
use common_game::protocols::orchestrator_planet::{OrchestratorToPlanet, PlanetToOrchestrator};
use common_game::protocols::planet_explorer::{ExplorerToPlanet, PlanetToExplorer};
use crossbeam_channel::{unbounded, Sender};
use orbitron::orbitron::Orbitron;

type Scene = Box<dyn FnOnce(&mut PlanetState, &Generator, &Combinator) + Send>;

// Runs `scene` once inside a live planet, where the state can be borrowed
// mutably.
struct Stage {
    scene: Option<Scene>,
    done: Sender<()>,
}

impl PlanetAI for Stage {
    fn handle_sunray(&mut self, _: &mut PlanetState, _: &Generator, _: &Combinator, _: Sunray) {}

    fn handle_asteroid(&mut self, _: &mut PlanetState, _: &Generator, _: &Combinator) -> Option<Rocket> {
        None
    }

    fn handle_internal_state_req(
        &mut self,
        state: &mut PlanetState,
        generator: &Generator,
        combinator: &Combinator,
    ) -> DummyPlanetState {
        if let Some(scene) = self.scene.take() {
            scene(state, generator, combinator);
            self.done.send(()).unwrap();
        }
        state.to_dummy()
    }

    fn handle_explorer_msg(
        &mut self,
        _: &mut PlanetState,
        _: &Generator,
        _: &Combinator,
        _: ExplorerToPlanet,
    ) -> Option<PlanetToExplorer> {
        None
    }
}

fn on_planet(
    planet_type: PlanetType,
    gen_rules: Vec<BasicResourceType>,
    comb_rules: Vec<ComplexResourceType>,
    scene: impl FnOnce(&mut PlanetState, &Generator, &Combinator) + Send + 'static,
) {
    let (to_planet, from_orchestrator) = unbounded();
    let (to_orchestrator, _from_planet) = unbounded();
    let (_to_planet_from_explorer, from_explorer) = unbounded();
    let (done, finished) = unbounded();
    let stage = Stage { scene: Some(Box::new(scene)), done };
    let mut planet = Planet::new(
        7,
        planet_type,
        Box::new(stage),
        gen_rules,
        comb_rules,
        (from_orchestrator, to_orchestrator),
        from_explorer,
    )
    .unwrap();
    to_planet.send(OrchestratorToPlanet::StartPlanetAI).unwrap();
    to_planet.send(OrchestratorToPlanet::InternalStateRequest).unwrap();
    to_planet.send(OrchestratorToPlanet::KillPlanet).unwrap();
    planet.run().unwrap();
    assert!(finished.try_recv().is_ok(), "the scene did not run");
}

fn orbitron_b(scene: impl FnOnce(&mut PlanetState, &Generator, &Combinator) + Send + 'static) {
    on_planet(
        PlanetType::B,
        vec![BasicResourceType::Hydrogen, BasicResourceType::Oxygen],
        vec![ComplexResourceType::Water],
        scene,
    );
}

fn cells(state: &PlanetState) -> Vec<bool> {
    state.to_dummy().energy_cells
}

#[test]
fn stored_rocket_is_handed_out_without_touching_cells() {
    let forge = Forge::new().unwrap();
    on_planet(
        PlanetType::C,
        vec![BasicResourceType::Hydrogen],
        vec![],
        move |state, generator, combinator| {
            let engine = Orbitron::new();
            assert!(engine.handle_sunray(state, forge.generate_sunray()));
            assert!(state.build_rocket(0).is_ok());
            assert!(engine.handle_sunray(state, forge.generate_sunray()));
            assert_eq!(cells(state), vec![true]);
            assert!(engine.handle_asteroid(state, generator, combinator).is_some());
            assert_eq!(cells(state), vec![true]);
            assert!(!state.has_rocket());
        },
    );
}
