use essentia_vpn_plugin::types::Load;
use essentia_vpn_plugin::{NeuralRouter, VpnServer};

fn pool_server(id: &str, country: &str, load: f32, pqc_enabled: bool) -> VpnServer {
    VpnServer {
        id: id.to_string(),
        hostname: format!("{id}.example.net"),
        port: 443,
        country: country.to_string(),
        city: "Somewhere".to_string(),
        load: Load::from_bits(load.to_bits()),
        pqc_enabled,
    }
}

fn load_of(server: &VpnServer) -> f32 {
    f32::from_bits(server.load.to_bits())
}

#[test]
fn new_router_is_empty() {
    let router = NeuralRouter::new();
    assert!(router.servers().is_empty());
    assert!(router.find_optimal_server().is_none());
    assert!(router.find_best_server("eu-west").is_none());
    assert!(NeuralRouter::default().servers().is_empty());
}

#[test]
fn add_server_keeps_insertion_order() {
    let mut router = NeuralRouter::new();
    router.add_server(pool_server("a", "us-east", 0.5, true));
    router.add_server(pool_server("b", "eu-west", 0.1, false));
    router.add_server(pool_server("c", "eu-west", 0.3, true));
    let ids: Vec<&str> = router.servers().iter().map(|s| s.id.as_str()).collect();
    assert_eq!(ids, vec!["a", "b", "c"]);
}

#[test]
fn load_is_clamped_when_made() {
    assert_eq!(f32::from_bits(Load::from_bits(1.7f32.to_bits()).to_bits()), 1.0);
    assert_eq!(f32::from_bits(Load::from_bits((-0.3f32).to_bits()).to_bits()), 0.0);
    assert_eq!(f32::from_bits(Load::from_bits(0.42f32.to_bits()).to_bits()), 0.42);
    assert_eq!(f32::from_bits(Load::from_bits(0.0f32.to_bits()).to_bits()), 0.0);
    assert_eq!(f32::from_bits(Load::from_bits(1.0f32.to_bits()).to_bits()), 1.0);
    assert_eq!(Load::from_bits((-0.0f32).to_bits()).to_bits(), 0);
    assert_eq!(f32::from_bits(Load::from_bits(f32::INFINITY.to_bits()).to_bits()), 1.0);
    assert_eq!(f32::from_bits(Load::from_bits(f32::NEG_INFINITY.to_bits()).to_bits()), 0.0);
    assert_eq!(f32::from_bits(Load::from_bits(f32::MAX.to_bits()).to_bits()), 1.0);
    let of_nan = f32::from_bits(Load::from_bits(f32::NAN.to_bits()).to_bits());
    assert!((0.0..=1.0).contains(&of_nan));
}

#[test]
fn update_load_clamps_into_unit_range() {
    let mut router = NeuralRouter::new();
    router.add_server(pool_server("a", "us-east", 0.5, true));
    router.add_server(pool_server("b", "us-east", 0.5, true));
    router.update_server_load("a", 1.7f32.to_bits());
    assert_eq!(load_of(&router.servers()[0]), 1.0);
    assert_eq!(load_of(&router.servers()[1]), 0.5);
    router.update_server_load("b", (-0.3f32).to_bits());
    assert_eq!(load_of(&router.servers()[1]), 0.0);
    assert_eq!(load_of(&router.servers()[0]), 1.0);
    router.update_server_load("a", 0.25f32.to_bits());
    assert_eq!(load_of(&router.servers()[0]), 0.25);
    router.update_server_load("a", 1.0e30f32.to_bits());
    assert_eq!(load_of(&router.servers()[0]), 1.0);
}

#[test]
fn update_load_changes_only_the_load() {
    let mut router = NeuralRouter::new();
    router.add_server(pool_server("a", "us-east", 0.5, true));
    router.update_server_load("a", 0.75f32.to_bits());
    let server = &router.servers()[0];
    assert_eq!(server.id, "a");
    assert_eq!(server.hostname, "a.example.net");
    assert_eq!(server.port, 443);
    assert_eq!(server.country, "us-east");
    assert_eq!(server.city, "Somewhere");
    assert!(server.pqc_enabled);
    assert_eq!(load_of(server), 0.75);
}

#[test]
fn update_load_of_unknown_id_is_a_no_op() {
    let mut router = NeuralRouter::new();
    router.update_server_load("zz", 0.9f32.to_bits());
    assert!(router.servers().is_empty());
    router.add_server(pool_server("a", "us-east", 0.5, true));
    router.update_server_load("zz", 0.9f32.to_bits());
    assert_eq!(router.servers().len(), 1);
    assert_eq!(load_of(&router.servers()[0]), 0.5);
}

#[test]
fn update_load_writes_the_first_server_with_the_id() {
    let mut router = NeuralRouter::new();
    router.add_server(pool_server("a", "us-east", 0.5, true));
    router.add_server(pool_server("a", "us-west", 0.6, true));
    router.update_server_load("a", 0.1f32.to_bits());
    assert_eq!(load_of(&router.servers()[0]), 0.1);
    assert_eq!(load_of(&router.servers()[1]), 0.6);
}

#[test]
fn best_for_country_ignores_servers_without_pqc() {
    let mut router = NeuralRouter::new();
    router.add_server(pool_server("a", "eu-west", 0.0, false));
    router.add_server(pool_server("b", "eu-west", 0.4, false));
    assert!(router.find_best_server("eu-west").is_none());
    assert!(router.find_optimal_server().is_none());
    router.add_server(pool_server("c", "eu-west", 0.9, true));
    assert_eq!(router.find_best_server("eu-west").unwrap().id, "c");
    assert_eq!(router.find_optimal_server().unwrap().id, "c");
}

#[test]
fn best_for_country_matches_the_country_exactly() {
    let mut router = NeuralRouter::new();
    router.add_server(pool_server("a", "eu-west", 0.6, true));
    router.add_server(pool_server("b", "eu-west-2", 0.1, true));
    router.add_server(pool_server("c", "EU-WEST", 0.1, true));
    router.add_server(pool_server("d", "eu-west", 0.3, true));
    router.add_server(pool_server("e", "us-east", 0.0, true));
    assert_eq!(router.find_best_server("eu-west").unwrap().id, "d");
    assert_eq!(router.find_best_server("us-east").unwrap().id, "e");
    assert!(router.find_best_server("eu").is_none());
    assert!(router.find_best_server("").is_none());
    assert_eq!(router.find_optimal_server().unwrap().id, "e");
}

#[test]
fn best_overall_breaks_ties_by_insertion_order() {
    let mut router = NeuralRouter::new();
    router.add_server(pool_server("a", "us-east", 0.8, true));
    router.add_server(pool_server("b", "us-east", 0.2, true));
    router.add_server(pool_server("c", "us-east", 0.2, true));
    for _ in 0..10 {
        assert_eq!(router.find_optimal_server().unwrap().id, "b");
        assert_eq!(router.find_best_server("us-east").unwrap().id, "b");
    }
}

#[test]
fn best_overall_follows_load_updates() {
    let mut router = NeuralRouter::new();
    router.add_server(pool_server("a", "us-east", 0.8, true));
    router.add_server(pool_server("b", "us-east", 0.2, true));
    router.add_server(pool_server("c", "us-east", 0.21, true));
    assert_eq!(router.find_optimal_server().unwrap().id, "b");
    router.update_server_load("b", 0.9f32.to_bits());
    assert_eq!(router.find_optimal_server().unwrap().id, "c");
    router.update_server_load("a", (-5.0f32).to_bits());
    assert_eq!(router.find_optimal_server().unwrap().id, "a");
    assert_eq!(load_of(router.find_optimal_server().unwrap()), 0.0);
}

#[test]
fn loads_order_as_their_values() {
    let mut router = NeuralRouter::new();
    router.add_server(pool_server("a", "x", 0.001, true));
    router.add_server(pool_server("b", "x", 0.0001, true));
    router.add_server(pool_server("c", "x", 0.5, true));
    router.add_server(pool_server("d", "x", 1.0e-20, true));
    router.add_server(pool_server("e", "x", 0.999, true));
    assert_eq!(router.find_optimal_server().unwrap().id, "d");
}
