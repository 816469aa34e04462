use spacetraders_miner::agent::{
    agent_symbol, env_line, first_waypoint_symbol, generate_random_symbol, owned_text, registration_token,
};
use spacetraders_miner::contracts::{contracts_to_accept, Contract, Payment, Terms};

fn json(text: &str) -> serde_json::Value {
    serde_json::from_str(text).unwrap()
}

fn contract(id: &str, accepted: bool) -> Contract {
    Contract {
        accepted,
        deadline_to_accept: "2026-11-01T00:00:00Z".to_string(),
        expiration_date: "2026-11-02T00:00:00Z".to_string(),
        faction_symbol: "COSMIC".to_string(),
        fulfilled: false,
        id: id.to_string(),
        terms: Terms {
            deadline: "2026-11-09T00:00:00Z".to_string(),
            deliveries: vec![],
            payment: Payment { payment_on_accepted: 1000, payment_on_fulfilled: 5000 },
        },
        contract_type: "PROCUREMENT".to_string(),
    }
}

#[test]
fn call_sign_is_prefix_and_base64() {
    assert_eq!(agent_symbol(&b"abc".to_vec()), "SFP-YWJj");
    assert_eq!(agent_symbol(&b"Ab3xY9".to_vec()), "SFP-QWIzeFk5");
    assert_eq!(agent_symbol(&vec![]), "SFP-");
}

#[test]
fn random_call_sign_has_expected_shape() {
    let s = generate_random_symbol();
    assert!(s.starts_with("SFP-"));
    assert_eq!(s.len(), 12);
    assert!(s[4..].chars().all(|c| c.is_ascii_alphanumeric() || c == '+' || c == '/' || c == '='));
}

#[test]
fn env_line_holds_the_token() {
    assert_eq!(env_line("abc.def"), "TOKEN=abc.def");
    assert_eq!(env_line(""), "TOKEN=");
}

#[test]
fn token_is_read_from_registration() {
    assert_eq!(registration_token(&json(r#"{"data":{"token":"tok-1","agent":{}}}"#)), Some("tok-1".to_string()));
    assert_eq!(registration_token(&json(r#"{"data":{"token":17}}"#)), None);
    assert_eq!(registration_token(&json(r#"{"error":{"code":4111}}"#)), None);
}

#[test]
fn first_waypoint_is_read_from_listing() {
    let body = json(r#"{"data":[{"symbol":"X1-VM68-DD5F"},{"symbol":"X1-VM68-B2"}]}"#);
    assert_eq!(first_waypoint_symbol(&body), Some("X1-VM68-DD5F".to_string()));
    assert_eq!(first_waypoint_symbol(&json(r#"{"data":[]}"#)), None);
    assert_eq!(first_waypoint_symbol(&json(r#"{"data":[{"symbol":5}]}"#)), None);
}

#[test]
fn only_unaccepted_contracts_are_accepted() {
    let cs = vec![contract("c1", true), contract("c2", false), contract("c3", true), contract("c4", false)];
    assert_eq!(contracts_to_accept(&cs), vec!["c2".to_string(), "c4".to_string()]);
    assert!(contracts_to_accept(&vec![]).is_empty());
}

#[test]
fn lookups_are_owned_exactly() {
    assert_eq!(owned_text(Some("X1-A")), Some("X1-A".to_string()));
    assert_eq!(owned_text(None), None);
}
