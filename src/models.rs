//! Data shapes of the game service's agent, shipyard and system listings.

use vstd::prelude::*;
use crate::contracts::Meta;

verus! {

/// The agent's account.
#[derive(Debug)]
pub struct AgentData {
    pub account_id: String,
    pub credits: u64,
    pub headquarters: String,
    pub ship_count: u64,
    pub starting_faction: String,
    pub symbol: String,
}

/// The envelope of the agent's account.
#[derive(Debug)]
pub struct AgentDataResponse {
    pub data: AgentData,
}

/// The envelope of a shipyard listing.
#[derive(Debug)]
pub struct ViewAvailableShipsResponse {
    pub data: AvailableShips,
}

/// What a shipyard offers.
#[derive(Debug)]
pub struct AvailableShips {
    pub symbol: Option<String>,
    pub ship_types: Option<Vec<ShipType>>,
    pub transactions: Option<Vec<Transaction>>,
    pub ships: Option<Vec<Ship>>,
    pub modifications_fee: Option<u64>,
}

/// A past purchase at a shipyard.
#[derive(Debug)]
pub struct Transaction {
    pub ship_symbol: Option<String>,
    pub ship_type: Option<String>,
    pub waypoint_symbol: Option<String>,
    pub price: Option<u64>,
    pub timestamp: Option<String>,
}

/// A ship on offer.
#[derive(Debug)]
pub struct Ship {
    pub ship_type: Option<String>,
    pub name: Option<String>,
    pub description: Option<String>,
    pub supply: Option<String>,
    pub activity: Option<String>,
    pub purchase_price: Option<u64>,
    pub frame: Frame,
    pub reactor: Reactor,
    pub engine: Engine,
    pub modules: Option<Vec<Module>>,
    pub mounts: Option<Vec<Mount>>,
    pub crew: Crew,
}

/// A ship's frame.
#[derive(Debug)]
pub struct Frame {
    pub symbol: Option<String>,
    pub name: Option<String>,
    pub description: Option<String>,
    pub module_slots: Option<u32>,
    pub mounting_points: Option<u32>,
    pub fuel_capacity: Option<u32>,
    pub quality: Option<u32>,
    pub requirements: Requirements,
    pub condition: Option<u32>,
    pub integrity: Option<u32>,
}

/// A ship's reactor.
#[derive(Debug)]
pub struct Reactor {
    pub symbol: Option<String>,
    pub name: Option<String>,
    pub description: Option<String>,
    pub power_output: Option<u32>,
    pub quality: Option<u32>,
    pub requirements: Requirements,
    pub condition: Option<u32>,
    pub integrity: Option<u32>,
}

/// A ship's engine.
#[derive(Debug)]
pub struct Engine {
    pub symbol: Option<String>,
    pub name: Option<String>,
    pub description: Option<String>,
    pub speed: Option<u32>,
    pub quality: Option<u32>,
    pub requirements: Requirements,
    pub condition: Option<u32>,
    pub integrity: Option<u32>,
}

/// A mount fitted to a ship.
#[derive(Debug)]
pub struct Mount {
    pub symbol: Option<String>,
    pub name: Option<String>,
    pub description: Option<String>,
    pub strength: Option<u32>,
    pub deposits: Option<Vec<String>>,
    pub requirements: Requirements,
}

/// A ship's crew.
#[derive(Debug, Clone, Copy)]
pub struct Crew {
    pub required: Option<u32>,
    pub capacity: Option<u32>,
}

/// What a ship component needs.
#[derive(Debug, Clone, Copy)]
pub struct Requirements {
    pub power: Option<u32>,
    pub crew: Option<i32>,
    pub slots: Option<u32>,
}

/// A module fitted to a ship.
#[derive(Debug)]
pub struct Module {
    pub symbol: Option<String>,
    pub name: Option<String>,
    pub description: Option<String>,
    pub capacity: Option<u32>,
    pub requirements: Requirements,
}

/// A ship type a shipyard sells.
#[derive(Debug)]
pub struct ShipType {
    pub ship_type: Option<String>,
}

/// Who charted a waypoint, and when.
#[derive(Debug)]
pub struct Chart {
    pub submitted_by: String,
    pub submitted_on: String,
}

/// A faction, by symbol.
#[derive(Debug)]
pub struct Faction {
    pub symbol: String,
}

/// A trait of a waypoint.
#[derive(Debug)]
pub struct Trait {
    pub description: String,
    pub name: String,
    pub symbol: String,
}

/// A waypoint of a star system.
#[derive(Debug)]
pub struct System {
    pub chart: Chart,
    pub faction: Faction,
    pub is_under_construction: bool,
    pub modifiers: Vec<String>,
    pub orbitals: Vec<String>,
    pub orbits: String,
    pub symbol: String,
    pub system_symbol: String,
    pub traits: Vec<Trait>,
    pub type_: String,
    pub x: i32,
    pub y: i32,
}

/// A page of shipyard waypoints.
#[derive(Debug)]
pub struct FindShipyardResponse {
    pub data: Vec<System>,
    pub meta: Meta,
}

} // verus!
