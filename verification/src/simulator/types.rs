//! Shared simulator types: screens and messages.

use vstd::prelude::*;

verus! {

/// Top-level navigation states of the simulator.
#[derive(Debug, Clone, Copy, PartialEq, Eq, Structural)]
pub enum Screen {
    MainMenu,
    CampaignSelectHero,
    CampaignContinueSelect,
    /// Scenario loading flow: list the hex-grid maps of the core database.
    ScenarioSelectHexGrid,
    /// Scenario test view: a specific hex grid (by id) of the core database.
    ScenarioTest { hex_grid_id: i64 },
    CampaignHome { campaign_id: i64 },
}

/// Messages emitted by the simulator's pages.
#[derive(Debug, Clone)]
pub enum Message {
    // Main menu actions
    StartCampaign,
    LoadScenario,
    ContinueCampaign,
    ExitApp,
    // Common navigation
    BackToMenu,
    // Start campaign flow
    SelectHero(String),
    BeginCampaign,
    // Load scenario flow
    /// Select a hex grid map by id (from the core database list).
    SelectScenarioHexGrid(i64),
    /// Start the scenario using the selected hex grid map.
    StartScenario,
    // Continue campaign flow
    SelectCampaign(i64),
}

} // verus!
