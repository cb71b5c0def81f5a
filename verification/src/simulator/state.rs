//! Simulator state, and the decision it takes on each message.

use vstd::prelude::*;
use crate::cards::unit::Unit;
use crate::hex_grids::{HexGrid, HexTile};
use crate::num::{decimal_spec, i64_to_string};
use crate::shared::{concat2, concat3};
use crate::text::opt_text;
use crate::simulator::db::CampaignSummary;
use crate::simulator::types::{Message, Screen};

verus! {

/// Minimal list row for a hex grid of the core database.
#[derive(Debug, Clone, PartialEq, Eq)]
pub struct HexGridSummary {
    pub id: i64,
    pub name: String,
}

/// The simulator's state.
pub struct Simulator {
    pub screen: Screen,
    // Start-campaign flow state
    pub units: Vec<Unit>,
    pub selected_hero: Option<String>,
    pub campaign_saved: Option<String>,
    // Load-scenario flow state
    pub scenario_hex_grids: Vec<HexGridSummary>,
    pub selected_scenario_hex_grid_id: Option<i64>,
    // Scenario-test state (loaded hex grid + tiles from the core database)
    pub scenario_test_hex_grid: Option<HexGrid>,
    pub scenario_test_tiles: Vec<HexTile>,
    // Continue-campaign flow state
    pub campaigns: Vec<CampaignSummary>,
    // Shared error state for database / loading operations
    pub load_error: Option<String>,
}

/// The simulator's state as values.
pub struct SimulatorView {
    pub screen: Screen,
    pub units: Seq<Unit>,
    pub selected_hero: Option<Seq<char>>,
    pub campaign_saved: Option<Seq<char>>,
    pub scenario_hex_grids: Seq<HexGridSummary>,
    pub selected_scenario_hex_grid_id: Option<i64>,
    pub scenario_test_hex_grid: Option<HexGrid>,
    pub scenario_test_tiles: Seq<HexTile>,
    pub campaigns: Seq<CampaignSummary>,
    pub load_error: Option<Seq<char>>,
}

impl View for Simulator {
    type V = SimulatorView;

    open spec fn view(&self) -> SimulatorView {
        SimulatorView {
            screen: self.screen,
            units: self.units@,
            selected_hero: opt_text(self.selected_hero),
            campaign_saved: opt_text(self.campaign_saved),
            scenario_hex_grids: self.scenario_hex_grids@,
            selected_scenario_hex_grid_id: self.selected_scenario_hex_grid_id,
            scenario_test_hex_grid: self.scenario_test_hex_grid,
            scenario_test_tiles: self.scenario_test_tiles@,
            campaigns: self.campaigns@,
            load_error: opt_text(self.load_error),
        }
    }
}

/// What the host application does after a message has been decided.
#[derive(Debug, Clone, Copy, PartialEq, Eq, Structural)]
pub enum SimulatorEffect {
    /// Nothing more.
    Nothing,
    /// Load the units of the core database (`load_units_from_core_db`).
    LoadUnits,
    /// Load the hex grid list (`load_hex_grids_from_core_db`).
    LoadHexGrids,
    /// Load the stored campaigns (`load_campaigns_from_simulator_db`).
    LoadCampaigns,
    /// Store a campaign for the selected hero
    /// (`create_campaign_from_selected_hero`).
    CreateCampaign,
    /// Load a hex grid and its tiles (`load_scenario_test_from_core_db`).
    LoadScenarioTest(i64),
    /// Close the window.
    CloseWindow,
}

/// The message shown when a scenario is started with no grid selected.
pub open spec fn no_scenario_selected_msg() -> Seq<char> {
    "No scenario hex grid selected."@
}

impl SimulatorView {
    pub open spec fn initial() -> SimulatorView {
        SimulatorView {
            screen: Screen::MainMenu,
            units: Seq::empty(),
            selected_hero: None,
            campaign_saved: None,
            scenario_hex_grids: Seq::empty(),
            selected_scenario_hex_grid_id: None,
            scenario_test_hex_grid: None,
            scenario_test_tiles: Seq::empty(),
            campaigns: Seq::empty(),
            load_error: None,
        }
    }

    pub open spec fn cleared_feedback(self) -> SimulatorView {
        SimulatorView { load_error: None, campaign_saved: None, ..self }
    }

    pub open spec fn reset_start_campaign(self) -> SimulatorView {
        SimulatorView {
            units: Seq::empty(),
            selected_hero: None,
            campaign_saved: None,
            load_error: None,
            ..self
        }
    }

    pub open spec fn reset_load_scenario(self) -> SimulatorView {
        SimulatorView {
            scenario_hex_grids: Seq::empty(),
            selected_scenario_hex_grid_id: None,
            load_error: None,
            ..self
        }
    }

    pub open spec fn reset_scenario(self) -> SimulatorView {
        SimulatorView {
            scenario_test_hex_grid: None,
            scenario_test_tiles: Seq::empty(),
            load_error: None,
            ..self
        }
    }

    pub open spec fn reset_continue_campaign(self) -> SimulatorView {
        SimulatorView { campaigns: Seq::empty(), campaign_saved: None, load_error: None, ..self }
    }

    /// The state after `m`, before the host performs the effect.
    pub open spec fn after(self, m: Message) -> SimulatorView {
        match m {
            Message::StartCampaign => SimulatorView {
                screen: Screen::CampaignSelectHero,
                ..self
            }.reset_start_campaign(),
            Message::LoadScenario => SimulatorView {
                screen: Screen::ScenarioSelectHexGrid,
                ..self
            }.reset_load_scenario(),
            Message::ContinueCampaign => SimulatorView {
                screen: Screen::CampaignContinueSelect,
                ..self
            }.reset_continue_campaign(),
            Message::ExitApp => self,
            Message::BackToMenu => SimulatorView {
                screen: Screen::MainMenu,
                ..self
            }.cleared_feedback(),
            Message::SelectHero(name) => SimulatorView {
                selected_hero: Some(name@),
                ..self
            }.cleared_feedback(),
            Message::BeginCampaign => self,
            Message::SelectScenarioHexGrid(id) => SimulatorView {
                screen: Screen::ScenarioTest { hex_grid_id: id },
                ..self
            }.reset_scenario(),
            Message::StartScenario => match self.selected_scenario_hex_grid_id {
                Some(id) => SimulatorView {
                    screen: Screen::ScenarioTest { hex_grid_id: id },
                    ..self
                }.reset_scenario(),
                None => SimulatorView { load_error: Some(no_scenario_selected_msg()), ..self },
            },
            Message::SelectCampaign(id) => SimulatorView {
                screen: Screen::CampaignHome { campaign_id: id },
                ..self
            }.cleared_feedback(),
        }
    }

    /// What the host performs after `m`.
    pub open spec fn effect(self, m: Message) -> SimulatorEffect {
        match m {
            Message::StartCampaign => SimulatorEffect::LoadUnits,
            Message::LoadScenario => SimulatorEffect::LoadHexGrids,
            Message::ContinueCampaign => SimulatorEffect::LoadCampaigns,
            Message::ExitApp => SimulatorEffect::CloseWindow,
            Message::BeginCampaign => SimulatorEffect::CreateCampaign,
            Message::SelectScenarioHexGrid(id) => SimulatorEffect::LoadScenarioTest(id),
            Message::StartScenario => match self.selected_scenario_hex_grid_id {
                Some(id) => SimulatorEffect::LoadScenarioTest(id),
                None => SimulatorEffect::Nothing,
            },
            _ => SimulatorEffect::Nothing,
        }
    }
}

/// The window title of a screen.
pub open spec fn title_spec(s: Screen) -> Seq<char> {
    match s {
        Screen::MainMenu => "Tabletop Simulator"@,
        Screen::CampaignSelectHero => "Tabletop Simulator — Start Campaign"@,
        Screen::ScenarioSelectHexGrid => "Tabletop Simulator — Load Scenario"@,
        Screen::ScenarioTest { hex_grid_id } => "Tabletop Simulator — Scenario Test (Grid #"@
            + decimal_spec(hex_grid_id as int) + ")"@,
        Screen::CampaignContinueSelect => "Tabletop Simulator — Continue Campaign"@,
        Screen::CampaignHome { campaign_id } => "Tabletop Simulator — Campaign #"@ + decimal_spec(
            campaign_id as int,
        ),
    }
}

impl Simulator {
    /// The initial state: the main menu, nothing loaded.
    pub fn new() -> (r: Simulator)
        ensures
            r@ == SimulatorView::initial(),
    {
        Simulator {
            screen: Screen::MainMenu,
            units: Vec::new(),
            selected_hero: None,
            campaign_saved: None,
            scenario_hex_grids: Vec::new(),
            selected_scenario_hex_grid_id: None,
            scenario_test_hex_grid: None,
            scenario_test_tiles: Vec::new(),
            campaigns: Vec::new(),
            load_error: None,
        }
    }

    /// Clears transient feedback (the error and the "saved" banner).
    pub fn clear_feedback(&mut self)
        ensures
            final(self)@ == old(self)@.cleared_feedback(),
    {
        self.load_error = None;
        self.campaign_saved = None;
    }

    /// Resets state for the start-campaign flow.
    pub fn reset_start_campaign_flow(&mut self)
        ensures
            final(self)@ == old(self)@.reset_start_campaign(),
    {
        self.units.clear();
        self.selected_hero = None;
        self.campaign_saved = None;
        self.load_error = None;
    }

    /// Resets state for the load-scenario flow.
    pub fn reset_load_scenario_flow(&mut self)
        ensures
            final(self)@ == old(self)@.reset_load_scenario(),
    {
        self.scenario_hex_grids.clear();
        self.selected_scenario_hex_grid_id = None;
        self.load_error = None;
    }

    /// Resets state for the scenario-test view.
    pub fn reset_scenario_test(&mut self)
        ensures
            final(self)@ == old(self)@.reset_scenario(),
    {
        self.scenario_test_hex_grid = None;
        self.scenario_test_tiles.clear();
        self.load_error = None;
    }

    /// Resets state for the continue-campaign flow.
    pub fn reset_continue_campaign_flow(&mut self)
        ensures
            final(self)@ == old(self)@.reset_continue_campaign(),
    {
        self.campaigns.clear();
        self.campaign_saved = None;
        self.load_error = None;
    }

    /// The window title for the current screen.
    pub fn title(&self) -> (r: String)
        ensures
            r@ == title_spec(self.screen),
    {
        match self.screen {
            Screen::MainMenu => "Tabletop Simulator".to_owned(),
            Screen::CampaignSelectHero => "Tabletop Simulator — Start Campaign".to_owned(),
            Screen::ScenarioSelectHexGrid => "Tabletop Simulator — Load Scenario".to_owned(),
            Screen::ScenarioTest { hex_grid_id } => {
                let digits = i64_to_string(hex_grid_id);
                concat3("Tabletop Simulator — Scenario Test (Grid #", digits.as_str(), ")")
            },
            Screen::CampaignContinueSelect => "Tabletop Simulator — Continue Campaign".to_owned(),
            Screen::CampaignHome { campaign_id } => {
                let digits = i64_to_string(campaign_id);
                concat2("Tabletop Simulator — Campaign #", digits.as_str())
            },
        }
    }

    /// Decides a message: updates the navigation state and says what the
    /// host does next (load from or write to a database, or close).
    pub fn update(&mut self, message: Message) -> (r: SimulatorEffect)
        ensures
            final(self)@ == old(self)@.after(message),
            r == old(self)@.effect(message),
            message is ContinueCampaign ==> r == SimulatorEffect::LoadCampaigns
                && final(self)@.screen == Screen::CampaignContinueSelect,
            message is StartCampaign ==> r == SimulatorEffect::LoadUnits
                && final(self)@.screen == Screen::CampaignSelectHero,
            message is LoadScenario ==> r == SimulatorEffect::LoadHexGrids
                && final(self)@.screen == Screen::ScenarioSelectHexGrid,
    {
        match message {
            Message::StartCampaign => {
                self.screen = Screen::CampaignSelectHero;
                self.reset_start_campaign_flow();
                SimulatorEffect::LoadUnits
            },
            Message::LoadScenario => {
                self.screen = Screen::ScenarioSelectHexGrid;
                self.reset_load_scenario_flow();
                SimulatorEffect::LoadHexGrids
            },
            Message::ContinueCampaign => {
                self.screen = Screen::CampaignContinueSelect;
                self.reset_continue_campaign_flow();
                SimulatorEffect::LoadCampaigns
            },
            Message::ExitApp => SimulatorEffect::CloseWindow,
            Message::BackToMenu => {
                self.screen = Screen::MainMenu;
                self.clear_feedback();
                SimulatorEffect::Nothing
            },
            Message::SelectHero(name) => {
                self.selected_hero = Some(name);
                self.clear_feedback();
                SimulatorEffect::Nothing
            },
            Message::BeginCampaign => SimulatorEffect::CreateCampaign,
            Message::SelectScenarioHexGrid(hex_grid_id) => {
                self.screen = Screen::ScenarioTest { hex_grid_id };
                self.reset_scenario_test();
                SimulatorEffect::LoadScenarioTest(hex_grid_id)
            },
            Message::StartScenario => {
                match self.selected_scenario_hex_grid_id {
                    Some(hex_grid_id) => {
                        self.screen = Screen::ScenarioTest { hex_grid_id };
                        self.reset_scenario_test();
                        SimulatorEffect::LoadScenarioTest(hex_grid_id)
                    },
                    None => {
                        self.load_error = Some("No scenario hex grid selected.".to_owned());
                        SimulatorEffect::Nothing
                    },
                }
            },
            Message::SelectCampaign(campaign_id) => {
                self.screen = Screen::CampaignHome { campaign_id };
                self.clear_feedback();
                SimulatorEffect::Nothing
            },
        }
    }
}

/// Each screen that lists stored data is entered together with the request
/// that loads that data, and a load is only requested by entering its
/// screen: Continue Campaign loads the campaigns, Start Campaign the units,
/// Load Scenario the hex grids, and a scenario test its grid and tiles.
pub proof fn lemma_list_screens_request_their_data(s: SimulatorView, m: Message)
    ensures
        m is ContinueCampaign ==> s.after(m).screen == Screen::CampaignContinueSelect && s.effect(m)
            == SimulatorEffect::LoadCampaigns && s.after(m).campaigns.len() == 0,
        m is StartCampaign ==> s.after(m).screen == Screen::CampaignSelectHero && s.effect(m)
            == SimulatorEffect::LoadUnits && s.after(m).units.len() == 0,
        m is LoadScenario ==> s.after(m).screen == Screen::ScenarioSelectHexGrid && s.effect(m)
            == SimulatorEffect::LoadHexGrids && s.after(m).scenario_hex_grids.len() == 0,
        s.after(m).screen != s.screen ==> match s.after(m).screen {
            Screen::CampaignContinueSelect => s.effect(m) == SimulatorEffect::LoadCampaigns,
            Screen::CampaignSelectHero => s.effect(m) == SimulatorEffect::LoadUnits,
            Screen::ScenarioSelectHexGrid => s.effect(m) == SimulatorEffect::LoadHexGrids,
            Screen::ScenarioTest { hex_grid_id } => s.effect(m) == SimulatorEffect::LoadScenarioTest(
                hex_grid_id,
            ),
            _ => true,
        },
        s.effect(m) == SimulatorEffect::LoadCampaigns ==> s.after(m).screen == Screen::CampaignContinueSelect,
        s.effect(m) == SimulatorEffect::LoadUnits ==> s.after(m).screen == Screen::CampaignSelectHero,
        s.effect(m) == SimulatorEffect::LoadHexGrids ==> s.after(m).screen == Screen::ScenarioSelectHexGrid,
        s.effect(m) matches SimulatorEffect::LoadScenarioTest(id) ==> s.after(m).screen
            == (Screen::ScenarioTest { hex_grid_id: id }),
{
}

} // verus!
