use rusqlite::Connection;
use tabletop::cards::unit::Unit;
use tabletop::simulator::handlers::{
    apply_units_result, create_campaign_from_selected_hero, ensure_simulator_db_ready,
    load_campaigns_from_simulator_db, load_units_from_core_db,
};
use tabletop::simulator::state::{Simulator, SimulatorEffect};
use tabletop::simulator::types::{Message, Screen};

#[test]
fn titles_follow_the_screen() {
    let mut app = Simulator::new();
    assert_eq!(app.title(), "Tabletop Simulator");
    app.screen = Screen::ScenarioTest { hex_grid_id: 12 };
    assert_eq!(app.title(), "Tabletop Simulator — Scenario Test (Grid #12)");
    app.screen = Screen::CampaignHome { campaign_id: -3 };
    assert_eq!(app.title(), "Tabletop Simulator — Campaign #-3");
}

#[test]
fn menu_navigation_and_effects() {
    let mut app = Simulator::new();
    assert_eq!(app.update(Message::StartCampaign), SimulatorEffect::LoadUnits);
    assert_eq!(app.screen, Screen::CampaignSelectHero);
    assert_eq!(app.update(Message::SelectHero("Hero".to_string())), SimulatorEffect::Nothing);
    assert_eq!(app.selected_hero.as_deref(), Some("Hero"));
    assert_eq!(app.update(Message::BeginCampaign), SimulatorEffect::CreateCampaign);
    assert_eq!(app.update(Message::BackToMenu), SimulatorEffect::Nothing);
    assert_eq!(app.screen, Screen::MainMenu);

    assert_eq!(app.update(Message::StartScenario), SimulatorEffect::Nothing);
    assert_eq!(app.load_error.as_deref(), Some("No scenario hex grid selected."));
    assert_eq!(app.update(Message::SelectScenarioHexGrid(5)), SimulatorEffect::LoadScenarioTest(5));
    assert_eq!(app.screen, Screen::ScenarioTest { hex_grid_id: 5 });
    assert_eq!(app.update(Message::ExitApp), SimulatorEffect::CloseWindow);
}

#[test]
fn unit_loading_outcomes() {
    let mut app = Simulator::new();
    apply_units_result(&mut app, Err("boom".to_string()));
    assert_eq!(app.load_error.as_deref(), Some("boom"));
    let u = Unit {
        name: "Hero".to_string(),
        strength: 1,
        focus: 1,
        intelligence: 1,
        agility: 1,
        knowledge: 1,
    };
    apply_units_result(&mut app, Ok(vec![u.clone()]));
    assert_eq!(app.load_error, None);
    assert_eq!(app.units, vec![u]);

    load_units_from_core_db(&mut app, Err("no core db".to_string()));
    assert!(app.units.is_empty());
    assert_eq!(app.load_error.as_deref(), Some("no core db"));
}

#[test]
fn campaigns_need_a_hero_and_a_ready_database() {
    let mut app = Simulator::new();
    assert!(!ensure_simulator_db_ready(&mut app, Err("locked".to_string())));
    assert_eq!(app.load_error.as_deref(), Some("Failed to apply simulator migrations: locked"));

    create_campaign_from_selected_hero(&mut app, Ok(()), Err("unused".to_string()));
    assert_eq!(app.load_error.as_deref(), Some("No hero selected."));

    let mut conn = Connection::open_in_memory().expect("open");
    tabletop::simulator::db::apply_migrations(&mut conn).expect("migrate");
    // The in-memory database lives as long as this one connection; the
    // handlers take it by value, so store first, then list from the same one.
    app.selected_hero = Some("Hero".to_string());
    tabletop::simulator::db::create_campaign(&conn, "Hero").expect("create");
    load_campaigns_from_simulator_db(&mut app, Ok(()), Ok(conn));
    assert_eq!(app.load_error, None);
    assert_eq!(app.campaigns.len(), 1);
    assert_eq!(app.campaigns[0].hero_unit_name, "Hero");

    let conn = Connection::open_in_memory().expect("open");
    create_campaign_from_selected_hero(&mut app, Ok(()), Ok(conn));
    assert!(app.load_error.as_deref().unwrap().starts_with("Failed to create campaign: "));
    assert_eq!(app.campaign_saved, None);
}
