use custom_agent_service::agent::{validate, CustomAgentSource, CustomDistributionKind};
use custom_agent_service::row::CustomAgentRow;
use custom_agent_service::seed::{
    sahaa_default_def, seed_sahaa_agent, SeedAction, SeedEvent, SeedOutcome, SeedState,
    SAHAA_SPEC_JSON,
};
use custom_agent_service::service::upsert;

fn row(id: i32, registry_id: &str) -> CustomAgentRow {
    CustomAgentRow {
        id,
        registry_id: registry_id.into(),
        name: "Old".into(),
        description: "old".into(),
        version: "0.1".into(),
        distribution_kind: "binary".into(),
        spec_json: "{}".into(),
        icon_url: Some("icon".into()),
        skills_shared_store: true,
        skills_dir: Some("/skills".into()),
        source: "registry".into(),
        version_probe: Some("old --version".into()),
        supports_mcp: false,
        created_at: 10,
        updated_at: 20,
    }
}

/// Runs seeding against `rows`, answering each action; returns the actions
/// taken and the outcome.
fn run(rows: Vec<CustomAgentRow>, save_ok: bool) -> (Vec<&'static str>, SeedOutcome, Option<CustomAgentRow>) {
    let mut state = SeedState::Start;
    let mut event = SeedEvent::Begin;
    let mut taken = Vec::new();
    let mut corrected = None;
    loop {
        let (next, action) = seed_sahaa_agent(state, event);
        state = next;
        event = match action {
            SeedAction::LookUpExact => {
                taken.push("lookup");
                SeedEvent::ExactLookup(rows.iter().any(|r| r.registry_id == "sahaa"))
            }
            SeedAction::ListRows => {
                taken.push("list");
                SeedEvent::Rows(rows.clone(), 99)
            }
            SeedAction::CorrectRow(r) => {
                taken.push("correct");
                corrected = Some(r);
                SeedEvent::RowCorrected
            }
            SeedAction::RefreshRegistry => {
                taken.push("refresh");
                SeedEvent::RegistryRefreshed
            }
            SeedAction::SaveDefault(d) => {
                taken.push("save");
                assert_eq!(d.registry_id, "sahaa");
                SeedEvent::DefaultSaved(save_ok)
            }
            SeedAction::RemoveStaleSettings => {
                taken.push("remove-stale");
                SeedEvent::StaleSettingsRemoved
            }
            SeedAction::PinDefault => {
                taken.push("pin");
                SeedEvent::DefaultPinned
            }
            SeedAction::Finish(outcome) => return (taken, outcome, corrected),
        };
    }
}

#[test]
fn seeding_skips_an_agent_that_is_already_there() {
    let (taken, outcome, _) = run(vec![row(1, "qwen"), row(2, "sahaa")], true);
    assert_eq!(taken, vec!["lookup"]);
    assert_eq!(outcome, SeedOutcome::AlreadyPresent);
}

#[test]
fn seeding_corrects_an_uppercase_leftover_in_place() {
    let (taken, outcome, corrected) = run(vec![row(1, "qwen"), row(4, "Sahaa")], true);
    assert_eq!(taken, vec!["lookup", "list", "correct", "refresh"]);
    assert_eq!(outcome, SeedOutcome::Corrected);
    let r = corrected.unwrap();
    assert_eq!(r.id, 4);
    assert_eq!(r.registry_id, "sahaa");
    assert_eq!(r.name, "Sahaa");
    assert_eq!(r.description, "Sahaa AI coding agent");
    assert_eq!(r.version, "custom");
    assert_eq!(r.distribution_kind, "npx");
    assert_eq!(r.spec_json, SAHAA_SPEC_JSON);
    assert_eq!(
        r.spec_json,
        r#"{"npx":{"package":"sahaa","args":[],"env":{},"cmd":"sahaa"}}"#
    );
    assert_eq!(r.source, "manual");
    assert!(r.supports_mcp);
    assert_eq!(r.icon_url.as_deref(), Some("icon"));
    assert!(r.skills_shared_store);
    assert_eq!(r.version_probe.as_deref(), Some("old --version"));
    assert_eq!(r.created_at, 10);
    assert_eq!(r.updated_at, 99);
}

#[test]
fn seeding_picks_the_first_leftover() {
    let (_, _, corrected) = run(vec![row(3, "SAHAA"), row(5, "SaHaA")], true);
    assert_eq!(corrected.unwrap().id, 3);
}

#[test]
fn seeding_saves_publishes_and_pins_a_fresh_agent() {
    let (taken, outcome, _) = run(vec![row(1, "qwen")], true);
    assert_eq!(taken, vec!["lookup", "list", "save", "refresh", "remove-stale", "pin"]);
    assert_eq!(outcome, SeedOutcome::Seeded);
}

#[test]
fn a_failed_save_ends_seeding_quietly() {
    let (taken, outcome, _) = run(Vec::new(), false);
    assert_eq!(taken, vec!["lookup", "list", "save"]);
    assert_eq!(outcome, SeedOutcome::SaveFailed);
}

#[test]
fn events_out_of_order_end_seeding() {
    let (state, action) = seed_sahaa_agent(SeedState::Start, SeedEvent::RowCorrected);
    assert_eq!(state, SeedState::Finished);
    assert!(matches!(action, SeedAction::Finish(SeedOutcome::OutOfOrder)));
}

#[test]
fn the_bundled_definition_passes_the_save_checks() {
    let d = sahaa_default_def();
    assert_eq!(d.registry_id, "sahaa");
    assert_eq!(d.name, "Sahaa");
    assert_eq!(d.distribution_kind, CustomDistributionKind::Npx);
    assert_eq!(d.source, CustomAgentSource::Manual);
    let npx = d.spec.npx.clone().unwrap();
    assert_eq!(npx.package, "sahaa");
    assert_eq!(npx.cmd.as_deref(), Some("sahaa"));
    assert!(d.icon_url.as_deref().unwrap().starts_with("data:image/png;base64,iVBORw0KGgo"));
    assert!(d.icon_url.as_deref().unwrap().ends_with("AAAABJRU5ErkJggg=="));
    assert_eq!(d.icon_url.as_deref().unwrap().len(), 33582);
    assert_eq!(validate(&d), Ok(()));
    let c = upsert(&d, Ok("{}".into())).unwrap();
    assert_eq!(c.version, "custom");
}
