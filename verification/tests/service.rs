use std::collections::BTreeMap;

use custom_agent_service::agent::{
    is_valid_custom_agent_id, validate, BinaryPlatformSpec, CustomAgentDef, CustomAgentSource,
    CustomAgentSpec, CustomDistributionKind, NpxSpec, UvxSpec,
};
use custom_agent_service::registry::{hydrate, LaunchRegistry};
use custom_agent_service::row::{AgentColumns, CustomAgentRow};
use custom_agent_service::service::{
    def_from_model, list_defs, normalize_version_probe, row_was_removed, upsert, upsert_write,
    DbError, UpsertWrite, FALLBACK_VERSION,
};

/// A table held in memory, standing in for the database: the service's
/// decisions are applied to it the way the store applies them to its table.
/// The channels of each row are kept beside it, keyed by its `spec_json`, in
/// place of a JSON encoding.
struct Table {
    rows: Vec<CustomAgentRow>,
    encoded: Vec<(String, CustomAgentSpec)>,
    next_id: i32,
    clock: i64,
}

impl Table {
    fn new() -> Table {
        Table { rows: Vec::new(), encoded: Vec::new(), next_id: 1, clock: 1_000 }
    }

    fn get(&self, registry_id: &str) -> Option<CustomAgentRow> {
        self.rows.iter().find(|r| r.registry_id == registry_id).cloned()
    }

    fn list(&self) -> Vec<CustomAgentRow> {
        let mut rows = self.rows.clone();
        rows.sort_by_key(|r| r.registry_id.clone());
        rows
    }

    fn decode(&self, spec_json: &str) -> Option<CustomAgentSpec> {
        self.encoded.iter().find(|(j, _)| j == spec_json).map(|(_, s)| s.clone())
    }

    fn upsert(&mut self, def: &CustomAgentDef) -> Result<(), DbError> {
        let spec_json = format!("spec:{}:{}", def.registry_id, self.encoded.len());
        let columns = upsert(def, Ok(spec_json.clone()))?;
        self.encoded.push((spec_json, def.spec.clone()));
        self.clock += 1;
        match upsert_write(columns, self.get(&def.registry_id), self.clock) {
            UpsertWrite::Update(row) => {
                let slot = self.rows.iter_mut().find(|r| r.id == row.id).unwrap();
                *slot = row;
            }
            UpsertWrite::Insert(new) => {
                let c = new.columns;
                self.rows.push(CustomAgentRow {
                    id: self.next_id,
                    registry_id: c.registry_id,
                    name: c.name,
                    description: c.description,
                    version: c.version,
                    distribution_kind: c.distribution_kind,
                    spec_json: c.spec_json,
                    icon_url: c.icon_url,
                    skills_shared_store: c.skills_shared_store,
                    skills_dir: c.skills_dir,
                    source: c.source,
                    version_probe: c.version_probe,
                    supports_mcp: c.supports_mcp,
                    created_at: new.created_at,
                    updated_at: new.updated_at,
                });
                self.next_id += 1;
            }
        }
        Ok(())
    }

    fn delete(&mut self, registry_id: &str) -> bool {
        let before = self.rows.len();
        self.rows.retain(|r| r.registry_id != registry_id);
        row_was_removed((before - self.rows.len()) as u64)
    }

    fn list_defs(&self) -> Vec<CustomAgentDef> {
        let rows = self.list();
        let specs = rows.iter().map(|r| self.decode(&r.spec_json)).collect();
        list_defs(&rows, specs)
    }

    fn hydrate(&self) -> (LaunchRegistry, Vec<(String, String)>) {
        hydrate(self.list_defs())
    }
}

fn npx_def(id: &str) -> CustomAgentDef {
    CustomAgentDef {
        registry_id: id.to_string(),
        name: "Qwen Code".into(),
        description: "desc".into(),
        version: "0.21.0".into(),
        distribution_kind: CustomDistributionKind::Npx,
        spec: CustomAgentSpec {
            npx: Some(NpxSpec {
                package: "@qwen-code/qwen-code@0.21.0".into(),
                args: vec!["--acp".into()],
                cmd: Some("qwen".into()),
                ..Default::default()
            }),
            ..Default::default()
        },
        icon_url: Some("https://example.com/i.svg".into()),
        skills_shared_store: false,
        skills_dir: None,
        source: Default::default(),
        version_probe: None,
        supports_mcp: true,
    }
}

fn row_of(id: i32, registry_id: &str, kind: &str, spec_json: &str, source: &str) -> CustomAgentRow {
    CustomAgentRow {
        id,
        registry_id: registry_id.into(),
        name: "Broken".into(),
        description: String::new(),
        version: "1".into(),
        distribution_kind: kind.into(),
        spec_json: spec_json.into(),
        icon_url: None,
        skills_shared_store: false,
        skills_dir: None,
        source: source.into(),
        version_probe: None,
        supports_mcp: true,
        created_at: 5,
        updated_at: 5,
    }
}

#[test]
fn upsert_inserts_then_updates_in_place() {
    let mut db = Table::new();
    db.upsert(&npx_def("qwen-code")).unwrap();
    assert_eq!(db.list().len(), 1);

    let mut edited = npx_def("qwen-code");
    edited.name = "Qwen (edited)".into();
    edited.version = "0.22.0".into();
    db.upsert(&edited).unwrap();

    let rows = db.list();
    assert_eq!(rows.len(), 1, "same registry_id must update, not duplicate");
    assert_eq!(rows[0].name, "Qwen (edited)");
    assert_eq!(rows[0].version, "0.22.0");
    assert!(rows[0].updated_at >= rows[0].created_at);
}

#[test]
fn upsert_rejects_definitions_that_could_never_launch() {
    let mut db = Table::new();

    let mut bad_id = npx_def("qwen-code");
    bad_id.registry_id = "../escape".into();
    assert!(db.upsert(&bad_id).is_err());

    // Declares the npx channel but supplies only a binary spec.
    let mut wrong_channel = npx_def("mismatch");
    wrong_channel.spec.npx = None;
    wrong_channel.spec.binary.insert(
        "linux-x86_64".into(),
        BinaryPlatformSpec {
            archive: "https://example.com/a.tar.gz".into(),
            cmd: "./a".into(),
            ..Default::default()
        },
    );
    assert!(db.upsert(&wrong_channel).is_err());

    assert!(db.list().is_empty());
}

#[test]
fn blank_version_falls_back_rather_than_persisting_empty() {
    let mut db = Table::new();
    let mut def = npx_def("no-version");
    def.version = "   ".into();
    db.upsert(&def).unwrap();
    assert_eq!(db.get("no-version").unwrap().version, FALLBACK_VERSION);
}

#[test]
fn the_mcp_opt_out_persists_and_is_editable_in_place() {
    let mut db = Table::new();
    let mut def = npx_def("mcp-row");
    def.supports_mcp = false;
    db.upsert(&def).unwrap();
    let row = db.get("mcp-row").unwrap();
    assert!(!row.supports_mcp);
    let spec = db.decode(&row.spec_json);
    assert!(!def_from_model(&row, spec).expect("readable").supports_mcp);

    // The update arm has to write it too, or turning MCP back on would
    // appear to save and silently do nothing.
    def.supports_mcp = true;
    db.upsert(&def).unwrap();
    assert!(db.get("mcp-row").unwrap().supports_mcp);
}

#[test]
fn delete_reports_whether_a_row_was_removed() {
    let mut db = Table::new();
    db.upsert(&npx_def("gone")).unwrap();
    assert!(db.delete("gone"));
    assert!(!db.delete("gone"));
    assert!(db.get("gone").is_none());
}

#[test]
fn unreadable_rows_are_skipped_not_fatal() {
    let mut db = Table::new();
    db.upsert(&npx_def("good-one")).unwrap();
    // Corrupt a row the way a hand-edited DB or a future schema would.
    db.rows.push(row_of(99, "broken-one", "carrier-pigeon", "{not json", "registry"));

    let defs = db.list_defs();
    assert_eq!(defs.len(), 1);
    assert_eq!(defs[0].registry_id, "good-one");
}

#[test]
fn hydrate_registry_publishes_rows_to_the_launch_registry() {
    let mut db = Table::new();
    db.upsert(&npx_def("hydrate-svc-agent")).unwrap();
    let (registry, errors) = db.hydrate();
    assert!(errors.is_empty());
    assert!(registry.is_registered("hydrate-svc-agent"));
    let meta = registry.get("hydrate-svc-agent").unwrap();
    assert_eq!(meta.name, "Qwen Code");

    db.delete("hydrate-svc-agent");
    let (registry, _) = db.hydrate();
    assert!(!registry.is_registered("hydrate-svc-agent"));
}

#[test]
fn def_round_trips_through_the_row() {
    let mut db = Table::new();
    let mut def = npx_def("round-trip");
    def.skills_shared_store = true;
    def.skills_dir = Some("/opt/agent/skills".into());
    def.source = CustomAgentSource::Manual;
    def.version_probe = Some("qwen --version".into());
    db.upsert(&def).unwrap();
    let row = db.get("round-trip").unwrap();
    let back = def_from_model(&row, db.decode(&row.spec_json)).expect("readable");
    assert_eq!(back.registry_id, def.registry_id);
    assert_eq!(back.distribution_kind, def.distribution_kind);
    assert_eq!(back.icon_url, def.icon_url);
    assert!(back.skills_shared_store);
    assert_eq!(back.skills_dir.as_deref(), Some("/opt/agent/skills"));
    assert_eq!(back.source, CustomAgentSource::Manual);
    assert_eq!(back.version_probe.as_deref(), Some("qwen --version"));
    assert!(back.supports_mcp, "the default survives the row");
    let npx = back.spec.npx.expect("npx channel survives");
    assert_eq!(npx.package, "@qwen-code/qwen-code@0.21.0");
    assert_eq!(npx.cmd.as_deref(), Some("qwen"));
    assert_eq!(npx.args, vec!["--acp".to_string()]);
    let _ = BTreeMap::<String, String>::new();
}

// ---- the service's functions on given values ----

#[test]
fn kind_and_source_names_round_trip() {
    for k in [CustomDistributionKind::Npx, CustomDistributionKind::Uvx, CustomDistributionKind::Binary] {
        assert_eq!(CustomDistributionKind::parse(k.as_str()), Some(k));
    }
    assert_eq!(CustomDistributionKind::Binary.as_str(), "binary");
    assert_eq!(CustomDistributionKind::parse("carrier-pigeon"), None);
    assert_eq!(CustomDistributionKind::parse("NPX"), None);
    for s in [CustomAgentSource::Registry, CustomAgentSource::Manual] {
        assert_eq!(CustomAgentSource::parse(s.as_str()), s);
    }
    assert_eq!(CustomAgentSource::parse("something-else"), CustomAgentSource::Registry);
    assert_eq!(CustomAgentSource::default(), CustomAgentSource::Registry);
}

#[test]
fn custom_agent_ids_are_lowercase_words() {
    assert!(is_valid_custom_agent_id("qwen-code"));
    assert!(is_valid_custom_agent_id("agent_2"));
    assert!(!is_valid_custom_agent_id(""));
    assert!(!is_valid_custom_agent_id("../escape"));
    assert!(!is_valid_custom_agent_id("Qwen"));
    assert!(!is_valid_custom_agent_id("a b"));
}

#[test]
fn validation_names_the_missing_channel() {
    let mut def = npx_def("x");
    assert_eq!(validate(&def), Ok(()));
    def.spec.npx.as_mut().unwrap().package = String::new();
    assert_eq!(validate(&def), Err("npx distribution has an empty package".to_string()));
    def.spec.npx = None;
    assert_eq!(validate(&def), Err("npx distribution has no npx spec".to_string()));

    def.distribution_kind = CustomDistributionKind::Uvx;
    assert_eq!(validate(&def), Err("uvx distribution has no uvx spec".to_string()));
    def.spec.uvx = Some(UvxSpec { package: "tool".into(), ..Default::default() });
    assert_eq!(validate(&def), Ok(()));

    def.distribution_kind = CustomDistributionKind::Binary;
    assert_eq!(validate(&def), Err("binary distribution has no platform archives".to_string()));
    def.spec.binary.insert("linux-x86_64".into(), BinaryPlatformSpec::default());
    assert_eq!(validate(&def), Ok(()));
}

#[test]
fn upsert_reports_each_refusal() {
    let mut bad = npx_def("../escape");
    assert_eq!(
        upsert(&bad, Ok("{}".into())),
        Err(DbError::Migration("invalid custom agent id: ../escape".into()))
    );
    bad.registry_id = "ok".into();
    bad.spec.npx = None;
    assert_eq!(
        upsert(&bad, Ok("{}".into())),
        Err(DbError::Migration("npx distribution has no npx spec".into()))
    );
    assert_eq!(
        upsert(&npx_def("ok"), Err("encoder failed".into())),
        Err(DbError::Migration("encoder failed".into()))
    );
}

#[test]
fn upsert_trims_and_normalises_the_columns() {
    let mut def = npx_def("trimmed");
    def.name = "  Qwen Code\t".into();
    def.description = "\n desc ".into();
    def.version = " 1.2.3 ".into();
    def.version_probe = Some("  qwen --version ".into());
    def.source = CustomAgentSource::Manual;
    let c: AgentColumns = upsert(&def, Ok("{\"npx\":{}}".into())).unwrap();
    assert_eq!(c.registry_id, "trimmed");
    assert_eq!(c.name, "Qwen Code");
    assert_eq!(c.description, "desc");
    assert_eq!(c.version, "1.2.3");
    assert_eq!(c.distribution_kind, "npx");
    assert_eq!(c.spec_json, "{\"npx\":{}}");
    assert_eq!(c.source, "manual");
    // The probe is stored as given; it is trimmed when read back.
    assert_eq!(c.version_probe.as_deref(), Some("  qwen --version "));
}

#[test]
fn unicode_white_space_counts_as_blank() {
    let mut def = npx_def("wide-space");
    def.version = "\u{3000}\u{00A0}".into();
    let c = upsert(&def, Ok(String::new())).unwrap();
    assert_eq!(c.version, FALLBACK_VERSION);
}

#[test]
fn version_probe_is_trimmed_and_blank_dropped() {
    assert_eq!(normalize_version_probe(&Some("  qwen --version\n".into())), Some("qwen --version".into()));
    assert_eq!(normalize_version_probe(&Some(" \t ".into())), None);
    assert_eq!(normalize_version_probe(&None), None);
}

#[test]
fn update_keeps_key_id_and_creation_time() {
    let c = upsert(&npx_def("keep"), Ok("j".into())).unwrap();
    let mut existing = row_of(7, "keep", "npx", "old", "registry");
    existing.created_at = 100;
    existing.updated_at = 150;
    match upsert_write(c.clone(), Some(existing), 200) {
        UpsertWrite::Update(r) => {
            assert_eq!(r.id, 7);
            assert_eq!(r.registry_id, "keep");
            assert_eq!(r.name, "Qwen Code");
            assert_eq!(r.spec_json, "j");
            assert_eq!(r.created_at, 100);
            assert_eq!(r.updated_at, 200);
        }
        UpsertWrite::Insert(_) => panic!("an existing row must be updated"),
    }
    match upsert_write(c, None, 300) {
        UpsertWrite::Insert(n) => {
            assert_eq!(n.created_at, 300);
            assert_eq!(n.updated_at, 300);
            assert_eq!(n.columns.registry_id, "keep");
        }
        UpsertWrite::Update(_) => panic!("a new id must be inserted"),
    }
}

#[test]
fn unknown_kind_or_undecodable_spec_is_unreadable() {
    let good = row_of(1, "a", "npx", "{}", "manual");
    assert!(def_from_model(&good, None).is_none());
    let spec = CustomAgentSpec::default();
    let bad_kind = row_of(2, "b", "carrier-pigeon", "{}", "manual");
    assert!(def_from_model(&bad_kind, Some(spec.clone())).is_none());
    let d = def_from_model(&good, Some(spec)).unwrap();
    assert_eq!(d.distribution_kind, CustomDistributionKind::Npx);
    assert_eq!(d.source, CustomAgentSource::Manual);
    assert_eq!(d.name, "Broken");
}

#[test]
fn listing_keeps_row_order_and_skips_unreadable() {
    let rows = vec![
        row_of(1, "a", "npx", "x", "registry"),
        row_of(2, "b", "npx", "x", "registry"),
        row_of(3, "c", "binary", "x", "registry"),
    ];
    let specs = vec![Some(CustomAgentSpec::default()), None, Some(CustomAgentSpec::default())];
    let defs = list_defs(&rows, specs);
    let ids: Vec<&str> = defs.iter().map(|d| d.registry_id.as_str()).collect();
    assert_eq!(ids, vec!["a", "c"]);
}

#[test]
fn hydrate_reports_definitions_that_cannot_launch() {
    let good = npx_def("good");
    let mut bad = npx_def("bad");
    bad.spec.npx = None;
    let (registry, errors) = hydrate(vec![good, bad]);
    assert!(registry.is_registered("good"));
    assert!(!registry.is_registered("bad"));
    assert!(registry.get("bad").is_none());
    assert_eq!(errors, vec![("bad".to_string(), "npx distribution has no npx spec".to_string())]);
    assert!(!LaunchRegistry::new().is_registered("good"));
}

#[test]
fn delete_outcome_follows_rows_affected() {
    assert!(!row_was_removed(0));
    assert!(row_was_removed(1));
    assert!(row_was_removed(3));
}

#[test]
fn saving_a_read_back_definition_again_writes_the_same_columns() {
    let mut def = npx_def("stable");
    def.name = "  Qwen Code ".into();
    def.version = "\t".into();
    def.version_probe = Some("qwen --version".into());
    let first = upsert(&def, Ok("j".into())).unwrap();
    let row = CustomAgentRow {
        id: 1,
        registry_id: first.registry_id.clone(),
        name: first.name.clone(),
        description: first.description.clone(),
        version: first.version.clone(),
        distribution_kind: first.distribution_kind.clone(),
        spec_json: first.spec_json.clone(),
        icon_url: first.icon_url.clone(),
        skills_shared_store: first.skills_shared_store,
        skills_dir: first.skills_dir.clone(),
        source: first.source.clone(),
        version_probe: first.version_probe.clone(),
        supports_mcp: first.supports_mcp,
        created_at: 1,
        updated_at: 1,
    };
    let back = def_from_model(&row, Some(def.spec.clone())).unwrap();
    assert_eq!(back.name, "Qwen Code");
    assert_eq!(back.version, FALLBACK_VERSION);
    let second = upsert(&back, Ok("j".into())).unwrap();
    assert_eq!(second, first);
}
