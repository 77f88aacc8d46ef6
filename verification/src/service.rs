//! The decisions of the custom agent service: reading rows back into
//! definitions, and preparing a definition for saving.

use vstd::prelude::*;
use vstd::string::*;

use crate::agent::{
    launch_problem, launchable, valid_custom_agent_id, validate, is_valid_custom_agent_id,
    AgentDefModel, CustomAgentDef, CustomAgentSource, CustomAgentSpec, CustomDistributionKind,
};
use crate::row::{AgentColumns, ColumnsModel, CustomAgentRow, NewAgentRow, RowModel};
use crate::text::{clone_opt_string, opt_chars, trim, trim_chars};

verus! {

/// The version stored for a definition whose version is blank.
pub const FALLBACK_VERSION: &'static str = "custom";

/// Why a service call failed.
#[derive(Clone, Debug, PartialEq)]
pub enum DbError {
    /// The definition was refused before anything was written.
    Migration(String),
    /// The database reported an error.
    Database(String),
}

/// A version probe as the launcher uses it: trimmed, and absent when blank.
pub open spec fn normalized_probe(p: Option<Seq<char>>) -> Option<Seq<char>> {
    match p {
        Some(s) => if trim_chars(s).len() > 0 {
            Some(trim_chars(s))
        } else {
            None
        },
        None => None,
    }
}

pub fn normalize_version_probe(p: &Option<String>) -> (r: Option<String>)
    ensures
        opt_chars(r) == normalized_probe(opt_chars(*p)),
{
    match p {
        Some(s) => {
            let t = trim(s.as_str());
            if t.is_empty() {
                None
            } else {
                Some(t.to_owned())
            }
        },
        None => None,
    }
}

/// The definition a stored row describes, given the channels decoded from its
/// `spec_json`; `None` when its `distribution_kind` is not a known kind.
pub open spec fn def_from_row(row: RowModel, spec: CustomAgentSpec) -> Option<AgentDefModel> {
    let c = row.columns;
    match CustomDistributionKind::from_wire(c.distribution_kind) {
        Some(kind) => Some(
            AgentDefModel {
                registry_id: c.registry_id,
                name: c.name,
                description: c.description,
                version: c.version,
                distribution_kind: kind,
                spec: spec,
                icon_url: c.icon_url,
                skills_shared_store: c.skills_shared_store,
                skills_dir: c.skills_dir,
                source: CustomAgentSource::from_wire(c.source),
                version_probe: normalized_probe(c.version_probe),
                supports_mcp: c.supports_mcp,
            },
        ),
        None => None,
    }
}

/// The definition read from a row whose `spec_json` decoded to `spec`
/// (`None`: it did not decode).
pub open spec fn read_row(row: RowModel, spec: Option<CustomAgentSpec>) -> Option<AgentDefModel> {
    match spec {
        Some(s) => def_from_row(row, s),
        None => None,
    }
}

/// Converts a stored row into a launch definition. `spec` is the row's
/// `spec_json` decoded as JSON, `None` when it does not decode. Returns `None`
/// when the row is unusable (bad `spec_json`, unknown distribution kind), so
/// that the caller can skip it rather than fail.
pub fn def_from_model(model: &CustomAgentRow, spec: Option<CustomAgentSpec>) -> (def: Option<
    CustomAgentDef,
>)
    ensures
        match read_row(model@, spec) {
            Some(m) => def matches Some(d) && d@ == m,
            None => def is None,
        },
        def matches Some(d) ==> {
            &&& spec == Some(d.spec)
            &&& d.registry_id@ == model.registry_id@
            &&& d.name@ == model.name@
            &&& d.description@ == model.description@
            &&& d.version@ == model.version@
            &&& d.distribution_kind.wire_name() == model.distribution_kind@
            &&& d.icon_url == model.icon_url
            &&& d.skills_shared_store == model.skills_shared_store
            &&& d.skills_dir == model.skills_dir
            &&& d.source == CustomAgentSource::from_wire(model.source@)
            &&& d.supports_mcp == model.supports_mcp
        },
{
    let spec = match spec {
        Some(s) => s,
        None => return None,
    };
    let distribution_kind = match CustomDistributionKind::parse(model.distribution_kind.as_str()) {
        Some(k) => k,
        None => return None,
    };
    Some(
        CustomAgentDef {
            registry_id: model.registry_id.clone(),
            name: model.name.clone(),
            description: model.description.clone(),
            version: model.version.clone(),
            distribution_kind,
            spec,
            icon_url: clone_opt_string(&model.icon_url),
            skills_shared_store: model.skills_shared_store,
            skills_dir: clone_opt_string(&model.skills_dir),
            source: CustomAgentSource::parse(model.source.as_str()),
            version_probe: normalize_version_probe(&model.version_probe),
            supports_mcp: model.supports_mcp,
        },
    )
}

/// The definitions read from `rows`, in order, skipping the unreadable ones;
/// `specs[i]` is what the `spec_json` of `rows[i]` decoded to.
pub open spec fn readable_defs(rows: Seq<RowModel>, specs: Seq<Option<CustomAgentSpec>>) -> Seq<
    AgentDefModel,
>
    decreases rows.len(),
{
    if rows.len() == 0 {
        Seq::empty()
    } else {
        let n = rows.len() - 1;
        let prev = readable_defs(rows.take(n), specs);
        match read_row(rows[n], specs[n]) {
            Some(d) => prev.push(d),
            None => prev,
        }
    }
}

pub open spec fn row_models(rows: Seq<CustomAgentRow>) -> Seq<RowModel> {
    rows.map_values(|r: CustomAgentRow| r@)
}

pub open spec fn def_models(defs: Seq<CustomAgentDef>) -> Seq<AgentDefModel> {
    defs.map_values(|d: CustomAgentDef| d@)
}

/// The definitions of all readable rows, in row order. An unreadable row
/// (bad `spec_json`, unknown distribution kind) is skipped rather than failing
/// the whole listing. `specs[i]` is the `spec_json` of `rows[i]` decoded as
/// JSON, `None` when it does not decode.
pub fn list_defs(rows: &Vec<CustomAgentRow>, specs: Vec<Option<CustomAgentSpec>>) -> (defs: Vec<
    CustomAgentDef,
>)
    requires
        rows.len() == specs.len(),
    ensures
        def_models(defs@) == readable_defs(row_models(rows@), specs@),
{
    let ghost all_specs = specs@;
    let ghost all_rows = row_models(rows@);
    let mut defs: Vec<CustomAgentDef> = Vec::new();
    let mut i: usize = 0;
    for spec in it: specs.into_iter()
        invariant
            i == it.index(),
            it.seq() == all_specs,
            rows.len() == all_specs.len(),
            all_rows == row_models(rows@),
            def_models(defs@) == readable_defs(all_rows.take(i as int), all_specs),
    {
        assert(all_rows.take(i + 1).take(i as int) =~= all_rows.take(i as int));
        let def = def_from_model(&rows[i], spec);
        match def {
            Some(d) => {
                defs.push(d);
                assert(def_models(defs@) =~= readable_defs(all_rows.take(i + 1), all_specs));
            },
            None => {
                assert(def_models(defs@) =~= readable_defs(all_rows.take(i + 1), all_specs));
            },
        }
        i = i + 1;
    }
    assert(all_rows.take(i as int) =~= all_rows);
    defs
}

/// The version a save stores: the trimmed version, or [`FALLBACK_VERSION`]
/// when that is blank.
pub open spec fn effective_version(v: Seq<char>) -> Seq<char> {
    if trim_chars(v).len() == 0 {
        FALLBACK_VERSION@
    } else {
        trim_chars(v)
    }
}

/// The columns a save of `def` writes, with `spec_json` its encoded channels.
pub open spec fn saved_columns(def: CustomAgentDef, spec_json: Seq<char>) -> ColumnsModel {
    ColumnsModel {
        registry_id: def.registry_id@,
        name: trim_chars(def.name@),
        description: trim_chars(def.description@),
        version: effective_version(def.version@),
        distribution_kind: def.distribution_kind.wire_name(),
        spec_json: spec_json,
        icon_url: opt_chars(def.icon_url),
        skills_shared_store: def.skills_shared_store,
        skills_dir: opt_chars(def.skills_dir),
        source: def.source.wire_name(),
        version_probe: opt_chars(def.version_probe),
        supports_mcp: def.supports_mcp,
    }
}

/// The message of a save refused for its id.
pub open spec fn invalid_id_message(id: Seq<char>) -> Seq<char> {
    "invalid custom agent id: "@ + id
}

/// Checks and normalises a definition for saving. Validation comes first, so
/// a row that could never launch is never persisted: an invalid id is refused,
/// then a definition that could not be launched, then one whose channels could
/// not be encoded (`spec_json` is their JSON encoding, or the encoder's error).
/// On success, the columns to write: name and description trimmed, a blank
/// version replaced by [`FALLBACK_VERSION`].
pub fn upsert(def: &CustomAgentDef, spec_json: Result<String, String>) -> (r: Result<
    AgentColumns,
    DbError,
>)
    ensures
        !valid_custom_agent_id(def.registry_id@) ==> (r matches Err(DbError::Migration(m)) && m@
            == invalid_id_message(def.registry_id@)),
        valid_custom_agent_id(def.registry_id@) && !launchable(def@) ==> (r matches Err(
            DbError::Migration(m),
        ) && m@ == launch_problem(def@)),
        valid_custom_agent_id(def.registry_id@) && launchable(def@) ==> match spec_json {
            Err(e) => r matches Err(DbError::Migration(m)) && m@ == e@,
            Ok(j) => r matches Ok(c) && c@ == saved_columns(*def, j@),
        },
        r matches Ok(c) ==> {
            &&& spec_json matches Ok(j) && c.spec_json@ == j@
            &&& c.registry_id@ == def.registry_id@
            &&& c.name@ == trim_chars(def.name@)
            &&& c.description@ == trim_chars(def.description@)
            &&& c.distribution_kind@ == def.distribution_kind.wire_name()
            &&& c.icon_url == def.icon_url
            &&& c.skills_shared_store == def.skills_shared_store
            &&& c.skills_dir == def.skills_dir
            &&& c.source@ == def.source.wire_name()
            &&& c.version_probe == def.version_probe
            &&& c.supports_mcp == def.supports_mcp
        },
{
    if !is_valid_custom_agent_id(def.registry_id.as_str()) {
        let mut m = "invalid custom agent id: ".to_owned();
        m.append(def.registry_id.as_str());
        return Err(DbError::Migration(m));
    }
    match validate(def) {
        Ok(()) => {},
        Err(e) => return Err(DbError::Migration(e)),
    }
    let spec_json = match spec_json {
        Ok(j) => j,
        Err(e) => return Err(DbError::Migration(e)),
    };
    let trimmed_version = trim(def.version.as_str());
    let version = if trimmed_version.is_empty() {
        FALLBACK_VERSION.to_owned()
    } else {
        trimmed_version.to_owned()
    };
    Ok(
        AgentColumns {
            registry_id: def.registry_id.clone(),
            name: trim(def.name.as_str()).to_owned(),
            description: trim(def.description.as_str()).to_owned(),
            version,
            distribution_kind: def.distribution_kind.as_str().to_owned(),
            spec_json,
            icon_url: clone_opt_string(&def.icon_url),
            skills_shared_store: def.skills_shared_store,
            skills_dir: clone_opt_string(&def.skills_dir),
            source: def.source.as_str().to_owned(),
            version_probe: clone_opt_string(&def.version_probe),
            supports_mcp: def.supports_mcp,
        },
    )
}

/// How a save lands in the table.
#[derive(Clone, Debug, PartialEq)]
pub enum UpsertWrite {
    /// Overwrite the existing row with the same `registry_id`, in place.
    Update(CustomAgentRow),
    /// Add a new row.
    Insert(NewAgentRow),
}

/// How a save lands in the table, with rows and columns as models.
pub enum WriteModel {
    Update(RowModel),
    Insert(ColumnsModel, i64, i64),
}

impl View for UpsertWrite {
    type V = WriteModel;

    open spec fn view(&self) -> WriteModel {
        match self {
            UpsertWrite::Update(u) => WriteModel::Update(u@),
            UpsertWrite::Insert(n) => WriteModel::Insert(n.columns@, n.created_at, n.updated_at),
        }
    }
}

pub open spec fn opt_row(o: Option<CustomAgentRow>) -> Option<RowModel> {
    match o {
        Some(r) => Some(r@),
        None => None,
    }
}

/// The row that an update at time `now` leaves in place of `row`: the key, the
/// `registry_id` and the creation time stay, every other column is rewritten.
pub open spec fn updated_row(row: RowModel, c: ColumnsModel, now: i64) -> RowModel {
    RowModel {
        id: row.id,
        columns: ColumnsModel { registry_id: row.columns.registry_id, ..c },
        created_at: row.created_at,
        updated_at: now,
    }
}

/// The write that saves the columns `c` at time `now`, given the row that
/// currently holds the same `registry_id`, if any.
pub open spec fn planned_write(c: ColumnsModel, existing: Option<RowModel>, now: i64) -> WriteModel {
    match existing {
        Some(row) => WriteModel::Update(updated_row(row, c, now)),
        None => WriteModel::Insert(c, now, now),
    }
}

/// Decides how the checked columns `columns` are saved at time `now`, given the
/// row that currently holds the same `registry_id` (if any): that row is
/// updated in place, so a `registry_id` never gets a second row; otherwise a
/// new row is inserted, created and updated at `now`.
pub fn upsert_write(columns: AgentColumns, existing: Option<CustomAgentRow>, now: i64) -> (w:
    UpsertWrite)
    ensures
        w@ == planned_write(columns@, opt_row(existing), now),
{
    match existing {
        Some(row) => UpsertWrite::Update(
            CustomAgentRow {
                id: row.id,
                registry_id: row.registry_id,
                name: columns.name,
                description: columns.description,
                version: columns.version,
                distribution_kind: columns.distribution_kind,
                spec_json: columns.spec_json,
                icon_url: columns.icon_url,
                skills_shared_store: columns.skills_shared_store,
                skills_dir: columns.skills_dir,
                source: columns.source,
                version_probe: columns.version_probe,
                supports_mcp: columns.supports_mcp,
                created_at: row.created_at,
                updated_at: now,
            },
        ),
        None => UpsertWrite::Insert(NewAgentRow { columns, created_at: now, updated_at: now }),
    }
}

/// What a delete reports: whether it removed any row.
pub fn row_was_removed(rows_affected: u64) -> (removed: bool)
    ensures
        removed == (rows_affected > 0),
{
    rows_affected > 0
}

} // verus!
