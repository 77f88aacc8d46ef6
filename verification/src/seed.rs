//! Seeding the bundled `sahaa` agent.
//!
//! Seeding alternates database work with decisions, so it is written as a
//! step function: the caller performs each [`SeedAction`], reports the outcome
//! as a [`SeedEvent`], and feeds it back together with the current
//! [`SeedState`] until the action is [`SeedAction::Finish`].

use std::collections::BTreeMap;
use vstd::prelude::*;

use crate::agent::{
    AgentDefModel, CustomAgentDef, CustomAgentSource, CustomAgentSpec, CustomDistributionKind,
    NpxSpec,
};
use crate::row::{ColumnsModel, CustomAgentRow, RowModel};
use crate::sahaa_icon::{make_sahaa_icon_url, sahaa_icon_url};
use crate::service::row_models;
use crate::text::{clone_opt_string, lowercase, str_equal, to_lowercase};

verus! {

/// The id of the bundled agent.
pub const SAHAA_ID: &'static str = "sahaa";

/// The JSON channels stored for the bundled agent.
pub const SAHAA_SPEC_JSON: &'static str = "{\"npx\":{\"package\":\"sahaa\",\"args\":[],\"env\":{},\"cmd\":\"sahaa\"}}";

/// A row left over from a time when the bundled agent was stored under an id
/// in other case (such as `Sahaa`): its id lower-cases to `sahaa`.
pub open spec fn is_stale_sahaa(row: RowModel) -> bool {
    lowercase(row.columns.registry_id) == SAHAA_ID@
}

/// The index of the first stale row at or after `start`.
pub open spec fn first_stale_from(rows: Seq<RowModel>, start: int) -> Option<int>
    decreases rows.len() - start,
{
    if start < 0 || start >= rows.len() {
        None
    } else if is_stale_sahaa(rows[start]) {
        Some(start)
    } else {
        first_stale_from(rows, start + 1)
    }
}

/// `row` rewritten into the bundled agent's definition at time `now`; the
/// key, icon, skills settings, version probe and creation time stay.
pub open spec fn corrected_row(row: RowModel, now: i64) -> RowModel {
    RowModel {
        id: row.id,
        columns: ColumnsModel {
            registry_id: SAHAA_ID@,
            name: "Sahaa"@,
            description: "Sahaa AI coding agent"@,
            version: "custom"@,
            distribution_kind: "npx"@,
            spec_json: SAHAA_SPEC_JSON@,
            source: "manual"@,
            supports_mcp: true,
            ..row.columns
        },
        created_at: row.created_at,
        updated_at: now,
    }
}

/// The bundled agent's definition: launched through `npx` with the `sahaa`
/// command found on the PATH.
pub open spec fn is_sahaa_default(d: AgentDefModel) -> bool {
    &&& d.registry_id == SAHAA_ID@
    &&& d.name == "Sahaa"@
    &&& d.description == "Sahaa AI coding agent"@
    &&& d.version == "custom"@
    &&& d.distribution_kind == CustomDistributionKind::Npx
    &&& d.spec.npx matches Some(n) && {
        &&& n.package@ == "sahaa"@
        &&& n.cmd matches Some(c) && c@ == "sahaa"@
        &&& n.args@.len() == 0
        &&& n.env@ == Map::<String, String>::empty()
        &&& n.node_required is None
    }
    &&& d.spec.uvx is None
    &&& d.spec.binary@ == Map::<String, crate::agent::BinaryPlatformSpec>::empty()
    &&& d.icon_url == Some(sahaa_icon_url())
    &&& !d.skills_shared_store
    &&& d.skills_dir is None
    &&& d.source == CustomAgentSource::Manual
    &&& d.version_probe is None
    &&& d.supports_mcp
}

pub fn sahaa_default_def() -> (d: CustomAgentDef)
    ensures
        is_sahaa_default(d@),
{
    CustomAgentDef {
        registry_id: SAHAA_ID.to_owned(),
        name: "Sahaa".to_owned(),
        description: "Sahaa AI coding agent".to_owned(),
        version: "custom".to_owned(),
        distribution_kind: CustomDistributionKind::Npx,
        spec: CustomAgentSpec {
            npx: Some(
                NpxSpec {
                    package: "sahaa".to_owned(),
                    cmd: Some("sahaa".to_owned()),
                    args: Vec::new(),
                    env: BTreeMap::new(),
                    node_required: None,
                },
            ),
            uvx: None,
            binary: BTreeMap::new(),
        },
        icon_url: Some(make_sahaa_icon_url()),
        skills_shared_store: false,
        skills_dir: None,
        source: CustomAgentSource::Manual,
        version_probe: None,
        supports_mcp: true,
    }
}

/// Where seeding stands.
#[derive(Clone, Copy, Debug, PartialEq, Eq, Structural)]
pub enum SeedState {
    Start,
    CheckingExact,
    ListingRows,
    CorrectingRow,
    RefreshingAfterCorrection,
    SavingDefault,
    RefreshingAfterSave,
    RemovingStaleSettings,
    PinningDefault,
    Finished,
}

/// What the caller observed after performing the last action.
pub enum SeedEvent {
    /// Seeding starts.
    Begin,
    /// Whether a row with the id `sahaa` exists.
    ExactLookup(bool),
    /// All rows, ordered by `registry_id`, and the current time.
    Rows(Vec<CustomAgentRow>, i64),
    /// The stale row was rewritten.
    RowCorrected,
    /// The launch registry was rebuilt.
    RegistryRefreshed,
    /// Whether saving the default definition succeeded.
    DefaultSaved(bool),
    /// Agent settings stored under an id in other case were removed.
    StaleSettingsRemoved,
    /// The bundled agent was put first in the agent order and enabled.
    DefaultPinned,
}

/// How seeding ended.
#[derive(Clone, Copy, Debug, PartialEq, Eq, Structural)]
pub enum SeedOutcome {
    /// A row with the id `sahaa` already exists; nothing was written.
    AlreadyPresent,
    /// A stale row was rewritten into the bundled agent.
    Corrected,
    /// The default definition was saved, published and pinned.
    Seeded,
    /// Saving the default definition failed; seeding stops without error.
    SaveFailed,
    /// An event arrived that the current state does not expect.
    OutOfOrder,
}

/// What the caller does next.
pub enum SeedAction {
    /// Look up the row with the id `sahaa`.
    LookUpExact,
    /// List all rows, ordered by `registry_id`.
    ListRows,
    /// Overwrite the row with the same `id` with this one.
    CorrectRow(CustomAgentRow),
    /// Rebuild the launch registry from the table.
    RefreshRegistry,
    /// Save this definition as a custom agent.
    SaveDefault(CustomAgentDef),
    /// Remove agent settings stored under an id in other case.
    RemoveStaleSettings,
    /// Put the bundled agent first in the agent order, enabled.
    PinDefault,
    /// Stop.
    Finish(SeedOutcome),
}

/// One step of seeding: the state `next` that follows `state` on `event`,
/// and the action `action` to perform.
pub open spec fn seed_step(state: SeedState, event: SeedEvent, next: SeedState, action: SeedAction) -> bool {
    match (state, event) {
        (SeedState::Start, SeedEvent::Begin) => next == SeedState::CheckingExact
            && action is LookUpExact,
        (SeedState::CheckingExact, SeedEvent::ExactLookup(found)) => if found {
            next == SeedState::Finished && action == SeedAction::Finish(SeedOutcome::AlreadyPresent)
        } else {
            next == SeedState::ListingRows && action is ListRows
        },
        (SeedState::ListingRows, SeedEvent::Rows(rows, now)) => match first_stale_from(
            row_models(rows@),
            0,
        ) {
            Some(i) => next == SeedState::CorrectingRow && (action matches SeedAction::CorrectRow(r)
                && r@ == corrected_row(row_models(rows@)[i], now)),
            None => next == SeedState::SavingDefault && (action matches SeedAction::SaveDefault(d)
                && is_sahaa_default(d@)),
        },
        (SeedState::CorrectingRow, SeedEvent::RowCorrected) => next
            == SeedState::RefreshingAfterCorrection && action is RefreshRegistry,
        (SeedState::RefreshingAfterCorrection, SeedEvent::RegistryRefreshed) => next
            == SeedState::Finished && action == SeedAction::Finish(SeedOutcome::Corrected),
        (SeedState::SavingDefault, SeedEvent::DefaultSaved(ok)) => if ok {
            next == SeedState::RefreshingAfterSave && action is RefreshRegistry
        } else {
            next == SeedState::Finished && action == SeedAction::Finish(SeedOutcome::SaveFailed)
        },
        (SeedState::RefreshingAfterSave, SeedEvent::RegistryRefreshed) => next
            == SeedState::RemovingStaleSettings && action is RemoveStaleSettings,
        (SeedState::RemovingStaleSettings, SeedEvent::StaleSettingsRemoved) => next
            == SeedState::PinningDefault && action is PinDefault,
        (SeedState::PinningDefault, SeedEvent::DefaultPinned) => next == SeedState::Finished
            && action == SeedAction::Finish(SeedOutcome::Seeded),
        _ => next == SeedState::Finished && action == SeedAction::Finish(SeedOutcome::OutOfOrder),
    }
}

/// The index of the first row whose id lower-cases to `sahaa`.
fn find_stale(rows: &Vec<CustomAgentRow>) -> (p: Option<usize>)
    ensures
        match first_stale_from(row_models(rows@), 0) {
            Some(i) => p matches Some(j) && j as int == i,
            None => p is None,
        },
        p matches Some(i) ==> i < rows.len(),
{
    let ghost models = row_models(rows@);
    let n = rows.len();
    let mut i: usize = 0;
    while i < n
        invariant
            n == rows@.len(),
            models == row_models(rows@),
            i <= n,
            first_stale_from(models, 0) == first_stale_from(models, i as int),
        decreases n - i,
    {
        let lower = to_lowercase(rows[i].registry_id.as_str());
        assert(models[i as int] == rows@[i as int]@);
        if str_equal(lower.as_str(), SAHAA_ID) {
            return Some(i);
        }
        i = i + 1;
    }
    None
}

/// The step that follows the listing of all rows at time `now`.
fn after_listing(rows: Vec<CustomAgentRow>, now: i64) -> (r: (SeedState, SeedAction))
    ensures
        match first_stale_from(row_models(rows@), 0) {
            Some(i) => r.0 == SeedState::CorrectingRow && (r.1 matches SeedAction::CorrectRow(row)
                && row@ == corrected_row(row_models(rows@)[i], now) && row.id == rows@[i].id
                && row.icon_url == rows@[i].icon_url && row.skills_shared_store
                == rows@[i].skills_shared_store && row.skills_dir == rows@[i].skills_dir
                && row.version_probe == rows@[i].version_probe && row.created_at
                == rows@[i].created_at && row.updated_at == now),
            None => r.0 == SeedState::SavingDefault && (r.1 matches SeedAction::SaveDefault(d)
                && is_sahaa_default(d@)),
        },
{
    let ghost models = row_models(rows@);
    match find_stale(&rows) {
        Some(i) => {
            let row = &rows[i];
            assert(row@ == models[i as int]);
            let fixed = CustomAgentRow {
                id: row.id,
                registry_id: SAHAA_ID.to_owned(),
                name: "Sahaa".to_owned(),
                description: "Sahaa AI coding agent".to_owned(),
                version: "custom".to_owned(),
                distribution_kind: "npx".to_owned(),
                spec_json: SAHAA_SPEC_JSON.to_owned(),
                icon_url: clone_opt_string(&row.icon_url),
                skills_shared_store: row.skills_shared_store,
                skills_dir: clone_opt_string(&row.skills_dir),
                source: "manual".to_owned(),
                version_probe: clone_opt_string(&row.version_probe),
                supports_mcp: true,
                created_at: row.created_at,
                updated_at: now,
            };
            assert(fixed@ == corrected_row(models[i as int], now));
            (SeedState::CorrectingRow, SeedAction::CorrectRow(fixed))
        },
        None => (SeedState::SavingDefault, SeedAction::SaveDefault(sahaa_default_def())),
    }
}

/// One step of seeding the bundled `sahaa` agent. If a row with the id
/// `sahaa` exists, nothing is written. Otherwise a leftover row whose id
/// lower-cases to `sahaa` is rewritten in place rather than duplicated, and
/// the registry rebuilt; failing that, the default definition is saved, the
/// registry rebuilt, stale agent settings removed and the agent pinned first.
/// A failed save ends seeding without an error.
pub fn seed_sahaa_agent(state: SeedState, event: SeedEvent) -> (r: (SeedState, SeedAction))
    ensures
        seed_step(state, event, r.0, r.1),
{
    match (state, event) {
        (SeedState::Start, SeedEvent::Begin) => (SeedState::CheckingExact, SeedAction::LookUpExact),
        (SeedState::CheckingExact, SeedEvent::ExactLookup(found)) => {
            if found {
                (SeedState::Finished, SeedAction::Finish(SeedOutcome::AlreadyPresent))
            } else {
                (SeedState::ListingRows, SeedAction::ListRows)
            }
        },
        (SeedState::ListingRows, SeedEvent::Rows(rows, now)) => after_listing(rows, now),
        (SeedState::CorrectingRow, SeedEvent::RowCorrected) => (
            SeedState::RefreshingAfterCorrection,
            SeedAction::RefreshRegistry,
        ),
        (SeedState::RefreshingAfterCorrection, SeedEvent::RegistryRefreshed) => (
            SeedState::Finished,
            SeedAction::Finish(SeedOutcome::Corrected),
        ),
        (SeedState::SavingDefault, SeedEvent::DefaultSaved(ok)) => {
            if ok {
                (SeedState::RefreshingAfterSave, SeedAction::RefreshRegistry)
            } else {
                (SeedState::Finished, SeedAction::Finish(SeedOutcome::SaveFailed))
            }
        },
        (SeedState::RefreshingAfterSave, SeedEvent::RegistryRefreshed) => (
            SeedState::RemovingStaleSettings,
            SeedAction::RemoveStaleSettings,
        ),
        (SeedState::RemovingStaleSettings, SeedEvent::StaleSettingsRemoved) => (
            SeedState::PinningDefault,
            SeedAction::PinDefault,
        ),
        (SeedState::PinningDefault, SeedEvent::DefaultPinned) => (
            SeedState::Finished,
            SeedAction::Finish(SeedOutcome::Seeded),
        ),
        _ => (SeedState::Finished, SeedAction::Finish(SeedOutcome::OutOfOrder)),
    }
}

} // verus!
