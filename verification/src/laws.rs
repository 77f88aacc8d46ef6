//! Properties of the service that span several of its functions.

use vstd::prelude::*;

use crate::agent::{
    launchable, valid_custom_agent_id, AgentDefModel, CustomAgentDef, CustomAgentSource,
    CustomAgentSpec, CustomDistributionKind,
};
use crate::registry::{has_id, launchable_defs};
use crate::row::{ColumnsModel, CustomAgentRow, RowModel};
use crate::sahaa_icon::{
    lemma_sahaa_icon_is_its_parts_in_order, ICON_PART_0, ICON_PART_1, ICON_PART_2, ICON_PART_3,
    ICON_PART_4, ICON_PART_5, ICON_PART_6, ICON_PART_7, ICON_PART_8,
};
use crate::seed::{
    first_stale_from, is_sahaa_default, is_stale_sahaa, seed_step, SeedAction, SeedEvent,
    SeedOutcome, SeedState, SAHAA_ID,
};
use crate::service::{
    def_from_row, effective_version, FALLBACK_VERSION, normalized_probe, planned_write, read_row, readable_defs,
    row_models, saved_columns, updated_row, WriteModel,
};
use crate::text::{is_white_space, opt_chars, trim_chars, trim_end_chars, trim_start_chars};

verus! {

/// A stored distribution kind reads back as itself.
pub proof fn lemma_kind_wire_round_trip(k: CustomDistributionKind)
    ensures
        CustomDistributionKind::from_wire(k.wire_name()) == Some(k),
{
    reveal_strlit("npx");
    reveal_strlit("uvx");
    reveal_strlit("binary");
    assert("uvx"@[0] != "npx"@[0]);
    assert("binary"@.len() != "npx"@.len());
    assert("binary"@.len() != "uvx"@.len());
}

/// A stored source reads back as itself.
pub proof fn lemma_source_wire_round_trip(s: CustomAgentSource)
    ensures
        CustomAgentSource::from_wire(s.wire_name()) == s,
{
    reveal_strlit("registry");
    reveal_strlit("manual");
    assert("registry"@.len() != "manual"@.len());
}

/// The definition that reading back a saved `d` gives: name and description
/// trimmed, a blank version replaced by the fallback, the version probe
/// trimmed and dropped when blank; everything else as it was.
pub open spec fn stored_def(d: AgentDefModel) -> AgentDefModel {
    AgentDefModel {
        name: trim_chars(d.name),
        description: trim_chars(d.description),
        version: effective_version(d.version),
        version_probe: normalized_probe(d.version_probe),
        ..d
    }
}

/// A definition round-trips through its row: reading back the columns a save
/// writes, with the channels it encoded, gives the saved definition in its
/// stored form.
pub proof fn lemma_saved_definition_reads_back(def: CustomAgentDef, spec_json: Seq<char>, row: RowModel)
    requires
        row.columns == saved_columns(def, spec_json),
    ensures
        def_from_row(row, def.spec) == Some(stored_def(def@)),
{
    lemma_kind_wire_round_trip(def.distribution_kind);
    lemma_source_wire_round_trip(def.source);
}

/// The bundled agent's default definition passes the checks that a save
/// applies, so seeding it can succeed.
pub proof fn lemma_sahaa_default_is_saveable(d: AgentDefModel)
    requires
        is_sahaa_default(d),
    ensures
        valid_custom_agent_id(d.registry_id),
        launchable(d),
{
    reveal_strlit("sahaa");
    assert(d.registry_id == SAHAA_ID@);
}

/// No two rows share a key or a `registry_id`.
pub open spec fn keys_unique(t: Seq<RowModel>) -> bool {
    forall|i: int, j: int|
        0 <= i < t.len() && 0 <= j < t.len() && i != j ==> t[i].id != t[j].id
            && t[i].columns.registry_id != t[j].columns.registry_id
}

/// The table after the write `w`, a new row receiving the key `fresh_id`.
pub open spec fn apply_write(t: Seq<RowModel>, w: WriteModel, fresh_id: i32) -> Seq<RowModel> {
    match w {
        WriteModel::Update(u) => Seq::new(t.len(), |i: int| if t[i].id == u.id { u } else { t[i] }),
        WriteModel::Insert(c, created, updated) => t.push(
            RowModel { id: fresh_id, columns: c, created_at: created, updated_at: updated },
        ),
    }
}

/// `existing` is what looking up the `registry_id` `id` in `t` gives.
pub open spec fn lookup_gives(t: Seq<RowModel>, id: Seq<char>, existing: Option<RowModel>) -> bool {
    match existing {
        Some(r) => r.columns.registry_id == id && exists|i: int| 0 <= i < t.len() && t[i] == r,
        None => forall|i: int| 0 <= i < t.len() ==> t[i].columns.registry_id != id,
    }
}

/// No two rows share a key.
pub open spec fn keys_distinct(t: Seq<RowModel>) -> bool {
    forall|i: int, j: int| 0 <= i < t.len() && 0 <= j < t.len() && i != j ==> t[i].id != t[j].id
}

/// At most one row of `t` has the `registry_id` `id`.
pub open spec fn at_most_one_with(t: Seq<RowModel>, id: Seq<char>) -> bool {
    forall|i: int, j: int|
        0 <= i < t.len() && 0 <= j < t.len() && t[i].columns.registry_id == id
            && t[j].columns.registry_id == id ==> i == j
}

/// Saving updates in place: when the columns `c` are saved at time `now`,
/// with `existing` the row that the lookup of their `registry_id` found, and
/// at most one row held that `registry_id`, afterwards exactly one row holds
/// it, and it holds exactly `c` (the found row's key and creation time kept);
/// the table gains a row only when none was found, every row with another
/// `registry_id` stays where and as it was, keys stay distinct, and a table
/// with one row per `registry_id` keeps that property.
pub proof fn lemma_save_updates_in_place(
    t: Seq<RowModel>,
    c: ColumnsModel,
    existing: Option<RowModel>,
    now: i64,
    fresh_id: i32,
)
    requires
        keys_distinct(t),
        at_most_one_with(t, c.registry_id),
        lookup_gives(t, c.registry_id, existing),
        forall|i: int| 0 <= i < t.len() ==> t[i].id != fresh_id,
    ensures
        ({
            let t2 = apply_write(t, planned_write(c, existing, now), fresh_id);
            &&& keys_distinct(t2)
            &&& keys_unique(t) ==> keys_unique(t2)
            &&& t2.len() == if existing is Some { t.len() } else { t.len() + 1 }
            &&& exists|k: int|
                0 <= k < t2.len() && t2[k].columns == c && t2[k].updated_at == now && (
                existing matches Some(r) ==> t2[k].id == r.id && t2[k].created_at == r.created_at)
            &&& at_most_one_with(t2, c.registry_id)
            &&& forall|k: int|
                0 <= k < t2.len() && t2[k].columns.registry_id == c.registry_id ==> t2[k].columns
                    == c
            &&& forall|i: int|
                0 <= i < t.len() && t[i].columns.registry_id != c.registry_id ==> t2[i] == t[i]
        }),
{
    let t2 = apply_write(t, planned_write(c, existing, now), fresh_id);
    match existing {
        Some(r) => {
            let i0 = choose|i: int| 0 <= i < t.len() && t[i] == r;
            let u = updated_row(r, c, now);
            assert(u.columns == c);
            assert(t2[i0] == u);
            assert forall|i: int| 0 <= i < t.len() && i != i0 implies t2[i] == t[i] by {
                assert(t[i].id != t[i0].id);
            }
            assert forall|i: int|
                0 <= i < t.len() && t[i].columns.registry_id != c.registry_id implies t2[i] == t[i] by {
                assert(i != i0);
            }
            assert forall|i: int, j: int|
                0 <= i < t2.len() && 0 <= j < t2.len() && t2[i].columns.registry_id == c.registry_id
                    && t2[j].columns.registry_id == c.registry_id implies i == j by {
                if i != i0 {
                    assert(t2[i] == t[i]);
                }
                if j != i0 {
                    assert(t2[j] == t[j]);
                }
            }
            assert forall|i: int, j: int|
                0 <= i < t2.len() && 0 <= j < t2.len() && i != j implies t2[i].id != t2[j].id by {
                if i != i0 {
                    assert(t2[i] == t[i]);
                }
                if j != i0 {
                    assert(t2[j] == t[j]);
                }
            }
            if keys_unique(t) {
                assert forall|i: int, j: int|
                    0 <= i < t2.len() && 0 <= j < t2.len() && i != j implies t2[i].id != t2[j].id
                        && t2[i].columns.registry_id != t2[j].columns.registry_id by {
                    if i != i0 {
                        assert(t2[i] == t[i]);
                    }
                    if j != i0 {
                        assert(t2[j] == t[j]);
                    }
                }
            }
        },
        None => {
            let n = t.len() as int;
            assert(t2[n].columns == c);
            assert forall|i: int| 0 <= i < t.len() implies t2[i] == t[i] by {}
        },
    }
}

/// Unreadable rows are skipped, not fatal: every definition a listing gives
/// comes from a readable row, every readable row gives its definition, and
/// the listing is never longer than the table.
pub proof fn lemma_listing_keeps_exactly_the_readable_rows(
    rows: Seq<RowModel>,
    specs: Seq<Option<CustomAgentSpec>>,
)
    requires
        specs.len() == rows.len(),
    ensures
        readable_defs(rows, specs).len() <= rows.len(),
        forall|k: int|
            0 <= k < readable_defs(rows, specs).len() ==> exists|i: int|
                0 <= i < rows.len() && read_row(rows[i], specs[i]) == Some(
                    #[trigger] readable_defs(rows, specs)[k],
                ),
        forall|i: int|
            0 <= i < rows.len() && (#[trigger] read_row(rows[i], specs[i])) is Some ==> readable_defs(
                rows,
                specs,
            ).contains(read_row(rows[i], specs[i])->0),
    decreases rows.len(),
{
    if rows.len() > 0 {
        let n = rows.len() - 1;
        lemma_listing_keeps_exactly_the_readable_rows_prefix(rows, specs, n);
        assert(rows.take(n + 1) =~= rows);
    }
}

/// The listing property for the first `n` rows, by induction on `n`.
proof fn lemma_listing_keeps_exactly_the_readable_rows_prefix(
    rows: Seq<RowModel>,
    specs: Seq<Option<CustomAgentSpec>>,
    n: int,
)
    requires
        specs.len() == rows.len(),
        0 <= n < rows.len(),
    ensures
        ({
            let out = readable_defs(rows.take(n + 1), specs);
            &&& out.len() <= n + 1
            &&& forall|k: int|
                0 <= k < out.len() ==> exists|i: int|
                    0 <= i <= n && read_row(rows[i], specs[i]) == Some(#[trigger] out[k])
            &&& forall|i: int|
                0 <= i <= n && (#[trigger] read_row(rows[i], specs[i])) is Some ==> out.contains(
                    read_row(rows[i], specs[i])->0,
                )
        }),
    decreases n,
{
    let cur = rows.take(n + 1);
    assert(cur.take(n) =~= rows.take(n));
    assert(cur[n] == rows[n]);
    let out = readable_defs(cur, specs);
    if n == 0 {
        assert(rows.take(0) =~= Seq::<RowModel>::empty());
        assert(readable_defs(rows.take(0), specs) =~= Seq::<AgentDefModel>::empty());
        if read_row(rows[0], specs[0]) is Some {
            assert(out[0] == read_row(rows[0], specs[0])->0);
        }
    } else {
        lemma_listing_keeps_exactly_the_readable_rows_prefix(rows, specs, n - 1);
        let prev = readable_defs(rows.take(n), specs);
        assert forall|k: int| 0 <= k < out.len() implies exists|i: int|
            0 <= i <= n && read_row(rows[i], specs[i]) == Some(#[trigger] out[k]) by {
            if k < prev.len() {
                assert(out[k] == prev[k]);
                let i = choose|i: int| 0 <= i <= n - 1 && read_row(rows[i], specs[i]) == Some(prev[k]);
                assert(read_row(rows[i], specs[i]) == Some(out[k]));
            } else {
                assert(read_row(rows[n], specs[n]) == Some(out[k]));
            }
        }
        assert forall|i: int|
            0 <= i <= n && (#[trigger] read_row(rows[i], specs[i])) is Some implies out.contains(
                read_row(rows[i], specs[i])->0,
            ) by {
            if i < n {
                let k = choose|k: int| 0 <= k < prev.len() && prev[k] == read_row(rows[i], specs[i])->0;
                assert(out[k] == prev[k]);
            } else {
                assert(out[out.len() - 1] == read_row(rows[n], specs[n])->0);
            }
        }
    }
}

/// Rebuilding the registry publishes exactly the launchable definitions: an
/// id is registered afterwards exactly when some launchable definition has
/// it. In particular an agent whose row was deleted is no longer registered.
pub proof fn lemma_hydrate_registers_exactly_the_launchable(defs: Seq<AgentDefModel>, id: Seq<char>)
    ensures
        has_id(launchable_defs(defs), id) <==> exists|i: int|
            0 <= i < defs.len() && (#[trigger] defs[i]).registry_id == id && launchable(defs[i]),
    decreases defs.len(),
{
    if defs.len() > 0 {
        let n = defs.len() - 1;
        let prev_defs = defs.take(n);
        lemma_hydrate_registers_exactly_the_launchable(prev_defs, id);
        let prev = launchable_defs(prev_defs);
        let out = launchable_defs(defs);
        if has_id(out, id) {
            let k = choose|k: int| 0 <= k < out.len() && (#[trigger] out[k]).registry_id == id;
            if k < prev.len() {
                assert(out[k] == prev[k]);
                assert(has_id(prev, id));
                let i = choose|i: int|
                    0 <= i < prev_defs.len() && (#[trigger] prev_defs[i]).registry_id == id
                        && launchable(prev_defs[i]);
                assert(defs[i] == prev_defs[i]);
            } else {
                assert(defs[n].registry_id == id && launchable(defs[n]));
            }
        }
        if exists|i: int| 0 <= i < defs.len() && (#[trigger] defs[i]).registry_id == id && launchable(defs[i]) {
            let i = choose|i: int| 0 <= i < defs.len() && (#[trigger] defs[i]).registry_id == id && launchable(defs[i]);
            if i < n {
                assert(prev_defs[i] == defs[i]);
                let k = choose|k: int| 0 <= k < prev.len() && (#[trigger] prev[k]).registry_id == id;
                assert(out[k] == prev[k]);
            } else {
                assert(out[out.len() - 1] == defs[n]);
            }
        }
    }
}

/// Seeding is idempotent: when the table already holds a row with the id
/// `sahaa`, seeding finishes right after the lookup, writing nothing and so
/// never overwriting what the user changed.
pub proof fn lemma_seed_leaves_a_present_agent_alone(
    s1: SeedState,
    a1: SeedAction,
    s2: SeedState,
    a2: SeedAction,
)
    requires
        seed_step(SeedState::Start, SeedEvent::Begin, s1, a1),
        seed_step(s1, SeedEvent::ExactLookup(true), s2, a2),
    ensures
        s2 == SeedState::Finished,
        a2 == SeedAction::Finish(SeedOutcome::AlreadyPresent),
{
}

/// The first stale row at or after `start` is stale and in range, and there
/// is one exactly when some row at or after `start` is stale.
proof fn lemma_first_stale(rows: Seq<RowModel>, start: int)
    requires
        0 <= start,
    ensures
        first_stale_from(rows, start) matches Some(i) ==> start <= i < rows.len() && is_stale_sahaa(
            rows[i],
        ),
        first_stale_from(rows, start) is None <==> forall|i: int|
            start <= i < rows.len() ==> !is_stale_sahaa(#[trigger] rows[i]),
    decreases rows.len() - start,
{
    if start < rows.len() && !is_stale_sahaa(rows[start]) {
        lemma_first_stale(rows, start + 1);
        assert forall|i: int| start <= i < rows.len() && first_stale_from(rows, start + 1) is None
            implies !is_stale_sahaa(#[trigger] rows[i]) by {}
    }
}

/// Seeding never gives the bundled agent a second row: when some listed row's
/// id lower-cases to `sahaa`, that existing row (same key) is rewritten to the
/// id `sahaa`; the default definition is saved only when no listed row's id
/// lower-cases to `sahaa`.
pub proof fn lemma_seed_corrects_rather_than_duplicates(
    rows: Vec<CustomAgentRow>,
    now: i64,
    next: SeedState,
    action: SeedAction,
)
    requires
        seed_step(SeedState::ListingRows, SeedEvent::Rows(rows, now), next, action),
    ensures
        (exists|i: int| 0 <= i < rows.len() && is_stale_sahaa(#[trigger] row_models(rows@)[i]))
            ==> (action matches SeedAction::CorrectRow(r) && r@.columns.registry_id == SAHAA_ID@
            && exists|i: int| 0 <= i < rows.len() && r@.id == (#[trigger] rows@[i]).id),
        action is SaveDefault ==> forall|i: int|
            0 <= i < rows.len() ==> !is_stale_sahaa(#[trigger] row_models(rows@)[i]),
{
    let models = row_models(rows@);
    lemma_first_stale(models, 0);
    if let Some(i) = first_stale_from(models, 0) {
        assert(models[i].id == rows@[i].id);
    }
}

/// A saved definition can be launched once read back: the checks that the
/// save applied up front are the ones the registry applies, so a row that
/// could never launch is never persisted.
pub proof fn lemma_saved_definition_is_launchable(def: CustomAgentDef, spec_json: Seq<char>, row: RowModel)
    requires
        valid_custom_agent_id(def.registry_id@),
        launchable(def@),
        row.columns == saved_columns(def, spec_json),
    ensures
        def_from_row(row, def.spec) matches Some(m) && launchable(m) && valid_custom_agent_id(
            m.registry_id,
        ),
{
    lemma_saved_definition_reads_back(def, spec_json, row);
}

/// The result of trimming the start begins with a non-space.
proof fn lemma_trim_start_shape(s: Seq<char>)
    ensures
        trim_start_chars(s).len() == 0 || !is_white_space(trim_start_chars(s)[0]),
    decreases s.len(),
{
    if s.len() > 0 && is_white_space(s[0]) {
        lemma_trim_start_shape(s.drop_first());
    }
}

/// The result of trimming the end ends with a non-space, and is a prefix.
proof fn lemma_trim_end_shape(s: Seq<char>)
    ensures
        trim_end_chars(s).len() == 0 || !is_white_space(trim_end_chars(s).last()),
        trim_end_chars(s).len() <= s.len(),
        forall|i: int| 0 <= i < trim_end_chars(s).len() ==> trim_end_chars(s)[i] == s[i],
    decreases s.len(),
{
    if s.len() > 0 && is_white_space(s.last()) {
        let d = s.drop_last();
        lemma_trim_end_shape(d);
        assert forall|i: int| 0 <= i < trim_end_chars(s).len() implies trim_end_chars(s)[i] == s[i] by {
            assert(trim_end_chars(s) == trim_end_chars(d));
            assert(d[i] == s[i]);
        }
    }
}

/// Trimming twice is trimming once.
pub proof fn lemma_trim_idempotent(s: Seq<char>)
    ensures
        trim_chars(trim_chars(s)) == trim_chars(s),
{
    let u = trim_start_chars(s);
    let v = trim_end_chars(u);
    lemma_trim_start_shape(s);
    lemma_trim_end_shape(u);
    assert(trim_start_chars(v) == v);
    assert(trim_end_chars(v) == v);
}

/// The fallback version is already in stored form.
proof fn lemma_fallback_is_trimmed()
    ensures
        trim_chars(FALLBACK_VERSION@) == FALLBACK_VERSION@,
        trim_chars(FALLBACK_VERSION@).len() > 0,
{
    reveal_strlit("custom");
    let f = FALLBACK_VERSION@;
    assert(!is_white_space(f[0]));
    assert(trim_start_chars(f) == f);
    assert(!is_white_space(f.last()));
    assert(trim_end_chars(f) == f);
}

/// Saving again a definition read back from its row writes the same columns,
/// provided its version probe was already trimmed and non-blank (a save keeps
/// the probe as given, while reading it back trims it).
pub proof fn lemma_resaving_a_read_back_definition_is_stable(
    def: CustomAgentDef,
    again: CustomAgentDef,
    spec_json: Seq<char>,
)
    requires
        normalized_probe(opt_chars(def.version_probe)) == opt_chars(def.version_probe),
        again@ == stored_def(def@),
    ensures
        saved_columns(again, spec_json) == saved_columns(def, spec_json),
{
    lemma_trim_idempotent(def.name@);
    lemma_trim_idempotent(def.description@);
    lemma_trim_idempotent(def.version@);
    lemma_fallback_is_trimmed();
}

/// The table after deleting every row with the `registry_id` `id`: the other
/// rows, in order.
pub open spec fn delete_rows(t: Seq<RowModel>, id: Seq<char>) -> Seq<RowModel>
    decreases t.len(),
{
    if t.len() == 0 {
        Seq::empty()
    } else {
        let n = t.len() - 1;
        let kept = delete_rows(t.take(n), id);
        if t[n].columns.registry_id == id {
            kept
        } else {
            kept.push(t[n])
        }
    }
}

/// How many rows deleting `id` from `t` removes: what the delete's
/// `rows_affected` reports.
pub open spec fn rows_deleted(t: Seq<RowModel>, id: Seq<char>) -> int {
    t.len() - delete_rows(t, id).len()
}

/// Deleting keeps no row with `id`, removes a row exactly when some row has
/// `id`, and leaves a table without such a row as it was.
proof fn lemma_delete_rows_shape(t: Seq<RowModel>, id: Seq<char>)
    ensures
        delete_rows(t, id).len() <= t.len(),
        forall|k: int|
            0 <= k < delete_rows(t, id).len() ==> (#[trigger] delete_rows(t, id)[k]).columns.registry_id
                != id,
        (delete_rows(t, id).len() < t.len()) <==> exists|i: int|
            0 <= i < t.len() && (#[trigger] t[i]).columns.registry_id == id,
        (forall|i: int| 0 <= i < t.len() ==> (#[trigger] t[i]).columns.registry_id != id)
            ==> delete_rows(t, id) == t,
    decreases t.len(),
{
    if t.len() > 0 {
        let n = t.len() - 1;
        let p = t.take(n);
        lemma_delete_rows_shape(p, id);
        let kept = delete_rows(p, id);
        assert forall|i: int| 0 <= i < n implies p[i] == t[i] by {}
        if exists|i: int| 0 <= i < t.len() && (#[trigger] t[i]).columns.registry_id == id {
            let i = choose|i: int| 0 <= i < t.len() && (#[trigger] t[i]).columns.registry_id == id;
            if i < n {
                assert(p[i].columns.registry_id == id);
            }
        }
        if delete_rows(t, id).len() < t.len() && t[n].columns.registry_id != id {
            assert(kept.len() < p.len());
            let i = choose|i: int| 0 <= i < p.len() && (#[trigger] p[i]).columns.registry_id == id;
            assert(t[i].columns.registry_id == id);
        }
        if forall|i: int| 0 <= i < t.len() ==> (#[trigger] t[i]).columns.registry_id != id {
            assert forall|i: int| 0 <= i < p.len() implies (#[trigger] p[i]).columns.registry_id
                != id by {
                assert(t[i].columns.registry_id != id);
            }
            assert(t[n].columns.registry_id != id);
            assert(p.push(t[n]) =~= t);
        }
    }
}

/// Delete reports whether it removed a row: a delete of `id` reports a
/// removal exactly when some row has `id`, no row with `id` is left after it,
/// and a second delete of the same `id` reports no removal and leaves the
/// table as the first one left it.
pub proof fn lemma_second_delete_removes_nothing(t: Seq<RowModel>, id: Seq<char>)
    ensures
        (rows_deleted(t, id) > 0) <==> exists|i: int|
            0 <= i < t.len() && (#[trigger] t[i]).columns.registry_id == id,
        forall|k: int|
            0 <= k < delete_rows(t, id).len() ==> (#[trigger] delete_rows(t, id)[k]).columns.registry_id
                != id,
        rows_deleted(delete_rows(t, id), id) == 0,
        delete_rows(delete_rows(t, id), id) == delete_rows(t, id),
{
    lemma_delete_rows_shape(t, id);
    lemma_delete_rows_shape(delete_rows(t, id), id);
}

/// A save writes the definition's own values into the matching columns: the
/// id, icon, skills flag, skills directory, version probe, MCP flag and the
/// encoded channels are copied unchanged, each into its own column; name and
/// description are stored trimmed; kind and source by their stored names.
pub proof fn lemma_saved_columns_copy_the_definition(def: CustomAgentDef, spec_json: Seq<char>)
    ensures
        ({
            let c = saved_columns(def, spec_json);
            &&& c.registry_id == def.registry_id@
            &&& c.name == trim_chars(def.name@)
            &&& c.description == trim_chars(def.description@)
            &&& c.spec_json == spec_json
            &&& c.icon_url == opt_chars(def.icon_url)
            &&& c.skills_shared_store == def.skills_shared_store
            &&& c.skills_dir == opt_chars(def.skills_dir)
            &&& c.version_probe == opt_chars(def.version_probe)
            &&& c.supports_mcp == def.supports_mcp
            &&& CustomDistributionKind::from_wire(c.distribution_kind) == Some(def.distribution_kind)
            &&& CustomAgentSource::from_wire(c.source) == def.source
        }),
{
    lemma_kind_wire_round_trip(def.distribution_kind);
    lemma_source_wire_round_trip(def.source);
}

/// Reading a row copies its columns into the definition unchanged, each from
/// its own column (only the version probe is trimmed), and the channels are the
/// ones its `spec_json` decoded to.
pub proof fn lemma_read_row_copies_the_columns(row: RowModel, spec: CustomAgentSpec)
    ensures
        def_from_row(row, spec) matches Some(m) ==> {
            &&& m.registry_id == row.columns.registry_id
            &&& m.name == row.columns.name
            &&& m.description == row.columns.description
            &&& m.version == row.columns.version
            &&& m.spec == spec
            &&& m.distribution_kind.wire_name() == row.columns.distribution_kind
            &&& m.icon_url == row.columns.icon_url
            &&& m.skills_shared_store == row.columns.skills_shared_store
            &&& m.skills_dir == row.columns.skills_dir
            &&& m.supports_mcp == row.columns.supports_mcp
            &&& m.version_probe == normalized_probe(row.columns.version_probe)
        },
        def_from_row(row, spec) is Some <==> CustomDistributionKind::from_wire(
            row.columns.distribution_kind,
        ) is Some,
{
    if let Some(k) = CustomDistributionKind::from_wire(row.columns.distribution_kind) {
        reveal_strlit("npx");
        reveal_strlit("uvx");
        reveal_strlit("binary");
    }
}

/// Only a definition whose named channel is usable can launch: an `npx` or
/// `uvx` definition needs that channel present with a non-empty package (an
/// empty package is refused), and a `binary` one at least one platform
/// archive. Whatever can launch satisfies this, and whatever satisfies it can.
pub proof fn lemma_only_a_named_package_launches(d: AgentDefModel)
    ensures
        d.distribution_kind == CustomDistributionKind::Npx ==> (launchable(d) <==> (
        d.spec.npx matches Some(n) && n.package@.len() > 0)),
        d.distribution_kind == CustomDistributionKind::Uvx ==> (launchable(d) <==> (
        d.spec.uvx matches Some(u) && u.package@.len() > 0)),
        d.distribution_kind == CustomDistributionKind::Binary ==> (launchable(d) <==> !d.spec.binary@.is_empty()),
        d.spec.uvx matches Some(u) && u.package@.len() == 0 && d.distribution_kind
            == CustomDistributionKind::Uvx ==> !launchable(d),
{
}

/// Correcting a legacy row changes only the columns the correction names: the
/// key, icon, skills flag, skills directory, version probe and creation time
/// of the rewritten row are the legacy row's own, and it is stamped `now`.
pub proof fn lemma_correction_keeps_the_legacy_columns(
    rows: Vec<CustomAgentRow>,
    now: i64,
    next: SeedState,
    action: SeedAction,
)
    requires
        seed_step(SeedState::ListingRows, SeedEvent::Rows(rows, now), next, action),
    ensures
        action matches SeedAction::CorrectRow(r) ==> exists|i: int|
            0 <= i < rows.len() && is_stale_sahaa(rows@[i]@) && r.id == (#[trigger] rows@[i]).id
                && opt_chars(r.icon_url) == opt_chars(rows@[i].icon_url) && r.skills_shared_store
                == rows@[i].skills_shared_store && opt_chars(r.skills_dir) == opt_chars(
                rows@[i].skills_dir,
            ) && opt_chars(r.version_probe) == opt_chars(rows@[i].version_probe) && r.created_at
                == rows@[i].created_at && r.updated_at == now && r.supports_mcp
                && r.registry_id@ == SAHAA_ID@,
{
    let models = row_models(rows@);
    lemma_first_stale(models, 0);
    if let Some(i) = first_stale_from(models, 0) {
        assert(models[i] == rows@[i]@);
    }
}

/// The seeded definition carries the original icon exactly: the nine parts of
/// its `data:` URL joined in index order.
pub proof fn lemma_sahaa_default_has_the_original_icon(d: AgentDefModel)
    requires
        is_sahaa_default(d),
    ensures
        d.icon_url == Some(
            ICON_PART_0@ + ICON_PART_1@ + ICON_PART_2@ + ICON_PART_3@ + ICON_PART_4@ + ICON_PART_5@
                + ICON_PART_6@ + ICON_PART_7@ + ICON_PART_8@,
        ),
{
    lemma_sahaa_icon_is_its_parts_in_order();
}

} // verus!
