//! The stored form of a custom agent: one row of the `custom_agent` table.
//!
//! Timestamps are microseconds since the Unix epoch, in UTC.

use vstd::prelude::*;

use crate::text::opt_chars;

verus! {

/// One row of the `custom_agent` table, as a query returns it.
#[derive(Clone, Debug, PartialEq)]
pub struct CustomAgentRow {
    pub id: i32,
    pub registry_id: String,
    pub name: String,
    pub description: String,
    pub version: String,
    pub distribution_kind: String,
    pub spec_json: String,
    pub icon_url: Option<String>,
    pub skills_shared_store: bool,
    pub skills_dir: Option<String>,
    pub source: String,
    pub version_probe: Option<String>,
    pub supports_mcp: bool,
    pub created_at: i64,
    pub updated_at: i64,
}

/// The values a save writes into the columns that describe the agent.
#[derive(Clone, Debug, PartialEq)]
pub struct AgentColumns {
    pub registry_id: String,
    pub name: String,
    pub description: String,
    pub version: String,
    pub distribution_kind: String,
    pub spec_json: String,
    pub icon_url: Option<String>,
    pub skills_shared_store: bool,
    pub skills_dir: Option<String>,
    pub source: String,
    pub version_probe: Option<String>,
    pub supports_mcp: bool,
}

/// A row that does not exist yet: the database assigns its `id`.
#[derive(Clone, Debug, PartialEq)]
pub struct NewAgentRow {
    pub columns: AgentColumns,
    pub created_at: i64,
    pub updated_at: i64,
}

/// The agent-describing columns, as character sequences.
pub struct ColumnsModel {
    pub registry_id: Seq<char>,
    pub name: Seq<char>,
    pub description: Seq<char>,
    pub version: Seq<char>,
    pub distribution_kind: Seq<char>,
    pub spec_json: Seq<char>,
    pub icon_url: Option<Seq<char>>,
    pub skills_shared_store: bool,
    pub skills_dir: Option<Seq<char>>,
    pub source: Seq<char>,
    pub version_probe: Option<Seq<char>>,
    pub supports_mcp: bool,
}

/// A stored row: its key, its columns and its timestamps.
pub struct RowModel {
    pub id: i32,
    pub columns: ColumnsModel,
    pub created_at: i64,
    pub updated_at: i64,
}

impl View for AgentColumns {
    type V = ColumnsModel;

    open spec fn view(&self) -> ColumnsModel {
        ColumnsModel {
            registry_id: self.registry_id@,
            name: self.name@,
            description: self.description@,
            version: self.version@,
            distribution_kind: self.distribution_kind@,
            spec_json: self.spec_json@,
            icon_url: opt_chars(self.icon_url),
            skills_shared_store: self.skills_shared_store,
            skills_dir: opt_chars(self.skills_dir),
            source: self.source@,
            version_probe: opt_chars(self.version_probe),
            supports_mcp: self.supports_mcp,
        }
    }
}

impl View for CustomAgentRow {
    type V = RowModel;

    open spec fn view(&self) -> RowModel {
        RowModel {
            id: self.id,
            columns: ColumnsModel {
                registry_id: self.registry_id@,
                name: self.name@,
                description: self.description@,
                version: self.version@,
                distribution_kind: self.distribution_kind@,
                spec_json: self.spec_json@,
                icon_url: opt_chars(self.icon_url),
                skills_shared_store: self.skills_shared_store,
                skills_dir: opt_chars(self.skills_dir),
                source: self.source@,
                version_probe: opt_chars(self.version_probe),
                supports_mcp: self.supports_mcp,
            },
            created_at: self.created_at,
            updated_at: self.updated_at,
        }
    }
}

impl View for NewAgentRow {
    type V = (ColumnsModel, i64, i64);

    open spec fn view(&self) -> (ColumnsModel, i64, i64) {
        (self.columns@, self.created_at, self.updated_at)
    }
}

} // verus!
