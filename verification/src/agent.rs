//! Custom agent definitions and the checks a definition must pass before it
//! can be saved or launched.

use std::collections::BTreeMap;
use vstd::prelude::*;
use vstd::string::*;

use crate::text::{opt_chars, str_equal};

verus! {

/// How a custom agent is distributed and launched.
#[derive(Clone, Copy, Debug, PartialEq, Eq, Structural)]
pub enum CustomDistributionKind {
    Npx,
    Uvx,
    Binary,
}

impl CustomDistributionKind {
    /// The name under which the kind is stored in the `distribution_kind` column.
    pub open spec fn wire_name(self) -> Seq<char> {
        match self {
            CustomDistributionKind::Npx => "npx"@,
            CustomDistributionKind::Uvx => "uvx"@,
            CustomDistributionKind::Binary => "binary"@,
        }
    }

    /// The kind whose stored name is `s`, if any.
    pub open spec fn from_wire(s: Seq<char>) -> Option<CustomDistributionKind> {
        if s == "npx"@ {
            Some(CustomDistributionKind::Npx)
        } else if s == "uvx"@ {
            Some(CustomDistributionKind::Uvx)
        } else if s == "binary"@ {
            Some(CustomDistributionKind::Binary)
        } else {
            None
        }
    }

    pub fn as_str(&self) -> (s: &'static str)
        ensures
            s@ == self.wire_name(),
    {
        match self {
            CustomDistributionKind::Npx => "npx",
            CustomDistributionKind::Uvx => "uvx",
            CustomDistributionKind::Binary => "binary",
        }
    }

    /// Reads a stored kind name; an unknown name gives `None`.
    pub fn parse(s: &str) -> (k: Option<CustomDistributionKind>)
        ensures
            k == CustomDistributionKind::from_wire(s@),
    {
        if str_equal(s, "npx") {
            Some(CustomDistributionKind::Npx)
        } else if str_equal(s, "uvx") {
            Some(CustomDistributionKind::Uvx)
        } else if str_equal(s, "binary") {
            Some(CustomDistributionKind::Binary)
        } else {
            None
        }
    }
}

/// Where a custom agent definition came from.
#[derive(Clone, Copy, Debug, PartialEq, Eq, Structural, Default)]
pub enum CustomAgentSource {
    /// Installed from the public agent registry.
    #[default]
    Registry,
    /// Entered by hand by the user.
    Manual,
}

impl CustomAgentSource {
    /// The name under which the source is stored in the `source` column.
    pub open spec fn wire_name(self) -> Seq<char> {
        match self {
            CustomAgentSource::Registry => "registry"@,
            CustomAgentSource::Manual => "manual"@,
        }
    }

    /// The source whose stored name is `s`; any name other than `manual`
    /// reads as the default, `Registry`.
    pub open spec fn from_wire(s: Seq<char>) -> CustomAgentSource {
        if s == "manual"@ {
            CustomAgentSource::Manual
        } else {
            CustomAgentSource::Registry
        }
    }

    pub fn as_str(&self) -> (s: &'static str)
        ensures
            s@ == self.wire_name(),
    {
        match self {
            CustomAgentSource::Registry => "registry",
            CustomAgentSource::Manual => "manual",
        }
    }

    pub fn parse(s: &str) -> (r: CustomAgentSource)
        ensures
            r == CustomAgentSource::from_wire(s@),
    {
        if str_equal(s, "manual") {
            CustomAgentSource::Manual
        } else {
            CustomAgentSource::Registry
        }
    }
}

/// Launch through `npx <package>`.
#[derive(Clone, Debug, Default, PartialEq)]
pub struct NpxSpec {
    pub package: String,
    pub cmd: Option<String>,
    pub args: Vec<String>,
    pub env: BTreeMap<String, String>,
    pub node_required: Option<String>,
}

/// Launch through `uvx <package>`.
#[derive(Clone, Debug, Default, PartialEq)]
pub struct UvxSpec {
    pub package: String,
    pub cmd: Option<String>,
    pub args: Vec<String>,
    pub env: BTreeMap<String, String>,
}

/// A prebuilt archive for one platform.
#[derive(Clone, Debug, Default, PartialEq)]
pub struct BinaryPlatformSpec {
    pub archive: String,
    pub cmd: String,
    pub args: Vec<String>,
    pub env: BTreeMap<String, String>,
}

/// The launch channels a definition offers; stored as JSON in `spec_json`.
#[derive(Clone, Debug, Default, PartialEq)]
pub struct CustomAgentSpec {
    pub npx: Option<NpxSpec>,
    pub uvx: Option<UvxSpec>,
    pub binary: BTreeMap<String, BinaryPlatformSpec>,
}

/// A user-registered ACP agent, as the launch registry consumes it.
#[derive(Clone, Debug, PartialEq)]
pub struct CustomAgentDef {
    pub registry_id: String,
    pub name: String,
    pub description: String,
    pub version: String,
    pub distribution_kind: CustomDistributionKind,
    pub spec: CustomAgentSpec,
    pub icon_url: Option<String>,
    pub skills_shared_store: bool,
    pub skills_dir: Option<String>,
    pub source: CustomAgentSource,
    pub version_probe: Option<String>,
    pub supports_mcp: bool,
}

/// A definition with its strings taken as character sequences.
pub struct AgentDefModel {
    pub registry_id: Seq<char>,
    pub name: Seq<char>,
    pub description: Seq<char>,
    pub version: Seq<char>,
    pub distribution_kind: CustomDistributionKind,
    pub spec: CustomAgentSpec,
    pub icon_url: Option<Seq<char>>,
    pub skills_shared_store: bool,
    pub skills_dir: Option<Seq<char>>,
    pub source: CustomAgentSource,
    pub version_probe: Option<Seq<char>>,
    pub supports_mcp: bool,
}

impl View for CustomAgentDef {
    type V = AgentDefModel;

    open spec fn view(&self) -> AgentDefModel {
        AgentDefModel {
            registry_id: self.registry_id@,
            name: self.name@,
            description: self.description@,
            version: self.version@,
            distribution_kind: self.distribution_kind,
            spec: self.spec,
            icon_url: opt_chars(self.icon_url),
            skills_shared_store: self.skills_shared_store,
            skills_dir: opt_chars(self.skills_dir),
            source: self.source,
            version_probe: opt_chars(self.version_probe),
            supports_mcp: self.supports_mcp,
        }
    }
}

/// A character allowed in a custom agent id: a lower-case ASCII letter, an
/// ASCII digit, `-` or `_`.
pub open spec fn is_id_char(c: char) -> bool {
    let u = c as int;
    ||| 0x61 <= u <= 0x7A
    ||| 0x30 <= u <= 0x39
    ||| u == 0x2D
    ||| u == 0x5F
}

/// An id that can name a custom agent: non-empty, and made only of
/// [`is_id_char`] characters (so it can never hold a path separator).
/// `sahaa` is accepted: the bundled agent is seeded as a custom agent under
/// that id (see [`crate::seed`]), so refusing it would make seeding fail.
pub open spec fn valid_custom_agent_id(id: Seq<char>) -> bool {
    &&& id.len() > 0
    &&& forall|i: int| 0 <= i < id.len() ==> is_id_char(#[trigger] id[i])
}

pub fn is_valid_custom_agent_id(id: &str) -> (ok: bool)
    ensures
        ok == valid_custom_agent_id(id@),
{
    let n = id.unicode_len();
    if n == 0 {
        return false;
    }
    let mut i: usize = 0;
    while i < n
        invariant
            n == id@.len(),
            i <= n,
            forall|j: int| 0 <= j < i ==> is_id_char(#[trigger] id@[j]),
        decreases n - i,
    {
        let c = id.get_char(i);
        let u = c as u32;
        let good = (0x61 <= u && u <= 0x7A) || (0x30 <= u && u <= 0x39) || u == 0x2D || u == 0x5F;
        if !good {
            assert(!is_id_char(id@[i as int]));
            return false;
        }
        i = i + 1;
    }
    true
}

/// A definition that can be turned into launch metadata: the channel named by
/// `distribution_kind` is present, and for `npx` and `uvx` it names a package.
pub open spec fn launchable(def: AgentDefModel) -> bool {
    match def.distribution_kind {
        CustomDistributionKind::Npx => match def.spec.npx {
            Some(n) => n.package@.len() > 0,
            None => false,
        },
        CustomDistributionKind::Uvx => match def.spec.uvx {
            Some(u) => u.package@.len() > 0,
            None => false,
        },
        CustomDistributionKind::Binary => !def.spec.binary@.is_empty(),
    }
}

/// What keeps a definition that is not [`launchable`] from launching.
pub open spec fn launch_problem(def: AgentDefModel) -> Seq<char> {
    match def.distribution_kind {
        CustomDistributionKind::Npx => match def.spec.npx {
            Some(n) => "npx distribution has an empty package"@,
            None => "npx distribution has no npx spec"@,
        },
        CustomDistributionKind::Uvx => match def.spec.uvx {
            Some(u) => "uvx distribution has an empty package"@,
            None => "uvx distribution has no uvx spec"@,
        },
        CustomDistributionKind::Binary => "binary distribution has no platform archives"@,
    }
}

/// Checks that `def` could be launched; the error names what is missing.
pub fn validate(def: &CustomAgentDef) -> (r: Result<(), String>)
    ensures
        r is Ok <==> launchable(def@),
        r matches Err(m) ==> m@ == launch_problem(def@),
        def.distribution_kind == CustomDistributionKind::Npx ==> (r is Ok <==> (def.spec.npx matches Some(n)
            && n.package@.len() > 0)),
        def.distribution_kind == CustomDistributionKind::Uvx ==> (r is Ok <==> (def.spec.uvx matches Some(u)
            && u.package@.len() > 0)),
        def.distribution_kind == CustomDistributionKind::Binary ==> (r is Ok <==> !def.spec.binary@.is_empty()),
{
    match def.distribution_kind {
        CustomDistributionKind::Npx => match &def.spec.npx {
            Some(n) => {
                if n.package.as_str().is_empty() {
                    Err("npx distribution has an empty package".to_owned())
                } else {
                    Ok(())
                }
            },
            None => Err("npx distribution has no npx spec".to_owned()),
        },
        CustomDistributionKind::Uvx => match &def.spec.uvx {
            Some(u) => {
                if u.package.as_str().is_empty() {
                    Err("uvx distribution has an empty package".to_owned())
                } else {
                    Ok(())
                }
            },
            None => Err("uvx distribution has no uvx spec".to_owned()),
        },
        CustomDistributionKind::Binary => {
            if def.spec.binary.is_empty() {
                Err("binary distribution has no platform archives".to_owned())
            } else {
                Ok(())
            }
        },
    }
}

} // verus!
