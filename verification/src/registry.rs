//! The extensions that the gateway knows, each under its key.

use vstd::prelude::*;
use vstd::string::StringExecFns;

verus! {

/// An extension kind that can be configured.
#[derive(Clone, Copy, Debug, PartialEq, Eq, Structural)]
pub enum PluginKind {
    /// The error visibility filter.
    IncludeSubgraphErrors,
    /// The telemetry reporting extension.
    Reporting,
}

impl PluginKind {
    /// The vendor part of the key.
    pub open spec fn group(self) -> Seq<char> {
        match self {
            PluginKind::IncludeSubgraphErrors => "experimental"@,
            PluginKind::Reporting => "com.apollographql"@,
        }
    }

    /// The name part of the key.
    pub open spec fn name(self) -> Seq<char> {
        match self {
            PluginKind::IncludeSubgraphErrors => "include_subgraph_errors"@,
            PluginKind::Reporting => "reporting"@,
        }
    }

    /// The key: vendor, a dot, name.
    pub open spec fn key(self) -> Seq<char> {
        self.group() + "."@ + self.name()
    }

    /// The key under which the kind is configured.
    pub fn plugin_key(self) -> (key: String)
        ensures
            key@ == self.key(),
    {
        match self {
            PluginKind::IncludeSubgraphErrors => "experimental".to_owned().concat(".").concat(
                "include_subgraph_errors",
            ),
            PluginKind::Reporting => "com.apollographql".to_owned().concat(".").concat("reporting"),
        }
    }
}

/// No two kinds share a key.
pub proof fn keys_are_unique(a: PluginKind, b: PluginKind)
    ensures
        a.key() == b.key() ==> a == b,
{
    reveal_strlit("experimental");
    reveal_strlit("com.apollographql");
    reveal_strlit("include_subgraph_errors");
    reveal_strlit("reporting");
    reveal_strlit(".");
    assert(PluginKind::Reporting.key().len() == 27);
}

/// The kind that is configured under `key`; none for a key that no kind has.
pub fn find_plugin(key: &str) -> (found: Option<PluginKind>)
    ensures
        match found {
            Some(kind) => kind.key() == key@,
            None => forall|kind: PluginKind| kind.key() != key@,
        },
{
    let wanted = key.to_owned();
    if PluginKind::IncludeSubgraphErrors.plugin_key() == wanted {
        Some(PluginKind::IncludeSubgraphErrors)
    } else if PluginKind::Reporting.plugin_key() == wanted {
        Some(PluginKind::Reporting)
    } else {
        assert forall|kind: PluginKind| kind.key() != key@ by {
            match kind {
                PluginKind::IncludeSubgraphErrors => {},
                PluginKind::Reporting => {},
            }
        }
        None
    }
}

} // verus!
