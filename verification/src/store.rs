//! The two configuration namespaces the page reads and writes, the keys it
//! uses in them, and what becomes of a read that did not find a value.

use vstd::prelude::*;

verus! {

/// A configuration namespace: a named scope of the store with a schema
/// version of its own.
#[derive(Clone, Copy, Debug, PartialEq, Eq, Structural)]
pub enum Namespace {
    /// The compositor's configuration.
    Compositor,
    /// The workspace overview's configuration.
    Workspaces,
}

/// A key the page reads at start and writes when its value changes.
#[derive(Clone, Copy, Debug, PartialEq, Eq, Structural)]
pub enum ConfigKey {
    Workspaces,
    ShowWorkspaceName,
    ShowWorkspaceNumber,
}

/// How a read from the store ended.
#[derive(Debug, PartialEq, Eq)]
pub enum Read<T> {
    /// The store held a value.
    Found(T),
    /// There is no configuration directory yet, as on a first run.
    NoConfigDirectory,
    /// The read failed for any other reason.
    Failed,
}

impl Namespace {
    pub open spec fn name_spec(self) -> Seq<char> {
        match self {
            Namespace::Compositor => "com.system76.CosmicComp"@,
            Namespace::Workspaces => "com.system76.CosmicWorkspaces"@,
        }
    }

    pub open spec fn version_spec(self) -> u64 {
        1
    }

    pub fn name(self) -> (name: &'static str)
        ensures
            name@ == self.name_spec(),
    {
        match self {
            Namespace::Compositor => "com.system76.CosmicComp",
            Namespace::Workspaces => "com.system76.CosmicWorkspaces",
        }
    }

    /// The schema version under which the namespace is opened.
    #[verifier::when_used_as_spec(version_spec)]
    pub fn version(self) -> (version: u64)
        ensures
            version == self.version_spec(),
    {
        1
    }
}

impl ConfigKey {
    pub open spec fn namespace_spec(self) -> Namespace {
        match self {
            ConfigKey::Workspaces => Namespace::Compositor,
            ConfigKey::ShowWorkspaceName | ConfigKey::ShowWorkspaceNumber => Namespace::Workspaces,
        }
    }

    pub open spec fn name_spec(self) -> Seq<char> {
        match self {
            ConfigKey::Workspaces => "workspaces"@,
            ConfigKey::ShowWorkspaceName => "show_workspace_name"@,
            ConfigKey::ShowWorkspaceNumber => "show_workspace_number"@,
        }
    }

    /// The namespace that holds the key.
    #[verifier::when_used_as_spec(namespace_spec)]
    pub fn namespace(self) -> (namespace: Namespace)
        ensures
            namespace == self.namespace_spec(),
    {
        match self {
            ConfigKey::Workspaces => Namespace::Compositor,
            ConfigKey::ShowWorkspaceName | ConfigKey::ShowWorkspaceNumber => Namespace::Workspaces,
        }
    }

    pub fn name(self) -> (name: &'static str)
        ensures
            name@ == self.name_spec(),
    {
        match self {
            ConfigKey::Workspaces => "workspaces",
            ConfigKey::ShowWorkspaceName => "show_workspace_name",
            ConfigKey::ShowWorkspaceNumber => "show_workspace_number",
        }
    }
}

impl<T> Read<T> {
    /// The value to go on with: the one found, else the fallback.
    pub open spec fn value_or(self, fallback: T) -> T {
        match self {
            Read::Found(value) => value,
            _ => fallback,
        }
    }

    /// Whether the read is to be reported as an error. A missing
    /// configuration directory is expected and passed over in silence.
    pub open spec fn reported(self) -> bool {
        self is Failed
    }

    /// Settles a read: the value to go on with, and whether the failure is to
    /// be reported.
    pub fn settle(self, fallback: T) -> (settled: (T, bool))
        ensures
            settled.0 == self.value_or(fallback),
            settled.1 == self.reported(),
    {
        match self {
            Read::Found(value) => (value, false),
            Read::NoConfigDirectory => (fallback, false),
            Read::Failed => (fallback, true),
        }
    }
}

} // verus!
