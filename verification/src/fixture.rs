//! Structured models of test-fixture workspaces.
//!
//! Integration harnesses fabricate throwaway repositories to run the
//! pipeline against. These builders describe the packages such a repository
//! holds as structured data — name, version, kind, metadata, source text —
//! so that the fabricated manifests are derived from values rather than
//! pasted together from strings.

use vstd::prelude::*;

verus! {

/// Which changelog-tool configuration a fixture uses.
#[derive(Clone, Copy, Debug, PartialEq, Eq, Structural)]
pub enum ChangelogConfig {
    /// The configuration for projects still on a pre-1.0 version line.
    Pre1Point0Cliff,
}

/// One package of a fixture workspace.
pub struct CrateModel {
    /// The package's name.
    pub name: String,
    /// The package's version, bare.
    pub version: String,
    /// Whether the package is a binary; a library otherwise.
    pub binary: bool,
    /// The manifest's description field, if any.
    pub description: Option<String>,
    /// The manifest's repository field, if any.
    pub repository: Option<String>,
    /// The manifest's license field, if any.
    pub license: Option<String>,
    /// The package's source text; a placeholder is used when absent.
    pub content: Option<String>,
}

impl CrateModel {
    /// A new package model: a binary with no metadata and placeholder
    /// source.
    pub fn new(name: &str, version: &str) -> (r: Self)
        ensures
            r.name@ == name@,
            r.version@ == version@,
            r.binary == true,
            r.description is None,
            r.repository is None,
            r.license is None,
            r.content is None,
    {
        CrateModel {
            name: String::from_str(name),
            version: String::from_str(version),
            binary: true,
            description: None,
            repository: None,
            license: None,
            content: None,
        }
    }

    /// Turn the package into a library.
    pub fn make_lib(self) -> (r: Self)
        ensures
            r.name == self.name,
            r.version == self.version,
            r.binary == false,
            r.description == self.description,
            r.repository == self.repository,
            r.license == self.license,
            r.content == self.content,
    {
        CrateModel { binary: false, ..self }
    }

    /// Give the package a description.
    pub fn with_description(self, description: &str) -> (r: Self)
        ensures
            r.name == self.name,
            r.version == self.version,
            r.binary == self.binary,
            r.description matches Some(d) && d@ == description@,
            r.repository == self.repository,
            r.license == self.license,
            r.content == self.content,
    {
        CrateModel { description: Some(String::from_str(description)), ..self }
    }

    /// Give the package a repository field.
    pub fn with_repository(self, repository: &str) -> (r: Self)
        ensures
            r.name == self.name,
            r.version == self.version,
            r.binary == self.binary,
            r.description == self.description,
            r.repository matches Some(u) && u@ == repository@,
            r.license == self.license,
            r.content == self.content,
    {
        CrateModel { repository: Some(String::from_str(repository)), ..self }
    }

    /// Give the package a license field.
    pub fn with_license(self, license: &str) -> (r: Self)
        ensures
            r.name == self.name,
            r.version == self.version,
            r.binary == self.binary,
            r.description == self.description,
            r.repository == self.repository,
            r.license matches Some(l) && l@ == license@,
            r.content == self.content,
    {
        CrateModel { license: Some(String::from_str(license)), ..self }
    }

    /// Give the package its source text.
    pub fn with_content(self, content: &str) -> (r: Self)
        ensures
            r.name == self.name,
            r.version == self.version,
            r.binary == self.binary,
            r.description == self.description,
            r.repository == self.repository,
            r.license == self.license,
            r.content matches Some(c) && c@ == content@,
    {
        CrateModel { content: Some(String::from_str(content)), ..self }
    }
}

/// A fixture workspace: its packages, each with the names of the workspace
/// dependencies it pulls in.
pub struct CargoWorkspaceModel {
    crates: Vec<(CrateModel, Vec<String>)>,
}

impl CargoWorkspaceModel {
    /// The packages added so far, each beside its dependencies' names.
    pub closed spec fn entries(self) -> Seq<(CrateModel, Seq<Seq<char>>)> {
        Seq::new(self.crates@.len(), |i: int| (self.crates@[i].0, self.crates@[i].1.deep_view()))
    }

    /// An empty workspace model.
    pub fn new() -> (r: Self)
        ensures
            r.entries() == Seq::<(CrateModel, Seq<Seq<char>>)>::empty(),
    {
        let r = CargoWorkspaceModel { crates: Vec::new() };
        proof {
            assert(r.entries() =~= Seq::<(CrateModel, Seq<Seq<char>>)>::empty());
        }
        r
    }

    /// Add a package to the workspace, with the names of the workspace
    /// dependencies it uses.
    pub fn add_crate(self, crate_model: CrateModel, workspace_dependencies: &[&str]) -> (r: Self)
        ensures
            r.entries() == self.entries().push(
                (crate_model, workspace_dependencies.deep_view()),
            ),
    {
        let mut deps: Vec<String> = Vec::new();
        let mut i: usize = 0;
        while i < workspace_dependencies.len()
            invariant
                0 <= i <= workspace_dependencies@.len(),
                deps@.len() == i,
                forall|j: int| 0 <= j < i ==> #[trigger] deps@[j]@ == workspace_dependencies@[j]@,
            decreases workspace_dependencies@.len() - i,
        {
            let dep = workspace_dependencies[i];
            deps.push(String::from_str(dep));
            i = i + 1;
        }
        proof {
            assert forall|j: int|
                0 <= j < deps.deep_view().len() implies deps.deep_view()[j]
                == workspace_dependencies.deep_view()[j] by {
                assert(deps@[j]@ == workspace_dependencies@[j]@);
            }
            assert(deps.deep_view() =~= workspace_dependencies.deep_view());
        }
        let mut crates = self.crates;
        crates.push((crate_model, deps));
        let r = CargoWorkspaceModel { crates };
        proof {
            assert(r.entries() =~= self.entries().push(
                (crate_model, workspace_dependencies.deep_view()),
            ));
        }
        r
    }
}

impl Default for CargoWorkspaceModel {
    /// An empty workspace model.
    fn default() -> (r: Self)
        ensures
            r.entries() == Seq::<(CrateModel, Seq<Seq<char>>)>::empty(),
    {
        CargoWorkspaceModel::new()
    }
}

} // verus!
