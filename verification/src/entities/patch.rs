//! Records a client sends to change an entity.

use vstd::prelude::*;

verus! {

/// The changes to make to the project `code`. The code addresses the project
/// and is not part of what is sent.
#[derive(Debug, Clone, PartialEq, Eq)]
pub struct Project {
    pub code: String,
    pub description: Option<String>,
    pub logo: Option<String>,
}

/// The new location of a version.
#[derive(Debug, Clone, PartialEq, Eq)]
pub struct Version {
    pub url: String,
}

/// One role on one project, as an element of the set of grants a user holds.
#[derive(Debug, Clone, PartialEq, Eq)]
pub struct ProjectRole {
    pub role_name: String,
    pub project_code: String,
}

/// The text that `{:#?}` gives for a [`Project`] with these fields.
pub uninterp spec fn project_patch_pretty(
    code: Seq<char>,
    description: Option<Seq<char>>,
    logo: Option<Seq<char>>,
) -> Seq<char>;

/// The text that `{:#?}` gives for a [`Version`] with this field.
pub uninterp spec fn version_patch_pretty(url: Seq<char>) -> Seq<char>;

/// The text that `{:#?}` gives for a list of [`ProjectRole`]s, each given as
/// its role name and its project code.
pub uninterp spec fn role_list_pretty(roles: Seq<(Seq<char>, Seq<char>)>) -> Seq<char>;

impl Project {
    /// The record as it is quoted in a message.
    pub open spec fn pretty(&self) -> Seq<char> {
        project_patch_pretty(self.code@, self.description.deep_view(), self.logo.deep_view())
    }
}

impl Version {
    /// The record as it is quoted in a message.
    pub open spec fn pretty(&self) -> Seq<char> {
        version_patch_pretty(self.url@)
    }
}

impl ProjectRole {
    /// The role name and the project code, in this order.
    pub open spec fn pair(&self) -> (Seq<char>, Seq<char>) {
        (self.role_name@, self.project_code@)
    }
}

/// The pairs of a list of roles, in the list's order.
pub open spec fn pairs(roles: Seq<ProjectRole>) -> Seq<(Seq<char>, Seq<char>)> {
    roles.map_values(|role: ProjectRole| role.pair())
}

/// Calls `format!` with `{:#?}` on the record, which runs the `Debug` impl
/// that `derive` wrote for it and std's `Debug` for its fields, in the
/// multi-line form. Trusted: the contract claims that the text is a function
/// of the fields' contents, and no more.
#[verifier::external_body]
pub(crate) fn project_patch_text(project: &Project) -> (text: String)
    ensures
        text@ == project_patch_pretty(
            project.code@,
            project.description.deep_view(),
            project.logo.deep_view(),
        ),
{
    format!("{:#?}", project)
}

/// Calls `format!` with `{:#?}` on the record, which runs the `Debug` impl
/// that `derive` wrote for it and std's `Debug` for its field, in the
/// multi-line form. Trusted: the contract claims that the text is a function
/// of the field's contents, and no more.
#[verifier::external_body]
pub(crate) fn version_patch_text(version: &Version) -> (text: String)
    ensures
        text@ == version_patch_pretty(version.url@),
{
    format!("{:#?}", version)
}

/// Calls `format!` with `{:#?}` on the list, which runs std's `Debug` for
/// `Vec` and the `Debug` impl that `derive` wrote for its items, in the
/// multi-line form. Trusted: the contract claims that the text is a function
/// of the items' contents and their order, and no more.
#[verifier::external_body]
pub(crate) fn role_list_text(roles: &Vec<ProjectRole>) -> (text: String)
    ensures
        text@ == role_list_pretty(pairs(roles@)),
{
    format!("{:#?}", roles)
}

} // verus!
