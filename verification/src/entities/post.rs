//! Records a client sends to create an entity.

use vstd::prelude::*;

verus! {

/// The fields of a project to create. The service derives the project's code
/// from `title`; the client never sends one.
#[derive(Debug, Clone, PartialEq, Eq)]
pub struct Project {
    pub title: String,
    pub description: String,
    pub logo: Option<String>,
}

/// The fields of a version to add to a project.
#[derive(Debug, Clone, PartialEq, Eq)]
pub struct Version {
    pub name: String,
    pub url: String,
}

/// The fields of a user to create.
#[derive(Debug, Clone, PartialEq, Eq)]
pub struct User {
    pub name: String,
    pub is_admin: Option<bool>,
}

/// The text that `{:#?}` gives for a [`Project`] with these fields.
pub uninterp spec fn new_project_pretty(
    title: Seq<char>,
    description: Seq<char>,
    logo: Option<Seq<char>>,
) -> Seq<char>;

/// The text that `{:#?}` gives for a [`Version`] with these fields.
pub uninterp spec fn new_version_pretty(name: Seq<char>, url: Seq<char>) -> Seq<char>;

/// The text that `{:#?}` gives for a [`User`] with these fields.
pub uninterp spec fn new_user_pretty(name: Seq<char>, is_admin: Option<bool>) -> Seq<char>;

impl Project {
    /// The record as it is quoted in a message.
    pub open spec fn pretty(&self) -> Seq<char> {
        new_project_pretty(self.title@, self.description@, self.logo.deep_view())
    }
}

impl Version {
    /// The record as it is quoted in a message.
    pub open spec fn pretty(&self) -> Seq<char> {
        new_version_pretty(self.name@, self.url@)
    }
}

impl User {
    /// The record as it is quoted in a message.
    pub open spec fn pretty(&self) -> Seq<char> {
        new_user_pretty(self.name@, self.is_admin)
    }
}

/// Calls `format!` with `{:#?}` on the record, which runs the `Debug` impl
/// that `derive` wrote for it and std's `Debug` for its fields, in the
/// multi-line form. Trusted: the contract claims that the text is a function
/// of the fields' contents, and no more.
#[verifier::external_body]
pub(crate) fn new_project_text(project: &Project) -> (text: String)
    ensures
        text@ == new_project_pretty(
            project.title@,
            project.description@,
            project.logo.deep_view(),
        ),
{
    format!("{:#?}", project)
}

/// Calls `format!` with `{:#?}` on the record, which runs the `Debug` impl
/// that `derive` wrote for it and std's `Debug` for its fields, in the
/// multi-line form. Trusted: the contract claims that the text is a function
/// of the fields' contents, and no more.
#[verifier::external_body]
pub(crate) fn new_version_text(version: &Version) -> (text: String)
    ensures
        text@ == new_version_pretty(version.name@, version.url@),
{
    format!("{:#?}", version)
}

/// Calls `format!` with `{:#?}` on the record, which runs the `Debug` impl
/// that `derive` wrote for it and std's `Debug` for its fields, in the
/// multi-line form. Trusted: the contract claims that the text is a function
/// of the fields' contents, and no more.
#[verifier::external_body]
pub(crate) fn new_user_text(user: &User) -> (text: String)
    ensures
        text@ == new_user_pretty(user.name@, user.is_admin),
{
    format!("{:#?}", user)
}

} // verus!
