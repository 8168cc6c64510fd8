//! Where the record of an operation comes from. A file, where one is
//! given, decides alone: nothing of the flags is merged into its record.
//! Without a file the record is made of the flags, and a required one that
//! is missing ends the operation.

use crate::command_line::{FileError, ProjectRole};
use crate::entities::{patch, post};
use crate::error::{failing, Failure, FailureModel};
use vstd::prelude::*;

verus! {

/// What reading a file gave, as the result of the operation that asked for
/// it: the record, or an input error that says what went wrong.
pub open spec fn loaded<R>(file: Result<R, FileError>) -> Result<R, FailureModel> {
    match file {
        Ok(record) => Ok(record),
        Err(FileError::CannotOpen(reason)) => Err(
            FailureModel::InputError("Cannot open file: "@ + reason@),
        ),
        Err(FileError::InvalidContent(reason)) => Err(
            FailureModel::InputError("Invalid file content: "@ + reason@),
        ),
    }
}

/// Takes the record out of what reading a file gave, or reports why there is
/// none.
pub fn from_file<R>(file: Result<R, FileError>) -> (result: Result<R, Failure>)
    ensures
        failing(result) == loaded(file),
{
    match file {
        Ok(record) => Ok(record),
        Err(FileError::CannotOpen(reason)) => {
            let mut message = "Cannot open file: ".to_owned();
            message.append(reason.as_str());
            Err(Failure::InputError(message))
        },
        Err(FileError::InvalidContent(reason)) => {
            let mut message = "Invalid file content: ".to_owned();
            message.append(reason.as_str());
            Err(Failure::InputError(message))
        },
    }
}

/// The project to create: the record of the file where there is a file, and
/// the record made of the flags otherwise, for which the title and the
/// description must be there.
pub open spec fn new_project(
    title: Option<String>,
    description: Option<String>,
    logo: Option<String>,
    file: Option<Result<post::Project, FileError>>,
) -> Result<post::Project, FailureModel> {
    match file {
        Some(file) => loaded(file),
        None => match title {
            None => Err(FailureModel::InputError("Missing compulsory 'title' field"@)),
            Some(title) => match description {
                None => Err(FailureModel::InputError("Missing compulsory 'description' field"@)),
                Some(description) => Ok(post::Project { title, description, logo }),
            },
        },
    }
}

/// The changes to a project: the record of the file where there is a file,
/// and the record made of the flags otherwise.
pub open spec fn project_patch(
    code: String,
    description: Option<String>,
    logo: Option<String>,
    file: Option<Result<patch::Project, FileError>>,
) -> Result<patch::Project, FailureModel> {
    match file {
        Some(file) => loaded(file),
        None => Ok(patch::Project { code, description, logo }),
    }
}

/// The version to add: the record of the file where there is a file, and the
/// record made of the flags otherwise, for which the name and the URL must
/// be there.
pub open spec fn new_version(
    version: Option<String>,
    url: Option<String>,
    file: Option<Result<post::Version, FileError>>,
) -> Result<post::Version, FailureModel> {
    match file {
        Some(file) => loaded(file),
        None => match version {
            None => Err(FailureModel::InputError("Missing compulsory 'version' field"@)),
            Some(name) => match url {
                None => Err(FailureModel::InputError("Missing compulsory 'url' field"@)),
                Some(url) => Ok(post::Version { name, url }),
            },
        },
    }
}

/// The user to create: the record of the file where there is a file, and the
/// record made of the flags otherwise, for which the name must be there.
pub open spec fn new_user(
    name: Option<String>,
    is_admin: Option<bool>,
    file: Option<Result<post::User, FileError>>,
) -> Result<post::User, FailureModel> {
    match file {
        Some(file) => loaded(file),
        None => match name {
            None => Err(FailureModel::InputError("Missing compulsory 'name' field"@)),
            Some(name) => Ok(post::User { name, is_admin }),
        },
    }
}

/// A role written on the command line as an element of a request.
pub open spec fn as_grant(role: ProjectRole) -> patch::ProjectRole {
    patch::ProjectRole { role_name: role.role_name, project_code: role.project_code }
}

/// The roles to grant or revoke: the list of the file where there is a file,
/// and otherwise the roles of the command line, each one kept and in the
/// order in which they were written.
pub open spec fn role_list(
    project_role: Vec<ProjectRole>,
    file: Option<Result<Vec<patch::ProjectRole>, FileError>>,
) -> Result<Seq<patch::ProjectRole>, FailureModel> {
    match file {
        Some(file) => match loaded(file) {
            Ok(roles) => Ok(roles@),
            Err(err) => Err(err),
        },
        None => Ok(project_role@.map_values(|role: ProjectRole| as_grant(role))),
    }
}

/// Settles the project to create from the flags and the file.
pub fn resolve_new_project(
    title: Option<String>,
    description: Option<String>,
    logo: Option<String>,
    file: Option<Result<post::Project, FileError>>,
) -> (result: Result<post::Project, Failure>)
    ensures
        failing(result) == new_project(title, description, logo, file),
{
    match file {
        Some(file) => from_file(file),
        None => {
            let title = match title {
                Some(title) => title,
                None => {
                    return Err(Failure::input("Missing compulsory 'title' field"));
                },
            };
            let description = match description {
                Some(description) => description,
                None => {
                    return Err(Failure::input("Missing compulsory 'description' field"));
                },
            };
            Ok(post::Project { title, description, logo })
        },
    }
}

/// Settles the changes to a project from the flags and the file.
pub fn resolve_project_patch(
    code: String,
    description: Option<String>,
    logo: Option<String>,
    file: Option<Result<patch::Project, FileError>>,
) -> (result: Result<patch::Project, Failure>)
    ensures
        failing(result) == project_patch(code, description, logo, file),
{
    match file {
        Some(file) => from_file(file),
        None => Ok(patch::Project { code, description, logo }),
    }
}

/// Settles the version to add from the flags and the file.
pub fn resolve_new_version(
    version: Option<String>,
    url: Option<String>,
    file: Option<Result<post::Version, FileError>>,
) -> (result: Result<post::Version, Failure>)
    ensures
        failing(result) == new_version(version, url, file),
{
    match file {
        Some(file) => from_file(file),
        None => {
            let name = match version {
                Some(name) => name,
                None => {
                    return Err(Failure::input("Missing compulsory 'version' field"));
                },
            };
            let url = match url {
                Some(url) => url,
                None => {
                    return Err(Failure::input("Missing compulsory 'url' field"));
                },
            };
            Ok(post::Version { name, url })
        },
    }
}

/// Settles the user to create from the flags and the file.
pub fn resolve_new_user(
    name: Option<String>,
    is_admin: Option<bool>,
    file: Option<Result<post::User, FileError>>,
) -> (result: Result<post::User, Failure>)
    ensures
        failing(result) == new_user(name, is_admin, file),
{
    match file {
        Some(file) => from_file(file),
        None => match name {
            Some(name) => Ok(post::User { name, is_admin }),
            None => Err(Failure::input("Missing compulsory 'name' field")),
        },
    }
}

/// Settles the roles to grant or revoke from the command line and the file.
pub fn resolve_roles(
    project_role: Vec<ProjectRole>,
    file: Option<Result<Vec<patch::ProjectRole>, FileError>>,
) -> (result: Result<Vec<patch::ProjectRole>, Failure>)
    ensures
        match role_list(project_role, file) {
            Ok(roles) => result matches Ok(list) && list@ == roles,
            Err(err) => result matches Err(failure) && failure@ == err,
        },
{
    match file {
        Some(file) => from_file(file),
        None => {
            let mut roles: Vec<patch::ProjectRole> = Vec::new();
            let mut index: usize = 0;
            while index < project_role.len()
                invariant
                    index <= project_role.len(),
                    roles@ == project_role@.take(index as int).map_values(
                        |role: ProjectRole| as_grant(role),
                    ),
                decreases project_role.len() - index,
            {
                let role = &project_role[index];
                roles.push(
                    patch::ProjectRole {
                        role_name: role.role_name.clone(),
                        project_code: role.project_code.clone(),
                    },
                );
                index += 1;
                assert(roles@ =~= project_role@.take(index as int).map_values(
                    |role: ProjectRole| as_grant(role),
                ));
            }
            Ok(roles)
        },
    }
}

} // verus!
