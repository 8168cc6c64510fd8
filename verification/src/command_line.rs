//! What the user asked for: the options of one invocation, with the files
//! they name already read.

use crate::entities::{patch, post};
use vstd::prelude::*;

verus! {

/// Why a file named on the command line gave no record. Each variant holds
/// the reason as text.
#[derive(Debug, Clone, PartialEq, Eq)]
pub enum FileError {
    /// The file could not be opened.
    CannotOpen(String),
    /// The file was read but does not hold the record that was asked for.
    InvalidContent(String),
}

/// The content of a configuration file.
#[derive(Debug, Clone, PartialEq, Eq)]
pub struct Config {
    pub url: String,
    pub api_key: Option<String>,
}

/// The options of one invocation.
#[derive(Debug)]
pub struct Opt {
    /// The URL of the service.
    pub url: Option<String>,
    /// The API key to present.
    pub api_key: Option<String>,
    /// What reading the configuration file gave, if one was named. It takes
    /// priority over `url` and `api_key`.
    pub config: Option<Result<Config, FileError>>,
    /// Whether records are shown as JSON rather than in readable form.
    pub json: bool,
    pub cmd: Command,
}

#[derive(Debug)]
pub enum Command {
    Project { project_command: ProjectCommand },
    Version { version_command: VersionCommand },
    User { user_command: UserCommand },
    Role { role_command: RoleCommand },
}

/// Operations on projects. In `Add` and `Update`, `file` is what reading the
/// file named with the operation gave; where it is there, the record is taken
/// from it and the other fields are ignored.
#[derive(Debug)]
#[allow(inconsistent_fields)]
pub enum ProjectCommand {
    Add {
        title: Option<String>,
        description: Option<String>,
        logo: Option<String>,
        file: Option<Result<post::Project, FileError>>,
    },
    Get { code: String },
    GetAll,
    Update {
        code: String,
        description: Option<String>,
        logo: Option<String>,
        file: Option<Result<patch::Project, FileError>>,
    },
    Remove { code: String },
}

/// Operations on the versions of the project `code`.
#[derive(Debug)]
#[allow(inconsistent_fields)]
pub enum VersionCommand {
    Add {
        code: String,
        version: Option<String>,
        url: Option<String>,
        file: Option<Result<post::Version, FileError>>,
    },
    Update { code: String, version: String, url: String },
    Remove { code: String, version: String },
}

/// Operations on users.
#[derive(Debug)]
#[allow(inconsistent_fields)]
pub enum UserCommand {
    Add {
        name: Option<String>,
        is_admin: Option<bool>,
        file: Option<Result<post::User, FileError>>,
    },
    Get { name: String },
    GetAll,
    Remove { name: String },
}

/// Operations on the roles of the user `user_name`.
#[derive(Debug)]
#[allow(inconsistent_fields)]
pub enum RoleCommand {
    Add {
        user_name: String,
        project_role: Vec<ProjectRole>,
        file: Option<Result<Vec<patch::ProjectRole>, FileError>>,
    },
    Remove {
        user_name: String,
        project_role: Vec<ProjectRole>,
        file: Option<Result<Vec<patch::ProjectRole>, FileError>>,
    },
    Get { user_name: String },
}

/// A role on a project as it is written on the command line, `role/code`.
#[derive(Debug, Clone, PartialEq, Eq)]
pub struct ProjectRole {
    pub role_name: String,
    pub project_code: String,
}

/// Whether the character at `at` is the only `/` in `token`.
pub open spec fn only_slash(token: Seq<char>, at: int) -> bool {
    &&& 0 <= at < token.len()
    &&& token[at] == '/'
    &&& forall|other: int| 0 <= other < token.len() && other != at ==> token[other] != '/'
}

/// The two parts of a token with exactly one `/`: what stands before it and
/// what stands after it. `None` for any other token.
pub open spec fn role_parts(token: Seq<char>) -> Option<(Seq<char>, Seq<char>)> {
    if exists|at: int| only_slash(token, at) {
        let at = choose|at: int| only_slash(token, at);
        Some((token.subrange(0, at), token.subrange(at + 1, token.len() as int)))
    } else {
        None
    }
}

/// Whether `result` is what parsing `token` gives: the role made of the two
/// parts of the token, or the message that quotes a token that has none.
pub open spec fn parsed(token: Seq<char>, result: Result<ProjectRole, String>) -> bool {
    match role_parts(token) {
        Some((role_name, project_code)) => result matches Ok(role) && role.role_name@
            == role_name && role.project_code@ == project_code,
        None => result matches Err(message) && message@ == "Invalid project role: "@ + token,
    }
}

impl ProjectRole {
    /// Parses `role/code`. A token with no `/`, or with more than one, is
    /// refused with a message that quotes it; either part may be empty.
    pub fn from_str(s: &str) -> (result: Result<ProjectRole, String>)
        ensures
            parsed(s@, result),
    {
        let len = s.unicode_len();
        let mut found: Option<usize> = None;
        let mut index: usize = 0;
        while index < len
            invariant
                len == s@.len(),
                index <= len,
                match found {
                    Some(at) => at < index && s@[at as int] == '/' && forall|other: int|
                        0 <= other < index && other != at ==> s@[other] != '/',
                    None => forall|other: int| 0 <= other < index ==> s@[other] != '/',
                },
            decreases len - index,
        {
            if s.get_char(index) == '/' {
                if found.is_some() {
                    return Err(Self::invalid(s));
                }
                found = Some(index);
            }
            index += 1;
        }
        match found {
            Some(at) => {
                assert(only_slash(s@, at as int));
                let role_name = s.substring_char(0, at).to_owned();
                let project_code = s.substring_char(at + 1, len).to_owned();
                Ok(ProjectRole { role_name, project_code })
            },
            None => Err(Self::invalid(s)),
        }
    }

    /// The message for a token that is no `role/code`.
    fn invalid(s: &str) -> (message: String)
        ensures
            message@ == "Invalid project role: "@ + s@,
    {
        let mut message = "Invalid project role: ".to_owned();
        message.append(s);
        message
    }
}

impl std::str::FromStr for ProjectRole {
    type Err = String;

    /// Parses `role/code`, as [`ProjectRole::from_str`] does.
    fn from_str(s: &str) -> (result: Result<ProjectRole, String>)
        ensures
            parsed(s@, result),
    {
        ProjectRole::from_str(s)
    }
}

} // verus!
