//! The command executor. For each operation it settles the record to send
//! and describes the request; the exchange that it hands out reads the
//! reply.
//!
//! An operation runs in two steps around the one network call, which the
//! caller makes. [`execute_command`] (or one method of [`CommandExecutor`])
//! gives the [`Exchange`] that holds the request; [`Exchange::conclude`]
//! takes the reply and gives what is shown, or the failure.

use crate::client::{ClientView, ListTheDocs, Payload, PayloadView, Request, RequestView};
use crate::command_line::{
    Command, Config, FileError, Opt, ProjectCommand, ProjectRole, RoleCommand, UserCommand,
    VersionCommand,
};
use crate::entities::{patch, post};
use crate::error::{viewed, Failure, FailureModel};
use crate::exchange::{Exchange, ExchangeView, Operation};
use crate::input::{
    from_file, loaded, new_project, new_user, new_version, project_patch, resolve_new_project,
    resolve_new_user, resolve_new_version, resolve_project_patch, resolve_roles, role_list,
};
use crate::text::{join2, join3, join4};
use vstd::prelude::*;

verus! {

/// The client that the options describe. A configuration file decides alone
/// where one was named: the flags are not consulted, not even for a key that
/// the file leaves out. Without a file the URL must be among the flags.
pub open spec fn client_for(
    url: Option<String>,
    api_key: Option<String>,
    config: Option<Result<Config, FileError>>,
) -> Result<ClientView, FailureModel> {
    match config {
        Some(file) => match loaded(file) {
            Ok(config) => Ok(
                ClientView { base_url: config.url@, api_key: config.api_key.deep_view() },
            ),
            Err(err) => Err(err),
        },
        None => match url {
            Some(url) => Ok(ClientView { base_url: url@, api_key: api_key.deep_view() }),
            None => Err(FailureModel::InputError("Missing compulsory url parameter"@)),
        },
    }
}

/// Makes the client that the options describe.
pub fn make_client(
    url: Option<String>,
    api_key: Option<String>,
    config: Option<Result<Config, FileError>>,
) -> (result: Result<ListTheDocs, Failure>)
    ensures
        viewed(result) == client_for(url, api_key, config),
{
    match config {
        Some(file) => {
            let config = from_file(file)?;
            Ok(ListTheDocs::new(config.url, config.api_key))
        },
        None => match url {
            Some(url) => Ok(ListTheDocs::new(url, api_key)),
            None => Err(Failure::input("Missing compulsory url parameter")),
        },
    }
}

/// The path of the project `code`.
pub open spec fn project_path(code: Seq<char>) -> Seq<char> {
    "/api/v2/projects/"@ + code
}

/// The path of the versions of the project `code`.
pub open spec fn versions_path(code: Seq<char>) -> Seq<char> {
    "/api/v2/projects/"@ + code + "/versions"@
}

/// The path of the version `version` of the project `code`.
pub open spec fn version_path(code: Seq<char>, version: Seq<char>) -> Seq<char> {
    "/api/v2/projects/"@ + code + "/versions/"@ + version
}

/// The path of the user `name`.
pub open spec fn user_path(name: Seq<char>) -> Seq<char> {
    "/api/v2/users/"@ + name
}

/// Runs the operations against one service.
#[derive(Debug, Clone, PartialEq, Eq)]
pub struct CommandExecutor {
    list_the_docs: ListTheDocs,
    json_output: bool,
}

/// A [`CommandExecutor`] with its client as a view.
pub struct ExecutorView {
    pub client: ClientView,
    pub json_output: bool,
}

impl View for CommandExecutor {
    type V = ExecutorView;

    closed spec fn view(&self) -> ExecutorView {
        ExecutorView { client: self.list_the_docs@, json_output: self.json_output }
    }
}

impl ExecutorView {
    /// The exchange for `operation` around `request`; the failure of the
    /// request where it could not be made.
    pub open spec fn exchange(
        self,
        request: Result<RequestView, FailureModel>,
        operation: Operation,
    ) -> Result<ExchangeView, FailureModel> {
        match request {
            Ok(request) => Ok(ExchangeView { request, operation, json_output: self.json_output }),
            Err(err) => Err(err),
        }
    }

    /// Adding a project: a creation under `/api/v2/projects`.
    pub open spec fn add_project(
        self,
        title: Option<String>,
        description: Option<String>,
        logo: Option<String>,
        file: Option<Result<post::Project, FileError>>,
    ) -> Result<ExchangeView, FailureModel> {
        match new_project(title, description, logo, file) {
            Ok(project) => self.exchange(
                self.client.post("/api/v2/projects"@, PayloadView::NewProject(project)),
                Operation::AddProject,
            ),
            Err(err) => Err(err),
        }
    }

    /// Getting a project: a fetch of its path, without the API key.
    pub open spec fn get_project(self, code: String) -> Result<ExchangeView, FailureModel> {
        self.exchange(self.client.get(project_path(code@), false), Operation::GetProject { code })
    }

    /// Getting all projects: a fetch of `/api/v2/projects`, without the API
    /// key.
    pub open spec fn get_all_projects(self) -> Result<ExchangeView, FailureModel> {
        self.exchange(self.client.get("/api/v2/projects"@, false), Operation::GetAllProjects)
    }

    /// Updating a project: a partial update of the path of the project that
    /// the record names.
    pub open spec fn update_project(
        self,
        code: String,
        description: Option<String>,
        logo: Option<String>,
        file: Option<Result<patch::Project, FileError>>,
    ) -> Result<ExchangeView, FailureModel> {
        match project_patch(code, description, logo, file) {
            Ok(project) => self.exchange(
                self.client.patch(project_path(project.code@), PayloadView::ProjectPatch(project)),
                Operation::UpdateProject { code: project.code },
            ),
            Err(err) => Err(err),
        }
    }

    /// Removing a project: a deletion of its path.
    pub open spec fn remove_project(self, code: String) -> Result<ExchangeView, FailureModel> {
        self.exchange(self.client.remove(project_path(code@)), Operation::RemoveProject { code })
    }

    /// Adding a version: a creation under the versions of the project.
    pub open spec fn add_version(
        self,
        code: String,
        version: Option<String>,
        url: Option<String>,
        file: Option<Result<post::Version, FileError>>,
    ) -> Result<ExchangeView, FailureModel> {
        match new_version(version, url, file) {
            Ok(version) => self.exchange(
                self.client.post(versions_path(code@), PayloadView::NewVersion(version)),
                Operation::AddVersion { code },
            ),
            Err(err) => Err(err),
        }
    }

    /// Updating a version: a partial update of its path with the new URL.
    pub open spec fn update_version(self, code: String, version: String, url: String) -> Result<
        ExchangeView,
        FailureModel,
    > {
        self.exchange(
            self.client.patch(
                version_path(code@, version@),
                PayloadView::VersionPatch(patch::Version { url }),
            ),
            Operation::UpdateVersion { code, version },
        )
    }

    /// Removing a version: a deletion of its path.
    pub open spec fn remove_version(self, code: String, version: String) -> Result<
        ExchangeView,
        FailureModel,
    > {
        self.exchange(
            self.client.remove(version_path(code@, version@)),
            Operation::RemoveVersion { code, version },
        )
    }

    /// Adding a user: a creation under `/api/v2/users`.
    pub open spec fn add_user(
        self,
        name: Option<String>,
        is_admin: Option<bool>,
        file: Option<Result<post::User, FileError>>,
    ) -> Result<ExchangeView, FailureModel> {
        match new_user(name, is_admin, file) {
            Ok(user) => self.exchange(
                self.client.post("/api/v2/users"@, PayloadView::NewUser(user)),
                Operation::AddUser,
            ),
            Err(err) => Err(err),
        }
    }

    /// Getting a user: a fetch of the user's path, with the API key.
    pub open spec fn get_user(self, name: String) -> Result<ExchangeView, FailureModel> {
        self.exchange(self.client.get(user_path(name@), true), Operation::GetUser { name })
    }

    /// Getting all users: a fetch of `/api/v2/users`, with the API key.
    pub open spec fn get_all_users(self) -> Result<ExchangeView, FailureModel> {
        self.exchange(self.client.get("/api/v2/users"@, true), Operation::GetAllUsers)
    }

    /// Removing a user: a deletion of the user's path.
    pub open spec fn remove_user(self, name: String) -> Result<ExchangeView, FailureModel> {
        self.exchange(self.client.remove(user_path(name@)), Operation::RemoveUser { name })
    }

    /// Granting roles: one request for the whole list.
    pub open spec fn add_roles(
        self,
        user_name: String,
        project_role: Vec<ProjectRole>,
        file: Option<Result<Vec<patch::ProjectRole>, FileError>>,
    ) -> Result<ExchangeView, FailureModel> {
        match role_list(project_role, file) {
            Ok(roles) => self.exchange(
                self.client.add_roles(user_name@, roles),
                Operation::AddRoles { user_name },
            ),
            Err(err) => Err(err),
        }
    }

    /// Revoking roles: one request for the whole list.
    pub open spec fn remove_roles(
        self,
        user_name: String,
        project_role: Vec<ProjectRole>,
        file: Option<Result<Vec<patch::ProjectRole>, FileError>>,
    ) -> Result<ExchangeView, FailureModel> {
        match role_list(project_role, file) {
            Ok(roles) => self.exchange(
                self.client.remove_roles(user_name@, roles),
                Operation::RemoveRoles { user_name },
            ),
            Err(err) => Err(err),
        }
    }

    /// Getting the roles of a user: a fetch of their path, with the API key.
    pub open spec fn get_roles(self, user_name: String) -> Result<ExchangeView, FailureModel> {
        self.exchange(
            self.client.get(ClientView::roles_path(user_name@), true),
            Operation::GetRoles { user_name },
        )
    }
}

impl CommandExecutor {
    /// An executor that talks to the service of `list_the_docs` and shows
    /// records as JSON where `json_output` is set.
    pub fn new(list_the_docs: ListTheDocs, json_output: bool) -> (executor: CommandExecutor)
        ensures
            executor@ == (ExecutorView { client: list_the_docs@, json_output }),
    {
        CommandExecutor { list_the_docs, json_output }
    }

    /// Wraps the request of `operation`.
    fn exchange(&self, request: Result<Request, Failure>, operation: Operation) -> (result: Result<
        Exchange,
        Failure,
    >)
        ensures
            viewed(result) == self@.exchange(viewed(request), operation),
    {
        match request {
            Ok(request) => Ok(Exchange { request, operation, json_output: self.json_output }),
            Err(err) => Err(err),
        }
    }

    /// Begins adding a project. The record is that of `file` where there is
    /// one, whatever the other arguments hold; otherwise it is made of the
    /// arguments, of which `title` and `description` are required.
    pub fn add_project(
        &self,
        title: Option<String>,
        description: Option<String>,
        logo: Option<String>,
        file: Option<Result<post::Project, FileError>>,
    ) -> (result: Result<Exchange, Failure>)
        ensures
            viewed(result) == self@.add_project(title, description, logo, file),
    {
        let project = resolve_new_project(title, description, logo, file)?;
        let request = self.list_the_docs.post("/api/v2/projects", Payload::NewProject(project));
        self.exchange(request, Operation::AddProject)
    }

    /// Begins getting the project `code`.
    pub fn get_project(&self, code: String) -> (result: Result<Exchange, Failure>)
        ensures
            viewed(result) == self@.get_project(code),
    {
        let endpoint_url = join2("/api/v2/projects/", code.as_str());
        let request = self.list_the_docs.get(endpoint_url.as_str(), false);
        self.exchange(request, Operation::GetProject { code })
    }

    /// Begins getting all projects.
    pub fn get_all_projects(&self) -> (result: Result<Exchange, Failure>)
        ensures
            viewed(result) == self@.get_all_projects(),
    {
        let request = self.list_the_docs.get("/api/v2/projects", false);
        self.exchange(request, Operation::GetAllProjects)
    }

    /// Begins updating a project. The record is that of `file` where there
    /// is one, whatever the other arguments hold, and the project updated is
    /// the one that the record names; otherwise the record is made of the
    /// arguments.
    pub fn update_project(
        &self,
        code: String,
        description: Option<String>,
        logo: Option<String>,
        file: Option<Result<patch::Project, FileError>>,
    ) -> (result: Result<Exchange, Failure>)
        ensures
            viewed(result) == self@.update_project(code, description, logo, file),
    {
        let project = resolve_project_patch(code, description, logo, file)?;
        let code = project.code.clone();
        let endpoint_url = join2("/api/v2/projects/", code.as_str());
        let request = self.list_the_docs.patch(
            endpoint_url.as_str(),
            Payload::ProjectPatch(project),
        );
        self.exchange(request, Operation::UpdateProject { code })
    }

    /// Begins removing the project `code`.
    pub fn remove_project(&self, code: String) -> (result: Result<Exchange, Failure>)
        ensures
            viewed(result) == self@.remove_project(code),
    {
        let endpoint_url = join2("/api/v2/projects/", code.as_str());
        let request = self.list_the_docs.remove(endpoint_url.as_str());
        self.exchange(request, Operation::RemoveProject { code })
    }

    /// Begins adding a version to the project `code`. The record is that of
    /// `file` where there is one, whatever the other arguments hold;
    /// otherwise it is made of the arguments, of which `version` and `url`
    /// are required.
    pub fn add_version(
        &self,
        code: String,
        version: Option<String>,
        url: Option<String>,
        file: Option<Result<post::Version, FileError>>,
    ) -> (result: Result<Exchange, Failure>)
        ensures
            viewed(result) == self@.add_version(code, version, url, file),
    {
        let version = resolve_new_version(version, url, file)?;
        let endpoint_url = join3("/api/v2/projects/", code.as_str(), "/versions");
        let request = self.list_the_docs.post(endpoint_url.as_str(), Payload::NewVersion(version));
        self.exchange(request, Operation::AddVersion { code })
    }

    /// Begins moving the version `version` of the project `code` to `url`.
    pub fn update_version(&self, code: String, version: String, url: String) -> (result: Result<
        Exchange,
        Failure,
    >)
        ensures
            viewed(result) == self@.update_version(code, version, url),
    {
        let endpoint_url = join4(
            "/api/v2/projects/",
            code.as_str(),
            "/versions/",
            version.as_str(),
        );
        let request = self.list_the_docs.patch(
            endpoint_url.as_str(),
            Payload::VersionPatch(patch::Version { url }),
        );
        self.exchange(request, Operation::UpdateVersion { code, version })
    }

    /// Begins removing the version `version` of the project `code`.
    pub fn remove_version(&self, code: String, version: String) -> (result: Result<
        Exchange,
        Failure,
    >)
        ensures
            viewed(result) == self@.remove_version(code, version),
    {
        let endpoint_url = join4(
            "/api/v2/projects/",
            code.as_str(),
            "/versions/",
            version.as_str(),
        );
        let request = self.list_the_docs.remove(endpoint_url.as_str());
        self.exchange(request, Operation::RemoveVersion { code, version })
    }

    /// Begins adding a user. The record is that of `file` where there is
    /// one, whatever the other arguments hold; otherwise it is made of the
    /// arguments, of which `name` is required.
    pub fn add_user(
        &self,
        name: Option<String>,
        is_admin: Option<bool>,
        file: Option<Result<post::User, FileError>>,
    ) -> (result: Result<Exchange, Failure>)
        ensures
            viewed(result) == self@.add_user(name, is_admin, file),
    {
        let user = resolve_new_user(name, is_admin, file)?;
        let request = self.list_the_docs.post("/api/v2/users", Payload::NewUser(user));
        self.exchange(request, Operation::AddUser)
    }

    /// Begins getting the user `name`.
    pub fn get_user(&self, name: String) -> (result: Result<Exchange, Failure>)
        ensures
            viewed(result) == self@.get_user(name),
    {
        let endpoint_url = join2("/api/v2/users/", name.as_str());
        let request = self.list_the_docs.get(endpoint_url.as_str(), true);
        self.exchange(request, Operation::GetUser { name })
    }

    /// Begins getting all users.
    pub fn get_all_users(&self) -> (result: Result<Exchange, Failure>)
        ensures
            viewed(result) == self@.get_all_users(),
    {
        let request = self.list_the_docs.get("/api/v2/users", true);
        self.exchange(request, Operation::GetAllUsers)
    }

    /// Begins removing the user `name`.
    pub fn remove_user(&self, name: String) -> (result: Result<Exchange, Failure>)
        ensures
            viewed(result) == self@.remove_user(name),
    {
        let endpoint_url = join2("/api/v2/users/", name.as_str());
        let request = self.list_the_docs.remove(endpoint_url.as_str());
        self.exchange(request, Operation::RemoveUser { name })
    }

    /// Begins granting roles to the user `user_name`. The list is that of
    /// `file` where there is one, whatever `project_role` holds; otherwise
    /// it is `project_role`. Either way the whole list travels in one
    /// request.
    pub fn add_roles(
        &self,
        user_name: String,
        project_role: Vec<ProjectRole>,
        file: Option<Result<Vec<patch::ProjectRole>, FileError>>,
    ) -> (result: Result<Exchange, Failure>)
        ensures
            viewed(result) == self@.add_roles(user_name, project_role, file),
    {
        let roles = resolve_roles(project_role, file)?;
        let request = self.list_the_docs.add_roles(user_name.as_str(), roles);
        self.exchange(request, Operation::AddRoles { user_name })
    }

    /// Begins revoking roles from the user `user_name`. The list is that of
    /// `file` where there is one, whatever `project_role` holds; otherwise
    /// it is `project_role`. Either way the whole list travels in one
    /// request.
    pub fn remove_roles(
        &self,
        user_name: String,
        project_role: Vec<ProjectRole>,
        file: Option<Result<Vec<patch::ProjectRole>, FileError>>,
    ) -> (result: Result<Exchange, Failure>)
        ensures
            viewed(result) == self@.remove_roles(user_name, project_role, file),
    {
        let roles = resolve_roles(project_role, file)?;
        let request = self.list_the_docs.remove_roles(user_name.as_str(), roles);
        self.exchange(request, Operation::RemoveRoles { user_name })
    }

    /// Begins getting the roles of the user `user_name`.
    pub fn get_roles(&self, user_name: String) -> (result: Result<Exchange, Failure>)
        ensures
            viewed(result) == self@.get_roles(user_name),
    {
        let endpoint_url = join3("/api/v2/users/", user_name.as_str(), "/roles");
        let request = self.list_the_docs.get(endpoint_url.as_str(), true);
        self.exchange(request, Operation::GetRoles { user_name })
    }
}

/// What the invocation described by `opt` begins with: the exchange of the
/// one operation it names, made by the client that the options describe, or
/// the failure that ends it before anything is sent.
pub open spec fn execution(opt: Opt) -> Result<ExchangeView, FailureModel> {
    match client_for(opt.url, opt.api_key, opt.config) {
        Err(err) => Err(err),
        Ok(client) => {
            let executor = ExecutorView { client, json_output: opt.json };
            match opt.cmd {
                Command::Project { project_command } => match project_command {
                    ProjectCommand::Add { title, description, logo, file } => executor.add_project(
                        title,
                        description,
                        logo,
                        file,
                    ),
                    ProjectCommand::Get { code } => executor.get_project(code),
                    ProjectCommand::GetAll => executor.get_all_projects(),
                    ProjectCommand::Update {
                        code,
                        description,
                        logo,
                        file,
                    } => executor.update_project(code, description, logo, file),
                    ProjectCommand::Remove { code } => executor.remove_project(code),
                },
                Command::Version { version_command } => match version_command {
                    VersionCommand::Add { code, version, url, file } => executor.add_version(
                        code,
                        version,
                        url,
                        file,
                    ),
                    VersionCommand::Update { code, version, url } => executor.update_version(
                        code,
                        version,
                        url,
                    ),
                    VersionCommand::Remove { code, version } => executor.remove_version(
                        code,
                        version,
                    ),
                },
                Command::User { user_command } => match user_command {
                    UserCommand::Add { name, is_admin, file } => executor.add_user(
                        name,
                        is_admin,
                        file,
                    ),
                    UserCommand::Get { name } => executor.get_user(name),
                    UserCommand::GetAll => executor.get_all_users(),
                    UserCommand::Remove { name } => executor.remove_user(name),
                },
                Command::Role { role_command } => match role_command {
                    RoleCommand::Add { user_name, project_role, file } => executor.add_roles(
                        user_name,
                        project_role,
                        file,
                    ),
                    RoleCommand::Remove { user_name, project_role, file } => executor.remove_roles(
                        user_name,
                        project_role,
                        file,
                    ),
                    RoleCommand::Get { user_name } => executor.get_roles(user_name),
                },
            }
        },
    }
}

/// Begins the operation that `opt` names. The exchange that comes back holds
/// the one request to send; [`Exchange::conclude`] ends the operation with
/// the reply.
pub fn execute_command(opt: Opt) -> (result: Result<Exchange, Failure>)
    ensures
        viewed(result) == execution(opt),
{
    let list_the_docs = make_client(opt.url, opt.api_key, opt.config)?;
    let executor = CommandExecutor::new(list_the_docs, opt.json);
    match opt.cmd {
        Command::Project { project_command } => match project_command {
            ProjectCommand::Add { title, description, logo, file } => executor.add_project(
                title,
                description,
                logo,
                file,
            ),
            ProjectCommand::Get { code } => executor.get_project(code),
            ProjectCommand::GetAll => executor.get_all_projects(),
            ProjectCommand::Update { code, description, logo, file } => executor.update_project(
                code,
                description,
                logo,
                file,
            ),
            ProjectCommand::Remove { code } => executor.remove_project(code),
        },
        Command::Version { version_command } => match version_command {
            VersionCommand::Add { code, version, url, file } => executor.add_version(
                code,
                version,
                url,
                file,
            ),
            VersionCommand::Update { code, version, url } => executor.update_version(
                code,
                version,
                url,
            ),
            VersionCommand::Remove { code, version } => executor.remove_version(code, version),
        },
        Command::User { user_command } => match user_command {
            UserCommand::Add { name, is_admin, file } => executor.add_user(name, is_admin, file),
            UserCommand::Get { name } => executor.get_user(name),
            UserCommand::GetAll => executor.get_all_users(),
            UserCommand::Remove { name } => executor.remove_user(name),
        },
        Command::Role { role_command } => match role_command {
            RoleCommand::Add { user_name, project_role, file } => executor.add_roles(
                user_name,
                project_role,
                file,
            ),
            RoleCommand::Remove { user_name, project_role, file } => executor.remove_roles(
                user_name,
                project_role,
                file,
            ),
            RoleCommand::Get { user_name } => executor.get_roles(user_name),
        },
    }
}

} // verus!
