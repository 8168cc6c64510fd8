//! One operation under way, and how its reply is read.
//!
//! An [`Exchange`] holds the request that an operation makes and what is
//! needed to read the reply. [`Exchange::conclude`] turns the reply into
//! what is shown to the user, or into the failure that is reported.

use crate::client::{
    expected, success, Method, PayloadView, Request, RequestView, Response, Status,
};
use crate::entities::get;
use crate::error::{viewed, Failure, FailureModel};
use crate::text::{join3, join4};
use vstd::prelude::*;

verus! {

/// A record that the service returned.
#[derive(Debug, Clone, PartialEq, Eq)]
pub enum Record {
    Project(get::Project),
    Projects(Vec<get::Project>),
    User(get::User),
    Users(Vec<get::User>),
    Roles(Vec<get::Role>),
}

/// Which record an operation returns, and so what the body of the response
/// is to be decoded as.
#[derive(Debug, Clone, Copy, PartialEq, Eq, Structural)]
pub enum RecordKind {
    Project,
    Projects,
    User,
    Users,
    Roles,
}

impl Record {
    /// Which record this is.
    pub open spec fn spec_kind(&self) -> RecordKind {
        match *self {
            Record::Project(_) => RecordKind::Project,
            Record::Projects(_) => RecordKind::Projects,
            Record::User(_) => RecordKind::User,
            Record::Users(_) => RecordKind::Users,
            Record::Roles(_) => RecordKind::Roles,
        }
    }

    /// Which record this is.
    #[verifier::when_used_as_spec(spec_kind)]
    pub fn kind(&self) -> (kind: RecordKind)
        ensures
            kind == self.spec_kind(),
    {
        match self {
            Record::Project(_) => RecordKind::Project,
            Record::Projects(_) => RecordKind::Projects,
            Record::User(_) => RecordKind::User,
            Record::Users(_) => RecordKind::Users,
            Record::Roles(_) => RecordKind::Roles,
        }
    }
}

/// What a successful operation shows.
#[derive(Debug, Clone, PartialEq, Eq)]
pub enum Output {
    /// A line of text: a name that was removed, or the note that something
    /// was not found.
    Text(String),
    /// A record, to be shown as JSON.
    Json(Record),
    /// A record, to be shown in readable form.
    Pretty(Record),
}

/// An [`Output`] with its text as a sequence of characters.
pub enum OutputView {
    Text(Seq<char>),
    Json(Record),
    Pretty(Record),
}

impl View for Output {
    type V = OutputView;

    open spec fn view(&self) -> OutputView {
        match *self {
            Output::Text(text) => OutputView::Text(text@),
            Output::Json(record) => OutputView::Json(record),
            Output::Pretty(record) => OutputView::Pretty(record),
        }
    }
}

/// How `record` is shown: as JSON where `json_output` is set, in readable
/// form otherwise.
pub open spec fn shown(record: Record, json_output: bool) -> OutputView {
    if json_output {
        OutputView::Json(record)
    } else {
        OutputView::Pretty(record)
    }
}

/// Chooses how `record` is shown.
pub fn to_output(record: Record, json_output: bool) -> (output: Output)
    ensures
        output@ == shown(record, json_output),
{
    if json_output {
        Output::Json(record)
    } else {
        Output::Pretty(record)
    }
}

/// The operation that a request was made for, with the names that its result
/// refers to.
#[derive(Debug, Clone, PartialEq, Eq)]
pub enum Operation {
    AddProject,
    GetProject { code: String },
    GetAllProjects,
    UpdateProject { code: String },
    RemoveProject { code: String },
    AddVersion { code: String },
    UpdateVersion { code: String, version: String },
    RemoveVersion { code: String, version: String },
    AddUser,
    GetUser { name: String },
    GetAllUsers,
    RemoveUser { name: String },
    AddRoles { user_name: String },
    RemoveRoles { user_name: String },
    GetRoles { user_name: String },
}

impl Operation {
    /// The HTTP method of the request that the operation makes.
    pub open spec fn spec_method(&self) -> Method {
        match *self {
            Operation::AddProject | Operation::AddVersion { .. } | Operation::AddUser => {
                Method::Post
            },
            Operation::GetProject { .. }
            | Operation::GetAllProjects
            | Operation::GetUser { .. }
            | Operation::GetAllUsers
            | Operation::GetRoles { .. } => Method::Get,
            Operation::UpdateProject { .. }
            | Operation::UpdateVersion { .. }
            | Operation::AddRoles { .. } => Method::Patch,
            Operation::RemoveProject { .. }
            | Operation::RemoveVersion { .. }
            | Operation::RemoveUser { .. }
            | Operation::RemoveRoles { .. } => Method::Delete,
        }
    }

    /// The HTTP method of the request that the operation makes.
    #[verifier::when_used_as_spec(spec_method)]
    pub fn method(&self) -> (method: Method)
        ensures
            method == self.spec_method(),
    {
        match self {
            Operation::AddProject | Operation::AddVersion { .. } | Operation::AddUser => {
                Method::Post
            },
            Operation::GetProject { .. }
            | Operation::GetAllProjects
            | Operation::GetUser { .. }
            | Operation::GetAllUsers
            | Operation::GetRoles { .. } => Method::Get,
            Operation::UpdateProject { .. }
            | Operation::UpdateVersion { .. }
            | Operation::AddRoles { .. } => Method::Patch,
            Operation::RemoveProject { .. }
            | Operation::RemoveVersion { .. }
            | Operation::RemoveUser { .. }
            | Operation::RemoveRoles { .. } => Method::Delete,
        }
    }

    /// Whether the operation names a resource that may not exist. Adding a
    /// project or a user and getting all of them name none, so that a 404
    /// is no answer to them.
    pub open spec fn may_be_absent(&self) -> bool {
        match *self {
            Operation::AddProject
            | Operation::AddUser
            | Operation::GetAllProjects
            | Operation::GetAllUsers => false,
            _ => true,
        }
    }

    /// The record that the operation returns; `None` for a removal and for a
    /// change of roles, which return none.
    pub open spec fn spec_expects(&self) -> Option<RecordKind> {
        match *self {
            Operation::AddProject => Some(RecordKind::Project),
            Operation::GetProject { .. } => Some(RecordKind::Project),
            Operation::GetAllProjects => Some(RecordKind::Projects),
            Operation::UpdateProject { .. } => Some(RecordKind::Project),
            Operation::RemoveProject { .. } => None,
            Operation::AddVersion { .. } => Some(RecordKind::Project),
            Operation::UpdateVersion { .. } => Some(RecordKind::Project),
            Operation::RemoveVersion { .. } => None,
            Operation::AddUser => Some(RecordKind::User),
            Operation::GetUser { .. } => Some(RecordKind::User),
            Operation::GetAllUsers => Some(RecordKind::Users),
            Operation::RemoveUser { .. } => None,
            Operation::AddRoles { .. } => None,
            Operation::RemoveRoles { .. } => None,
            Operation::GetRoles { .. } => Some(RecordKind::Roles),
        }
    }

    /// The record that the operation returns: what the body of a successful
    /// response is to be decoded as. `None` where there is nothing to decode.
    #[verifier::when_used_as_spec(spec_expects)]
    pub fn expects(&self) -> (kind: Option<RecordKind>)
        ensures
            kind == self.spec_expects(),
    {
        match self {
            Operation::AddProject => Some(RecordKind::Project),
            Operation::GetProject { .. } => Some(RecordKind::Project),
            Operation::GetAllProjects => Some(RecordKind::Projects),
            Operation::UpdateProject { .. } => Some(RecordKind::Project),
            Operation::RemoveProject { .. } => None,
            Operation::AddVersion { .. } => Some(RecordKind::Project),
            Operation::UpdateVersion { .. } => Some(RecordKind::Project),
            Operation::RemoveVersion { .. } => None,
            Operation::AddUser => Some(RecordKind::User),
            Operation::GetUser { .. } => Some(RecordKind::User),
            Operation::GetAllUsers => Some(RecordKind::Users),
            Operation::RemoveUser { .. } => None,
            Operation::AddRoles { .. } => None,
            Operation::RemoveRoles { .. } => None,
            Operation::GetRoles { .. } => Some(RecordKind::Roles),
        }
    }
}

/// One operation under way: the request to send, and what is needed to read
/// the reply.
#[derive(Debug, Clone, PartialEq, Eq)]
pub struct Exchange {
    pub request: Request,
    pub operation: Operation,
    /// Whether a record that comes back is shown as JSON.
    pub json_output: bool,
}

/// An [`Exchange`] with its request as a view.
pub struct ExchangeView {
    pub request: RequestView,
    pub operation: Operation,
    pub json_output: bool,
}

impl View for Exchange {
    type V = ExchangeView;

    open spec fn view(&self) -> ExchangeView {
        ExchangeView {
            request: self.request@,
            operation: self.operation,
            json_output: self.json_output,
        }
    }
}

/// The note that the project `code` does not exist.
pub open spec fn no_project(code: Seq<char>) -> Seq<char> {
    "Project with code '"@ + code + "' not found"@
}

/// The note that the project `code`, or its version `version`, does not
/// exist.
pub open spec fn no_version(code: Seq<char>, version: Seq<char>) -> Seq<char> {
    "Project with code '"@ + code + "' or version '"@ + version + "' not found"@
}

/// The note that the user `name` does not exist.
pub open spec fn no_user(name: Seq<char>) -> Seq<char> {
    "User with name '"@ + name + "' not found"@
}

/// The decoded body, where it is a record of kind `kind` or a failure to
/// decode; `None` where nothing was decoded or something else was.
pub open spec fn of_kind(
    record: Option<Result<Record, minreq::Error>>,
    kind: Option<RecordKind>,
) -> Option<Result<Record, minreq::Error>> {
    match (record, kind) {
        (Some(Ok(found)), Some(kind)) => if found.kind() == kind {
            record
        } else {
            None
        },
        (Some(Err(_)), Some(_)) => record,
        _ => None,
    }
}

/// What an operation that returns a record ends in: the record as it is
/// shown, `absent` where there is no such resource, or the failure.
pub open spec fn found(
    outcome: Option<Result<Option<Record>, FailureModel>>,
    json_output: bool,
    absent: Option<Result<OutputView, FailureModel>>,
) -> Option<Result<OutputView, FailureModel>> {
    match outcome {
        Some(Ok(Some(record))) => Some(Ok(shown(record, json_output))),
        Some(Ok(None)) => absent,
        Some(Err(err)) => Some(Err(err)),
        None => None,
    }
}

/// What a removal ends in: the name that was removed, or the failure.
pub open spec fn removed(outcome: Option<Result<(), FailureModel>>, name: Seq<char>) -> Option<
    Result<OutputView, FailureModel>,
> {
    match outcome {
        Some(Ok(())) => Some(Ok(OutputView::Text(name))),
        Some(Err(err)) => Some(Err(err)),
        None => None,
    }
}

/// What a change of the roles of `user_name` ends in: an empty line, an
/// input error where the user does not exist, or the failure.
pub open spec fn changed(
    outcome: Option<Result<Option<()>, FailureModel>>,
    user_name: Seq<char>,
) -> Option<Result<OutputView, FailureModel>> {
    match outcome {
        Some(Ok(Some(()))) => Some(Ok(OutputView::Text(""@))),
        Some(Ok(None)) => Some(Err(FailureModel::InputError(no_user(user_name)))),
        Some(Err(err)) => Some(Err(err)),
        None => None,
    }
}

impl ExchangeView {
    /// Whether the request is the one that the operation makes: it has the
    /// method of the operation and carries the kind of record that the
    /// operation sends, or none where it sends none.
    pub open spec fn well_formed(self) -> bool {
        &&& self.request.method == self.operation.method()
        &&& match self.operation {
            Operation::AddProject => self.request.body matches Some(PayloadView::NewProject(_)),
            Operation::UpdateProject { code } => self.request.body matches Some(
                PayloadView::ProjectPatch(project),
            ) && project.code == code,
            Operation::AddVersion { .. } => self.request.body matches Some(
                PayloadView::NewVersion(_),
            ),
            Operation::UpdateVersion { .. } => self.request.body matches Some(
                PayloadView::VersionPatch(_),
            ),
            Operation::AddUser => self.request.body matches Some(PayloadView::NewUser(_)),
            Operation::AddRoles { .. } | Operation::RemoveRoles { .. } => self.request.body
                matches Some(PayloadView::Roles(_)),
            _ => self.request.body is None,
        }
    }

    /// What the body of a response with status `status` is to be decoded
    /// as: the record that the operation returns where the status is that
    /// of success, and nothing otherwise.
    pub open spec fn decodes(self, status: Status) -> Option<RecordKind> {
        if status == success(self.operation.method()) {
            self.operation.expects()
        } else {
            None
        }
    }

    /// Whether `response`, with its body decoded as `record`, is a reply that
    /// the operation can get: the status is one that its request can end in,
    /// it is no 404 where nothing can be missing, and where the body is to
    /// be decoded, `record` is the record it holds or the failure to decode
    /// it.
    pub open spec fn accepts(
        self,
        response: Response,
        record: Option<Result<Record, minreq::Error>>,
    ) -> bool {
        &&& expected(response.status(), self.operation.method())
        &&& response.status() == Status::Absent ==> self.operation.may_be_absent()
        &&& self.decodes(response.status()) matches Some(kind) ==> of_kind(record, Some(kind))
            is Some
    }

    /// What the operation ends in, given the response and the body decoded
    /// as `record`.
    ///
    /// A resource that does not exist is reported in three ways. Getting one
    /// project, one user or the roles of a user succeeds with a note. Updating
    /// a project, adding or updating a version, and changing roles fail with
    /// an input error that names what is missing. Removing a project or a
    /// user succeeds, as there is nothing left to remove; removing a version
    /// fails. Adding a project or a user and getting all of them have no
    /// resource that could be missing.
    ///
    /// The result is `None` where the reply is none that the operation can
    /// get, that is where [`ExchangeView::accepts`] does not hold.
    pub open spec fn answer(
        self,
        response: Response,
        record: Option<Result<Record, minreq::Error>>,
    ) -> Option<Result<OutputView, FailureModel>> {
        let json = of_kind(record, self.operation.expects());
        match self.operation {
            Operation::AddProject => found(
                response.post_outcome(json, self.request),
                self.json_output,
                None,
            ),
            Operation::GetProject { code } => found(
                response.get_outcome(json),
                self.json_output,
                Some(Ok(OutputView::Text(no_project(code@)))),
            ),
            Operation::GetAllProjects => found(response.get_outcome(json), self.json_output, None),
            Operation::UpdateProject { code } => found(
                response.patch_outcome(json, self.request),
                self.json_output,
                Some(Err(FailureModel::InputError(no_project(code@)))),
            ),
            Operation::RemoveProject { code } => removed(response.remove_outcome(false), code@),
            Operation::AddVersion { code } => found(
                response.post_outcome(json, self.request),
                self.json_output,
                Some(Err(FailureModel::InputError(no_project(code@)))),
            ),
            Operation::UpdateVersion { code, version } => found(
                response.patch_outcome(json, self.request),
                self.json_output,
                Some(Err(FailureModel::InputError(no_version(code@, version@)))),
            ),
            Operation::RemoveVersion { code, version } => removed(
                response.remove_outcome(true),
                version@,
            ),
            Operation::AddUser => found(
                response.post_outcome(json, self.request),
                self.json_output,
                None,
            ),
            Operation::GetUser { name } => found(
                response.get_outcome(json),
                self.json_output,
                Some(Ok(OutputView::Text(no_user(name@)))),
            ),
            Operation::GetAllUsers => found(response.get_outcome(json), self.json_output, None),
            Operation::RemoveUser { name } => removed(response.remove_outcome(false), name@),
            Operation::AddRoles { user_name } => changed(
                response.roles_outcome(Method::Patch, self.request),
                user_name@,
            ),
            Operation::RemoveRoles { user_name } => changed(
                response.roles_outcome(Method::Delete, self.request),
                user_name@,
            ),
            Operation::GetRoles { user_name } => found(
                response.get_outcome(json),
                self.json_output,
                Some(Ok(OutputView::Text(no_user(user_name@)))),
            ),
        }
    }
}

/// Keeps the decoded body where it is of kind `kind`.
fn keep_kind(record: Option<Result<Record, minreq::Error>>, kind: Option<RecordKind>) -> (json:
    Option<Result<Record, minreq::Error>>)
    ensures
        json == of_kind(record, kind),
{
    match kind {
        Some(kind) => match record {
            Some(Ok(found)) => if found.kind() == kind {
                Some(Ok(found))
            } else {
                None
            },
            Some(Err(err)) => Some(Err(err)),
            None => None,
        },
        None => None,
    }
}

/// Writes the note that the project `code` does not exist.
fn project_not_found(code: &str) -> (note: String)
    ensures
        note@ == no_project(code@),
{
    join3("Project with code '", code, "' not found")
}

/// Writes the note that the user `name` does not exist.
fn user_not_found(name: &str) -> (note: String)
    ensures
        note@ == no_user(name@),
{
    join3("User with name '", name, "' not found")
}

/// Writes the note that the project `code`, or its version `version`, does
/// not exist.
fn version_not_found(code: &str, version: &str) -> (note: String)
    ensures
        note@ == no_version(code@, version@),
{
    let mut note = join4("Project with code '", code, "' or version '", version);
    note.append("' not found");
    note
}

impl Exchange {
    /// Tells what the body of a response with the status code `status_code`
    /// is to be decoded as before [`Exchange::conclude`] is called: the
    /// record that the operation returns where the call succeeded, and
    /// nothing otherwise.
    pub fn decodes(&self, status_code: i32) -> (kind: Option<RecordKind>)
        ensures
            kind == self@.decodes(crate::client::status_of(status_code as int)),
    {
        match crate::client::classify(status_code) {
            Status::Success => match self.operation.method() {
                Method::Post => None,
                _ => self.operation.expects(),
            },
            Status::Created => match self.operation.method() {
                Method::Post => self.operation.expects(),
                _ => None,
            },
            _ => None,
        }
    }

    /// Tells whether `response`, with its body decoded as `record`, is a
    /// reply that the operation can get, so that [`Exchange::conclude`] can
    /// be called on it. A reply for which this is false shows that the
    /// service and this client no longer agree.
    pub fn accepts(
        &self,
        response: &Response,
        record: &Option<Result<Record, minreq::Error>>,
    ) -> (yes: bool)
        ensures
            yes == self@.accepts(*response, *record),
    {
        if !crate::client::is_expected(response.status_code, self.operation.method()) {
            return false;
        }
        if let Status::Absent = crate::client::classify(response.status_code) {
            return match &self.operation {
                Operation::AddProject
                | Operation::AddUser
                | Operation::GetAllProjects
                | Operation::GetAllUsers => false,
                _ => true,
            };
        }
        match self.decodes(response.status_code) {
            Some(kind) => match record {
                Some(Ok(found)) => found.kind() == kind,
                Some(Err(_)) => true,
                None => false,
            },
            None => true,
        }
    }

    /// Ends the operation: reads `response`, the reply to the request of
    /// this exchange, and gives what is shown to the user. `record` is the
    /// body of the response decoded as the record that
    /// [`Exchange::decodes`] names; it is looked at on success only.
    pub fn conclude(
        self,
        response: Response,
        record: Option<Result<Record, minreq::Error>>,
    ) -> (result: Result<Output, Failure>)
        requires
            self@.accepts(response, record),
        ensures
            Some(viewed(result)) == self@.answer(response, record),
    {
        let Exchange { request, operation, json_output } = self;
        let json = keep_kind(record, operation.expects());
        match operation {
            Operation::AddProject | Operation::AddUser => {
                match response.for_post(json, &request)? {
                    Some(record) => Ok(to_output(record, json_output)),
                    None => unreached(),
                }
            },
            Operation::GetAllProjects | Operation::GetAllUsers => {
                match response.for_get(json)? {
                    Some(record) => Ok(to_output(record, json_output)),
                    None => unreached(),
                }
            },
            Operation::GetProject { code } => match response.for_get(json)? {
                Some(record) => Ok(to_output(record, json_output)),
                None => Ok(Output::Text(project_not_found(code.as_str()))),
            },
            Operation::GetUser { name } => match response.for_get(json)? {
                Some(record) => Ok(to_output(record, json_output)),
                None => Ok(Output::Text(user_not_found(name.as_str()))),
            },
            Operation::GetRoles { user_name } => match response.for_get(json)? {
                Some(record) => Ok(to_output(record, json_output)),
                None => Ok(Output::Text(user_not_found(user_name.as_str()))),
            },
            Operation::UpdateProject { code } => match response.for_patch(json, &request)? {
                Some(record) => Ok(to_output(record, json_output)),
                None => Err(Failure::InputError(project_not_found(code.as_str()))),
            },
            Operation::AddVersion { code } => match response.for_post(json, &request)? {
                Some(record) => Ok(to_output(record, json_output)),
                None => Err(Failure::InputError(project_not_found(code.as_str()))),
            },
            Operation::UpdateVersion { code, version } => {
                match response.for_patch(json, &request)? {
                    Some(record) => Ok(to_output(record, json_output)),
                    None => Err(
                        Failure::InputError(version_not_found(code.as_str(), version.as_str())),
                    ),
                }
            },
            Operation::RemoveProject { code } => {
                response.for_remove(false)?;
                Ok(Output::Text(code))
            },
            Operation::RemoveUser { name } => {
                response.for_remove(false)?;
                Ok(Output::Text(name))
            },
            Operation::RemoveVersion { code, version } => {
                response.for_remove(true)?;
                Ok(Output::Text(version))
            },
            Operation::AddRoles { user_name } => match response.for_add_roles(&request)? {
                Some(_) => Ok(Output::Text("".to_owned())),
                None => Err(Failure::InputError(user_not_found(user_name.as_str()))),
            },
            Operation::RemoveRoles { user_name } => match response.for_remove_roles(&request)? {
                Some(_) => Ok(Output::Text("".to_owned())),
                None => Err(Failure::InputError(user_not_found(user_name.as_str()))),
            },
        }
    }
}

} // verus!
