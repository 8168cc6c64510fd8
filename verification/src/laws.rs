//! Properties of the client that hold for every input, stated over the same
//! functions as the contracts and proved from their definitions.

use crate::client::{
    complaint, quoted, refusal, ClientView, Method, PayloadView, Response, Status,
};
use crate::command_executor::{client_for, execution, project_path, ExecutorView};
use crate::command_line::{Command, Config, FileError, Opt, ProjectCommand, ProjectRole};
use crate::entities::{get, patch, post};
use crate::error::FailureModel;
use crate::exchange::{no_project, shown, ExchangeView, Operation, OutputView, Record};
use crate::input::as_grant;
use vstd::prelude::*;

verus! {

/// Whether `part` stands in `text` from position `at` on.
pub open spec fn occurs_at(text: Seq<char>, part: Seq<char>, at: int) -> bool {
    0 <= at && at + part.len() <= text.len() && text.subrange(at, at + part.len()) == part
}

/// Whether `part` occurs in `text`.
pub open spec fn contains(text: Seq<char>, part: Seq<char>) -> bool {
    exists|at: int| #[trigger] occurs_at(text, part, at)
}

/// Whatever an invocation asks for, the request that it begins with is the
/// one that its operation makes.
pub proof fn every_exchange_is_well_formed(opt: Opt)
    ensures
        execution(opt) matches Ok(exchange) ==> exchange.well_formed(),
{
}

/// Whether the invocation reads projects, which is all that the service
/// lets a client do without a key.
pub open spec fn reads_projects(cmd: Command) -> bool {
    cmd matches Command::Project { project_command } && (project_command is Get
        || project_command is GetAll)
}

/// Without an API key, an invocation that does anything but read projects
/// ends before a request is made.
pub proof fn without_a_key_nothing_else_is_sent(opt: Opt)
    requires
        client_for(opt.url, opt.api_key, opt.config) matches Ok(client) && client.api_key is None,
        !reads_projects(opt.cmd),
    ensures
        execution(opt) is Err,
{
}

/// The replies that an operation accepts are those that it has an answer
/// to.
pub proof fn accepted_replies_are_answered(
    exchange: ExchangeView,
    response: Response,
    record: Option<Result<Record, minreq::Error>>,
)
    ensures
        exchange.accepts(response, record) <==> exchange.answer(response, record) is Some,
{
}

/// A project that was created can be fetched under the code that the service
/// gave it: the creation sends the title, the description and the logo as
/// they were given, the fetch asks for the path of that code, and where the
/// service answers both with the same record, both operations show the same.
pub proof fn created_project_is_fetched(
    executor: ExecutorView,
    title: String,
    description: String,
    logo: Option<String>,
    created: Response,
    fetched: Response,
    project: get::Project,
)
    requires
        executor.client.api_key is Some,
        created.status_code == 201,
        fetched.status_code == 200,
    ensures
        ({
            &&& executor.add_project(Some(title), Some(description), logo, None) matches Ok(add)
            &&& executor.get_project(project.code) matches Ok(get)
            &&& add.request.method == Method::Post
            &&& add.request.url == executor.client.base_url + "/api/v2/projects"@
            &&& add.request.body == Some(
                PayloadView::NewProject(post::Project { title, description, logo }),
            )
            &&& get.request.method == Method::Get
            &&& get.request.url == executor.client.base_url + project_path(project.code@)
            &&& add.answer(created, Some(Ok(Record::Project(project)))) == Some(
                Ok::<OutputView, FailureModel>(
                    shown(Record::Project(project), executor.json_output),
                ),
            )
            &&& get.answer(fetched, Some(Ok(Record::Project(project)))) == add.answer(
                created,
                Some(Ok(Record::Project(project))),
            )
        }),
{
}

/// Removing a project or a user succeeds whether the service still had it
/// (200) or not (404), so a removal can be repeated: the result is the name
/// that was to be removed, both times.
pub proof fn removal_can_be_repeated(
    exchange: ExchangeView,
    response: Response,
    record: Option<Result<Record, minreq::Error>>,
)
    requires
        exchange.operation is RemoveProject || exchange.operation is RemoveUser,
        response.status_code == 200 || response.status_code == 404,
    ensures
        exchange.operation matches Operation::RemoveProject { code } ==> exchange.answer(
            response,
            record,
        ) == Some(Ok::<OutputView, FailureModel>(OutputView::Text(code@))),
        exchange.operation matches Operation::RemoveUser { name } ==> exchange.answer(
            response,
            record,
        ) == Some(Ok::<OutputView, FailureModel>(OutputView::Text(name@))),
{
}

/// Removing a version that the service does not have (404) fails, however
/// often it is tried: with an input error that quotes the response, or as
/// the transport does where the response is no text.
pub proof fn missing_version_is_not_removed(
    exchange: ExchangeView,
    response: Response,
    record: Option<Result<Record, minreq::Error>>,
)
    requires
        exchange.operation is RemoveVersion,
        response.status_code == 404,
    ensures
        exchange.answer(response, record) == Some(
            Err::<OutputView, FailureModel>(refusal(Status::Absent, response.text, None)),
        ),
        response.text matches Ok(text) ==> exchange.answer(response, record) == Some(
            Err::<OutputView, FailureModel>(
                FailureModel::InputError("Not found -- Response: "@ + text@),
            ),
        ),
{
}

/// The note about a project that does not exist holds the words "not found".
pub proof fn note_says_not_found(code: Seq<char>)
    ensures
        contains(no_project(code), "not found"@),
{
    reveal_strlit("' not found");
    reveal_strlit("not found");
    let note = no_project(code);
    let at = note.len() - 9;
    assert(occurs_at(note, "not found"@, at)) by {
        assert(note.subrange(at, at + 9) =~= "not found"@);
    }
}

/// A project that does not exist (404) is no failure for a fetch, which
/// succeeds with a note that says "not found", and is one for an update,
/// which ends in an input error.
pub proof fn missing_project_is_told_apart(
    exchange: ExchangeView,
    response: Response,
    record: Option<Result<Record, minreq::Error>>,
)
    requires
        response.status_code == 404,
    ensures
        exchange.operation matches Operation::GetProject { code } ==> exchange.answer(
            response,
            record,
        ) == Some(Ok::<OutputView, FailureModel>(OutputView::Text(no_project(code@)))),
        exchange.operation matches Operation::GetProject { code } ==> contains(
            no_project(code@),
            "not found"@,
        ),
        exchange.operation matches Operation::UpdateProject { code } ==> exchange.answer(
            response,
            record,
        ) == Some(Err::<OutputView, FailureModel>(FailureModel::InputError(no_project(code@)))),
{
    if let Operation::GetProject { code } = exchange.operation {
        note_says_not_found(code@);
    }
}

/// Where a file is given to "add project", the request carries the record of
/// the file and nothing of the flags: the exchange is the one that the file
/// alone would give.
pub proof fn file_decides_new_project(
    executor: ExecutorView,
    title: Option<String>,
    description: Option<String>,
    logo: Option<String>,
    file: Result<post::Project, FileError>,
)
    ensures
        executor.add_project(title, description, logo, Some(file)) == executor.add_project(
            None,
            None,
            None,
            Some(file),
        ),
        file matches Ok(project) ==> (executor.client.api_key is Some ==> ({
            &&& executor.add_project(title, description, logo, Some(file)) matches Ok(exchange)
            &&& exchange.request.body == Some(PayloadView::NewProject(project))
        })),
        file is Err ==> executor.add_project(title, description, logo, Some(file)) is Err,
{
}

/// Where a file is given to any other operation that takes one, the flags
/// do not count either: the exchange is the one that the file alone would
/// give. For an update this includes the project that is addressed.
pub proof fn file_decides_everywhere(
    executor: ExecutorView,
    code: String,
    other_code: String,
    user_name: String,
    first: Option<String>,
    second: Option<String>,
    is_admin: Option<bool>,
    project_role: Vec<ProjectRole>,
    no_role: Vec<ProjectRole>,
    project: Result<patch::Project, FileError>,
    version: Result<post::Version, FileError>,
    user: Result<post::User, FileError>,
    roles: Result<Vec<patch::ProjectRole>, FileError>,
)
    ensures
        executor.update_project(code, first, second, Some(project)) == executor.update_project(
            other_code,
            None,
            None,
            Some(project),
        ),
        executor.add_version(code, first, second, Some(version)) == executor.add_version(
            code,
            None,
            None,
            Some(version),
        ),
        executor.add_user(first, is_admin, Some(user)) == executor.add_user(
            None,
            None,
            Some(user),
        ),
        executor.add_roles(user_name, project_role, Some(roles)) == executor.add_roles(
            user_name,
            no_role,
            Some(roles),
        ),
        executor.remove_roles(user_name, project_role, Some(roles)) == executor.remove_roles(
            user_name,
            no_role,
            Some(roles),
        ),
{
}

/// Where a configuration file is given, the client is the one that the file
/// describes, whatever the flags hold.
pub proof fn config_file_decides(
    url: Option<String>,
    api_key: Option<String>,
    config: Result<Config, FileError>,
)
    ensures
        client_for(url, api_key, Some(config)) == client_for(None, None, Some(config)),
        config matches Ok(file) ==> client_for(url, api_key, Some(config)) == Ok::<
            ClientView,
            FailureModel,
        >(ClientView { base_url: file.url@, api_key: file.api_key.deep_view() }),
{
}

/// A project whose title collides with an existing code (409) is refused
/// with an input error that begins with "Conflict" and quotes the response
/// and the request; only a response that is no text makes it fail as the
/// transport does.
pub proof fn conflict_is_an_input_error(
    exchange: ExchangeView,
    response: Response,
    record: Option<Result<Record, minreq::Error>>,
)
    requires
        exchange.operation is AddProject,
        response.status_code == 409,
    ensures
        exchange.answer(response, record) == Some(
            Err::<OutputView, FailureModel>(
                refusal(Status::Conflict, response.text, quoted(exchange.request.body)),
            ),
        ),
        response.text matches Ok(text) ==> ({
            &&& exchange.answer(response, record) matches Some(
                Err(FailureModel::InputError(message)),
            )
            &&& message == complaint(Status::Conflict, text@, quoted(exchange.request.body))
            &&& "Conflict"@.is_prefix_of(message)
        }),
{
    if let Ok(text) = response.text {
        reveal_strlit("Conflict");
        reveal_strlit("Conflict -- Response: ");
        let message = complaint(Status::Conflict, text@, quoted(exchange.request.body));
        assert(message.subrange(0, 8) =~= "Conflict"@);
    }
}

/// The roles given on the command line travel in one request, all of them
/// and in their order, for a grant as for a revocation.
pub proof fn roles_travel_together(
    executor: ExecutorView,
    user_name: String,
    project_role: Vec<ProjectRole>,
)
    requires
        executor.client.api_key is Some,
    ensures
        ({
            &&& executor.add_roles(user_name, project_role, None) matches Ok(grant)
            &&& executor.remove_roles(user_name, project_role, None) matches Ok(revocation)
            &&& grant.request.method == Method::Patch
            &&& revocation.request.method == Method::Delete
            &&& grant.request.url == executor.client.base_url + ClientView::roles_path(
                user_name@,
            )
            &&& revocation.request.url == grant.request.url
            &&& revocation.request.body == grant.request.body
            &&& grant.request.body matches Some(PayloadView::Roles(roles))
            &&& roles.len() == project_role@.len()
            &&& forall|at: int|
                0 <= at < roles.len() ==> #[trigger] roles[at] == as_grant(project_role@[at])
        }),
{
}

} // verus!
