use listthedocs::client::{ListTheDocs, Method, Payload, Request, Response};
use listthedocs::command_executor::{make_client, CommandExecutor};
use listthedocs::exchange::{to_output, Exchange, Operation, Output, Record, RecordKind};
use listthedocs::input::{
    from_file, resolve_new_project, resolve_new_user, resolve_new_version, resolve_project_patch,
    resolve_roles,
};
use listthedocs::command_line::{
    Command, Config, FileError, Opt, ProjectCommand, ProjectRole, RoleCommand, UserCommand,
    VersionCommand,
};
use listthedocs::entities::{get, patch, post};
use listthedocs::{execute_command, Failure};

const URL: &str = "http://localhost:5000";
const API_KEY: &str = "ROOT-API-KEY";

fn text(value: &str) -> Option<String> {
    Some(value.to_owned())
}

fn executor(json_output: bool) -> CommandExecutor {
    CommandExecutor::new(
        ListTheDocs::new(URL.to_owned(), Some(API_KEY.to_owned())),
        json_output,
    )
}

fn keyless() -> CommandExecutor {
    CommandExecutor::new(ListTheDocs::new(URL.to_owned(), None), true)
}

fn keyed(method: Method, path: &str, body: Option<Payload>) -> Request {
    Request {
        method,
        url: format!("{}{}", URL, path),
        api_key: Some(API_KEY.to_owned()),
        body,
    }
}

fn response(status_code: i32, text: &str) -> Response {
    Response {
        status_code,
        text: Ok(text.to_owned()),
    }
}

fn input_error<T: std::fmt::Debug>(result: Result<T, Failure>) -> String {
    match result {
        Err(Failure::InputError(message)) => message,
        other => panic!("expected an input error, got {:?}", other),
    }
}

fn project() -> get::Project {
    get::Project {
        title: "test-project".to_owned(),
        code: "test-project".to_owned(),
        description: "testing project".to_owned(),
        logo: None,
        versions: vec![],
    }
}

fn user() -> get::User {
    get::User {
        name: "test-user".to_owned(),
        is_admin: true,
        created_at: "2020-01-01".to_owned(),
        api_keys: vec![get::ApiKey {
            created_at: "2020-01-01".to_owned(),
            is_valid: true,
            key: "garbage".to_owned(),
        }],
        roles: vec![get::Role {
            role_name: "admin".to_owned(),
            project_code: "proj1".to_owned(),
        }],
    }
}

fn new_project_from_file() -> post::Project {
    post::Project {
        title: "from file".to_owned(),
        description: "the file's description".to_owned(),
        logo: text("file.png"),
    }
}

fn cli_roles() -> Vec<ProjectRole> {
    vec![
        ProjectRole {
            role_name: "admin".to_owned(),
            project_code: "proj1".to_owned(),
        },
        ProjectRole {
            role_name: "editor".to_owned(),
            project_code: "proj2".to_owned(),
        },
    ]
}

fn grants() -> Vec<patch::ProjectRole> {
    vec![
        patch::ProjectRole {
            role_name: "admin".to_owned(),
            project_code: "proj1".to_owned(),
        },
        patch::ProjectRole {
            role_name: "editor".to_owned(),
            project_code: "proj2".to_owned(),
        },
    ]
}

fn conclude(
    exchange: Exchange,
    response: Response,
    record: Option<Result<Record, minreq::Error>>,
) -> Result<Output, Failure> {
    assert!(exchange.accepts(&response, &record));
    exchange.conclude(response, record)
}

fn opt(cmd: Command) -> Opt {
    Opt {
        url: text(URL),
        api_key: text(API_KEY),
        config: None,
        json: true,
        cmd,
    }
}

// ---- where the record comes from ----

#[test]
fn a_file_is_taken_as_it_is() {
    assert_eq!(from_file(Ok(5u8)).unwrap(), 5);
    assert_eq!(
        from_file(Ok(new_project_from_file())).unwrap(),
        new_project_from_file()
    );
}

#[test]
fn a_file_that_cannot_be_opened_is_an_input_error() {
    let file: Result<u8, FileError> =
        Err(FileError::CannotOpen("No such file or directory (os error 2)".to_owned()));
    assert_eq!(
        input_error(from_file(file)),
        "Cannot open file: No such file or directory (os error 2)"
    );
}

#[test]
fn a_file_with_other_content_is_an_input_error() {
    let file: Result<u8, FileError> = Err(FileError::InvalidContent(
        "missing field `title` at line 1 column 2".to_owned(),
    ));
    assert_eq!(
        input_error(from_file(file)),
        "Invalid file content: missing field `title` at line 1 column 2"
    );
}

#[test]
fn a_new_project_is_made_of_the_flags() {
    assert_eq!(
        resolve_new_project(text("test"), text("desc"), None, None).unwrap(),
        post::Project {
            title: "test".to_owned(),
            description: "desc".to_owned(),
            logo: None,
        }
    );
    assert_eq!(
        resolve_new_project(text("test"), text("desc"), text("logo.png"), None).unwrap(),
        post::Project {
            title: "test".to_owned(),
            description: "desc".to_owned(),
            logo: text("logo.png"),
        }
    );
}

#[test]
fn a_new_project_needs_title_and_description() {
    assert_eq!(
        input_error(resolve_new_project(None, text("desc"), None, None)),
        "Missing compulsory 'title' field"
    );
    assert_eq!(
        input_error(resolve_new_project(text("test"), None, None, None)),
        "Missing compulsory 'description' field"
    );
    assert_eq!(
        input_error(resolve_new_project(None, None, text("logo"), None)),
        "Missing compulsory 'title' field"
    );
}

#[test]
fn a_file_overrides_the_flags_of_a_new_project() {
    assert_eq!(
        resolve_new_project(
            text("flag title"),
            text("flag description"),
            text("flag.png"),
            Some(Ok(new_project_from_file()))
        )
        .unwrap(),
        new_project_from_file()
    );
    let bare = post::Project {
        title: "t".to_owned(),
        description: "d".to_owned(),
        logo: None,
    };
    assert_eq!(
        resolve_new_project(None, None, text("flag.png"), Some(Ok(bare.clone()))).unwrap(),
        bare
    );
}

#[test]
fn a_failed_file_is_not_replaced_by_the_flags() {
    assert_eq!(
        input_error(resolve_new_project(
            text("test"),
            text("desc"),
            None,
            Some(Err(FileError::CannotOpen("denied".to_owned())))
        )),
        "Cannot open file: denied"
    );
    assert_eq!(
        input_error(resolve_new_user(
            text("u"),
            None,
            Some(Err(FileError::InvalidContent("EOF".to_owned())))
        )),
        "Invalid file content: EOF"
    );
}

#[test]
fn a_project_patch_is_made_of_the_flags_or_the_file() {
    assert_eq!(
        resolve_project_patch("c".to_owned(), None, text("mylogo"), None).unwrap(),
        patch::Project {
            code: "c".to_owned(),
            description: None,
            logo: text("mylogo"),
        }
    );
    let file = patch::Project {
        code: "other".to_owned(),
        description: text("from file"),
        logo: None,
    };
    assert_eq!(
        resolve_project_patch("c".to_owned(), text("d"), text("l"), Some(Ok(file.clone())))
            .unwrap(),
        file
    );
}

#[test]
fn a_new_version_needs_name_and_url() {
    assert_eq!(
        resolve_new_version(text("1.0.0"), text("http://example.com"), None).unwrap(),
        post::Version {
            name: "1.0.0".to_owned(),
            url: "http://example.com".to_owned(),
        }
    );
    assert_eq!(
        input_error(resolve_new_version(None, text("http://example.com"), None)),
        "Missing compulsory 'version' field"
    );
    assert_eq!(
        input_error(resolve_new_version(text("1.0.0"), None, None)),
        "Missing compulsory 'url' field"
    );
    assert_eq!(
        input_error(resolve_new_version(None, None, None)),
        "Missing compulsory 'version' field"
    );
    let file = post::Version {
        name: "2.0".to_owned(),
        url: "http://file".to_owned(),
    };
    assert_eq!(
        resolve_new_version(None, None, Some(Ok(file.clone()))).unwrap(),
        file
    );
}

#[test]
fn a_new_user_needs_a_name() {
    assert_eq!(
        resolve_new_user(text("test-user"), None, None).unwrap(),
        post::User {
            name: "test-user".to_owned(),
            is_admin: None,
        }
    );
    assert_eq!(
        resolve_new_user(text("test-user"), Some(false), None).unwrap(),
        post::User {
            name: "test-user".to_owned(),
            is_admin: Some(false),
        }
    );
    assert_eq!(
        input_error(resolve_new_user(None, Some(true), None)),
        "Missing compulsory 'name' field"
    );
    let file = post::User {
        name: "file-user".to_owned(),
        is_admin: Some(true),
    };
    assert_eq!(
        resolve_new_user(text("flag-user"), Some(false), Some(Ok(file.clone()))).unwrap(),
        file
    );
}

#[test]
fn roles_keep_their_order_and_number() {
    assert_eq!(resolve_roles(cli_roles(), None).unwrap(), grants());
    assert_eq!(resolve_roles(Vec::new(), None).unwrap(), Vec::new());
    let twice = vec![cli_roles()[0].clone(), cli_roles()[0].clone()];
    assert_eq!(
        resolve_roles(twice, None).unwrap(),
        vec![grants()[0].clone(), grants()[0].clone()]
    );
}

#[test]
fn a_file_overrides_the_roles_of_the_command_line() {
    let file = vec![patch::ProjectRole {
        role_name: "viewer".to_owned(),
        project_code: "proj3".to_owned(),
    }];
    assert_eq!(
        resolve_roles(cli_roles(), Some(Ok(file.clone()))).unwrap(),
        file
    );
    assert_eq!(
        resolve_roles(cli_roles(), Some(Ok(Vec::new()))).unwrap(),
        Vec::new()
    );
}

// ---- the client of an invocation ----

#[test]
fn the_client_is_made_of_the_flags() {
    assert_eq!(
        make_client(text(URL), text(API_KEY), None).unwrap(),
        ListTheDocs::new(URL.to_owned(), text(API_KEY))
    );
    assert_eq!(
        make_client(text(URL), None, None).unwrap(),
        ListTheDocs::new(URL.to_owned(), None)
    );
}

#[test]
fn the_client_needs_a_url() {
    assert_eq!(
        input_error(make_client(None, text(API_KEY), None)),
        "Missing compulsory url parameter"
    );
}

#[test]
fn a_configuration_file_overrides_the_flags() {
    let config = Config {
        url: "http://configured".to_owned(),
        api_key: None,
    };
    assert_eq!(
        make_client(text(URL), text(API_KEY), Some(Ok(config))).unwrap(),
        ListTheDocs::new("http://configured".to_owned(), None)
    );
    let config = Config {
        url: "http://configured".to_owned(),
        api_key: text("file-key"),
    };
    assert_eq!(
        make_client(None, None, Some(Ok(config))).unwrap(),
        ListTheDocs::new("http://configured".to_owned(), text("file-key"))
    );
}

#[test]
fn a_failed_configuration_file_ends_the_invocation() {
    assert_eq!(
        input_error(make_client(
            text(URL),
            text(API_KEY),
            Some(Err(FileError::CannotOpen("gone".to_owned())))
        )),
        "Cannot open file: gone"
    );
    assert_eq!(
        input_error(make_client(
            text(URL),
            None,
            Some(Err(FileError::InvalidContent("expected value".to_owned())))
        )),
        "Invalid file content: expected value"
    );
}

// ---- the request of each operation ----

#[test]
fn add_project_posts_the_record() {
    let exchange = executor(true)
        .add_project(text("test"), text("desc"), None, None)
        .unwrap();
    assert_eq!(
        exchange,
        Exchange {
            request: keyed(
                Method::Post,
                "/api/v2/projects",
                Some(Payload::NewProject(post::Project {
                    title: "test".to_owned(),
                    description: "desc".to_owned(),
                    logo: None,
                }))
            ),
            operation: Operation::AddProject,
            json_output: true,
        }
    );
}

#[test]
fn add_project_sends_the_file_and_not_the_flags() {
    let exchange = executor(false)
        .add_project(
            text("flag title"),
            text("flag description"),
            text("flag.png"),
            Some(Ok(new_project_from_file())),
        )
        .unwrap();
    assert_eq!(
        exchange.request.body,
        Some(Payload::NewProject(new_project_from_file()))
    );
    assert!(!exchange.json_output);
}

#[test]
fn add_project_fails_before_the_key_is_looked_at() {
    assert_eq!(
        input_error(keyless().add_project(None, text("desc"), None, None)),
        "Missing compulsory 'title' field"
    );
    assert_eq!(
        input_error(keyless().add_project(text("t"), text("desc"), None, None)),
        "API key is required and was not provided"
    );
}

#[test]
fn get_project_needs_no_key() {
    let exchange = keyless().get_project("test-project".to_owned()).unwrap();
    assert_eq!(
        exchange,
        Exchange {
            request: Request {
                method: Method::Get,
                url: "http://localhost:5000/api/v2/projects/test-project".to_owned(),
                api_key: None,
                body: None,
            },
            operation: Operation::GetProject {
                code: "test-project".to_owned()
            },
            json_output: true,
        }
    );
    let exchange = executor(true).get_project("x".to_owned()).unwrap();
    assert_eq!(exchange.request.api_key, None);
}

#[test]
fn get_all_projects_needs_no_key() {
    let exchange = keyless().get_all_projects().unwrap();
    assert_eq!(exchange.request.method, Method::Get);
    assert_eq!(exchange.request.url, "http://localhost:5000/api/v2/projects");
    assert_eq!(exchange.request.api_key, None);
    assert_eq!(exchange.request.body, None);
    assert_eq!(exchange.operation, Operation::GetAllProjects);
}

#[test]
fn update_project_patches_the_project() {
    let exchange = executor(true)
        .update_project("test-project".to_owned(), None, text("mylogo"), None)
        .unwrap();
    assert_eq!(
        exchange,
        Exchange {
            request: keyed(
                Method::Patch,
                "/api/v2/projects/test-project",
                Some(Payload::ProjectPatch(patch::Project {
                    code: "test-project".to_owned(),
                    description: None,
                    logo: text("mylogo"),
                }))
            ),
            operation: Operation::UpdateProject {
                code: "test-project".to_owned()
            },
            json_output: true,
        }
    );
}

#[test]
fn update_project_addresses_the_project_of_the_file() {
    let file = patch::Project {
        code: "from-file".to_owned(),
        description: text("new"),
        logo: None,
    };
    let exchange = executor(true)
        .update_project(
            "from-flag".to_owned(),
            text("ignored"),
            text("ignored"),
            Some(Ok(file.clone())),
        )
        .unwrap();
    assert_eq!(
        exchange.request.url,
        "http://localhost:5000/api/v2/projects/from-file"
    );
    assert_eq!(exchange.request.body, Some(Payload::ProjectPatch(file)));
    assert_eq!(
        exchange.operation,
        Operation::UpdateProject {
            code: "from-file".to_owned()
        }
    );
}

#[test]
fn remove_project_deletes_the_project() {
    let exchange = executor(true)
        .remove_project("test-project".to_owned())
        .unwrap();
    assert_eq!(
        exchange,
        Exchange {
            request: keyed(Method::Delete, "/api/v2/projects/test-project", None),
            operation: Operation::RemoveProject {
                code: "test-project".to_owned()
            },
            json_output: true,
        }
    );
}

#[test]
fn add_version_posts_under_the_project() {
    let exchange = executor(true)
        .add_version(
            "test-version".to_owned(),
            text("1.0.0"),
            text("http://example.com"),
            None,
        )
        .unwrap();
    assert_eq!(
        exchange,
        Exchange {
            request: keyed(
                Method::Post,
                "/api/v2/projects/test-version/versions",
                Some(Payload::NewVersion(post::Version {
                    name: "1.0.0".to_owned(),
                    url: "http://example.com".to_owned(),
                }))
            ),
            operation: Operation::AddVersion {
                code: "test-version".to_owned()
            },
            json_output: true,
        }
    );
    assert_eq!(
        input_error(executor(true).add_version("c".to_owned(), None, text("u"), None)),
        "Missing compulsory 'version' field"
    );
}

#[test]
fn update_version_patches_the_version_with_the_url() {
    let exchange = executor(true)
        .update_version(
            "test-version".to_owned(),
            "1.0.0".to_owned(),
            "http://updated.com".to_owned(),
        )
        .unwrap();
    assert_eq!(
        exchange,
        Exchange {
            request: keyed(
                Method::Patch,
                "/api/v2/projects/test-version/versions/1.0.0",
                Some(Payload::VersionPatch(patch::Version {
                    url: "http://updated.com".to_owned(),
                }))
            ),
            operation: Operation::UpdateVersion {
                code: "test-version".to_owned(),
                version: "1.0.0".to_owned()
            },
            json_output: true,
        }
    );
}

#[test]
fn remove_version_deletes_the_version() {
    let exchange = executor(true)
        .remove_version("test-version".to_owned(), "1.0.0".to_owned())
        .unwrap();
    assert_eq!(
        exchange,
        Exchange {
            request: keyed(
                Method::Delete,
                "/api/v2/projects/test-version/versions/1.0.0",
                None
            ),
            operation: Operation::RemoveVersion {
                code: "test-version".to_owned(),
                version: "1.0.0".to_owned()
            },
            json_output: true,
        }
    );
}

#[test]
fn add_user_posts_the_record() {
    let exchange = executor(true)
        .add_user(text("test-user"), Some(true), None)
        .unwrap();
    assert_eq!(
        exchange,
        Exchange {
            request: keyed(
                Method::Post,
                "/api/v2/users",
                Some(Payload::NewUser(post::User {
                    name: "test-user".to_owned(),
                    is_admin: Some(true),
                }))
            ),
            operation: Operation::AddUser,
            json_output: true,
        }
    );
    assert_eq!(
        input_error(executor(true).add_user(None, None, None)),
        "Missing compulsory 'name' field"
    );
}

#[test]
fn get_user_needs_the_key() {
    let exchange = executor(true).get_user("test-user".to_owned()).unwrap();
    assert_eq!(
        exchange,
        Exchange {
            request: keyed(Method::Get, "/api/v2/users/test-user", None),
            operation: Operation::GetUser {
                name: "test-user".to_owned()
            },
            json_output: true,
        }
    );
    assert_eq!(
        input_error(keyless().get_user("test-user".to_owned())),
        "API key is required and was not provided"
    );
}

#[test]
fn get_all_users_needs_the_key() {
    let exchange = executor(true).get_all_users().unwrap();
    assert_eq!(
        exchange,
        Exchange {
            request: keyed(Method::Get, "/api/v2/users", None),
            operation: Operation::GetAllUsers,
            json_output: true,
        }
    );
    assert_eq!(
        input_error(keyless().get_all_users()),
        "API key is required and was not provided"
    );
}

#[test]
fn remove_user_deletes_the_user() {
    let exchange = executor(true).remove_user("test-user".to_owned()).unwrap();
    assert_eq!(
        exchange,
        Exchange {
            request: keyed(Method::Delete, "/api/v2/users/test-user", None),
            operation: Operation::RemoveUser {
                name: "test-user".to_owned()
            },
            json_output: true,
        }
    );
}

#[test]
fn add_roles_sends_one_request_with_both_pairs() {
    let roles = vec![
        ProjectRole::from_str("admin/proj1").unwrap(),
        ProjectRole::from_str("editor/proj2").unwrap(),
    ];
    let exchange = executor(true).add_roles("u".to_owned(), roles, None).unwrap();
    assert_eq!(
        exchange,
        Exchange {
            request: keyed(
                Method::Patch,
                "/api/v2/users/u/roles",
                Some(Payload::Roles(grants()))
            ),
            operation: Operation::AddRoles {
                user_name: "u".to_owned()
            },
            json_output: true,
        }
    );
}

#[test]
fn remove_roles_sends_one_request_with_both_pairs() {
    let exchange = executor(true)
        .remove_roles("u".to_owned(), cli_roles(), None)
        .unwrap();
    assert_eq!(
        exchange,
        Exchange {
            request: keyed(
                Method::Delete,
                "/api/v2/users/u/roles",
                Some(Payload::Roles(grants()))
            ),
            operation: Operation::RemoveRoles {
                user_name: "u".to_owned()
            },
            json_output: true,
        }
    );
}

#[test]
fn role_changes_send_the_file_and_not_the_command_line() {
    let file = vec![patch::ProjectRole {
        role_name: "viewer".to_owned(),
        project_code: "proj3".to_owned(),
    }];
    let exchange = executor(true)
        .add_roles("u".to_owned(), cli_roles(), Some(Ok(file.clone())))
        .unwrap();
    assert_eq!(exchange.request.body, Some(Payload::Roles(file.clone())));
    let exchange = executor(true)
        .remove_roles("u".to_owned(), cli_roles(), Some(Ok(file.clone())))
        .unwrap();
    assert_eq!(exchange.request.body, Some(Payload::Roles(file)));
    assert_eq!(
        input_error(executor(true).add_roles(
            "u".to_owned(),
            cli_roles(),
            Some(Err(FileError::CannotOpen("x".to_owned())))
        )),
        "Cannot open file: x"
    );
}

#[test]
fn get_roles_needs_the_key() {
    let exchange = executor(false).get_roles("u".to_owned()).unwrap();
    assert_eq!(
        exchange,
        Exchange {
            request: keyed(Method::Get, "/api/v2/users/u/roles", None),
            operation: Operation::GetRoles {
                user_name: "u".to_owned()
            },
            json_output: false,
        }
    );
    assert_eq!(
        input_error(keyless().get_roles("u".to_owned())),
        "API key is required and was not provided"
    );
}

// ---- what each operation expects back ----

#[test]
fn operations_name_the_record_they_return() {
    assert_eq!(Operation::AddProject.expects(), Some(RecordKind::Project));
    assert_eq!(
        Operation::GetAllProjects.expects(),
        Some(RecordKind::Projects)
    );
    assert_eq!(
        Operation::AddVersion {
            code: "c".to_owned()
        }
        .expects(),
        Some(RecordKind::Project)
    );
    assert_eq!(Operation::AddUser.expects(), Some(RecordKind::User));
    assert_eq!(Operation::GetAllUsers.expects(), Some(RecordKind::Users));
    assert_eq!(
        Operation::GetRoles {
            user_name: "u".to_owned()
        }
        .expects(),
        Some(RecordKind::Roles)
    );
    assert_eq!(
        Operation::RemoveProject {
            code: "c".to_owned()
        }
        .expects(),
        None
    );
    assert_eq!(
        Operation::AddRoles {
            user_name: "u".to_owned()
        }
        .expects(),
        None
    );
    assert_eq!(Record::Project(project()).kind(), RecordKind::Project);
    assert_eq!(Record::Projects(vec![]).kind(), RecordKind::Projects);
    assert_eq!(Record::User(user()).kind(), RecordKind::User);
    assert_eq!(Record::Users(vec![]).kind(), RecordKind::Users);
    assert_eq!(Record::Roles(vec![]).kind(), RecordKind::Roles);
}

#[test]
fn operations_name_the_method_of_their_request() {
    let code = || "c".to_owned();
    assert_eq!(Operation::AddProject.method(), Method::Post);
    assert_eq!(Operation::AddVersion { code: code() }.method(), Method::Post);
    assert_eq!(Operation::AddUser.method(), Method::Post);
    assert_eq!(Operation::GetProject { code: code() }.method(), Method::Get);
    assert_eq!(Operation::GetAllProjects.method(), Method::Get);
    assert_eq!(Operation::GetUser { name: code() }.method(), Method::Get);
    assert_eq!(Operation::GetAllUsers.method(), Method::Get);
    assert_eq!(
        Operation::GetRoles { user_name: code() }.method(),
        Method::Get
    );
    assert_eq!(
        Operation::UpdateProject { code: code() }.method(),
        Method::Patch
    );
    assert_eq!(
        Operation::UpdateVersion {
            code: code(),
            version: code()
        }
        .method(),
        Method::Patch
    );
    assert_eq!(
        Operation::AddRoles { user_name: code() }.method(),
        Method::Patch
    );
    assert_eq!(
        Operation::RemoveProject { code: code() }.method(),
        Method::Delete
    );
    assert_eq!(
        Operation::RemoveVersion {
            code: code(),
            version: code()
        }
        .method(),
        Method::Delete
    );
    assert_eq!(
        Operation::RemoveUser { name: code() }.method(),
        Method::Delete
    );
    assert_eq!(
        Operation::RemoveRoles { user_name: code() }.method(),
        Method::Delete
    );
}

#[test]
fn a_record_is_shown_as_the_flag_says() {
    assert_eq!(
        to_output(Record::Project(project()), true),
        Output::Json(Record::Project(project()))
    );
    assert_eq!(
        to_output(Record::Project(project()), false),
        Output::Pretty(Record::Project(project()))
    );
}

#[test]
fn replies_outside_the_protocol_are_not_accepted() {
    let add = executor(true)
        .add_project(text("t"), text("d"), None, None)
        .unwrap();
    let created = Some(Ok(Record::Project(project())));
    assert!(add.accepts(&response(201, ""), &created));
    assert!(!add.accepts(&response(200, ""), &created));
    assert!(!add.accepts(&response(404, ""), &None));
    assert!(!add.accepts(&response(418, ""), &None));
    assert!(!add.accepts(&response(201, ""), &None));
    assert!(!add.accepts(&response(201, ""), &Some(Ok(Record::User(user())))));
    assert!(add.accepts(
        &response(201, ""),
        &Some(Err(minreq::Error::Other("undecodable")))
    ));
    assert!(add.accepts(&response(409, ""), &None));

    let all = executor(true).get_all_users().unwrap();
    assert!(all.accepts(&response(200, ""), &Some(Ok(Record::Users(vec![])))));
    assert!(!all.accepts(&response(200, ""), &Some(Ok(Record::Projects(vec![])))));
    assert!(!all.accepts(&response(404, ""), &None));
    assert!(!all.accepts(&response(201, ""), &Some(Ok(Record::Users(vec![])))));

    let get = executor(true).get_project("c".to_owned()).unwrap();
    assert!(get.accepts(&response(404, ""), &None));
    assert!(get.accepts(&response(200, ""), &created));
    assert!(!get.accepts(&response(200, ""), &None));
    assert!(!get.accepts(&response(302, ""), &None));

    let remove = executor(true).remove_user("u".to_owned()).unwrap();
    assert!(remove.accepts(&response(200, ""), &None));
    assert!(remove.accepts(&response(404, ""), &None));
    assert!(remove.accepts(&response(200, ""), &created));
    assert!(!remove.accepts(&response(201, ""), &None));
    assert!(!remove.accepts(&response(204, ""), &None));

    let grant = executor(true)
        .add_roles("u".to_owned(), cli_roles(), None)
        .unwrap();
    assert!(grant.accepts(&response(200, ""), &None));
    assert!(grant.accepts(&response(404, ""), &None));
    assert!(!grant.accepts(&response(201, ""), &None));
    assert!(!grant.accepts(&response(600, ""), &None));
}

#[test]
fn the_body_is_decoded_on_success_only() {
    let add = executor(true)
        .add_project(text("t"), text("d"), None, None)
        .unwrap();
    assert_eq!(add.decodes(201), Some(RecordKind::Project));
    assert_eq!(add.decodes(200), None);
    assert_eq!(add.decodes(404), None);
    assert_eq!(add.decodes(409), None);
    assert_eq!(add.decodes(500), None);

    let all = executor(true).get_all_users().unwrap();
    assert_eq!(all.decodes(200), Some(RecordKind::Users));
    assert_eq!(all.decodes(201), None);
    assert_eq!(all.decodes(401), None);

    let roles = executor(true).get_roles("u".to_owned()).unwrap();
    assert_eq!(roles.decodes(200), Some(RecordKind::Roles));
    assert_eq!(roles.decodes(404), None);

    let update = executor(true)
        .update_version("c".to_owned(), "1".to_owned(), "u".to_owned())
        .unwrap();
    assert_eq!(update.decodes(200), Some(RecordKind::Project));
    assert_eq!(update.decodes(201), None);

    let remove = executor(true).remove_project("c".to_owned()).unwrap();
    assert_eq!(remove.decodes(200), None);
    assert_eq!(remove.decodes(404), None);

    let grant = executor(true)
        .add_roles("u".to_owned(), cli_roles(), None)
        .unwrap();
    assert_eq!(grant.decodes(200), None);
}

// ---- what each operation ends in ----

#[test]
fn add_project_shows_the_created_project() {
    let exchange = executor(true)
        .add_project(text("test-project"), text("testing project"), None, None)
        .unwrap();
    let output = conclude(
        exchange,
        response(201, "{}"),
        Some(Ok(Record::Project(project()))),
    );
    assert_eq!(output.unwrap(), Output::Json(Record::Project(project())));

    let exchange = executor(false)
        .add_project(text("test-project"), text("testing project"), None, None)
        .unwrap();
    let output = conclude(
        exchange,
        response(201, "{}"),
        Some(Ok(Record::Project(project()))),
    );
    assert_eq!(output.unwrap(), Output::Pretty(Record::Project(project())));
}

#[test]
fn add_project_reports_a_conflict_as_an_input_error() {
    let exchange = executor(true)
        .add_project(text("test"), text("desc"), None, None)
        .unwrap();
    let output = conclude(exchange, response(409, "Project 'test' exists"), None);
    assert_eq!(
        input_error(output),
        "Conflict -- Response: Project 'test' exists -- Original request: Project {\n    title: \"test\",\n    description: \"desc\",\n    logo: None,\n}"
    );
}

#[test]
fn a_record_that_does_not_decode_is_a_client_error() {
    let exchange = executor(true)
        .add_project(text("test"), text("desc"), None, None)
        .unwrap();
    let output = conclude(
        exchange,
        response(201, "<html>"),
        Some(Err(minreq::Error::Other("not json"))),
    );
    assert!(matches!(
        output,
        Err(Failure::ClientError(minreq::Error::Other("not json")))
    ));
}

#[test]
fn get_project_says_not_found_without_failing() {
    let exchange = keyless().get_project("missing".to_owned()).unwrap();
    let output = conclude(exchange, response(404, ""), None).unwrap();
    assert_eq!(
        output,
        Output::Text("Project with code 'missing' not found".to_owned())
    );
    match output {
        Output::Text(text) => assert!(text.contains("not found")),
        other => panic!("expected a note, got {:?}", other),
    }
}

#[test]
fn get_project_shows_the_project() {
    let exchange = keyless().get_project("test-project".to_owned()).unwrap();
    let output = conclude(
        exchange,
        response(200, "{}"),
        Some(Ok(Record::Project(project()))),
    );
    assert_eq!(output.unwrap(), Output::Json(Record::Project(project())));
}

#[test]
fn get_all_projects_shows_the_list() {
    let exchange = keyless().get_all_projects().unwrap();
    let output = conclude(
        exchange,
        response(200, "[]"),
        Some(Ok(Record::Projects(vec![]))),
    );
    assert_eq!(output.unwrap(), Output::Json(Record::Projects(vec![])));
    let exchange = keyless().get_all_projects().unwrap();
    let output = conclude(
        exchange,
        response(200, "[..]"),
        Some(Ok(Record::Projects(vec![project(), project()]))),
    );
    assert_eq!(
        output.unwrap(),
        Output::Json(Record::Projects(vec![project(), project()]))
    );
}

#[test]
fn update_project_fails_where_the_project_is_missing() {
    let exchange = executor(true)
        .update_project("missing".to_owned(), text("d"), None, None)
        .unwrap();
    let output = conclude(exchange, response(404, ""), None);
    assert_eq!(
        input_error(output),
        "Project with code 'missing' not found"
    );
}

#[test]
fn update_project_shows_the_updated_project() {
    let mut updated = project();
    updated.logo = text("mylogo");
    let exchange = executor(true)
        .update_project("test-project".to_owned(), None, text("mylogo"), None)
        .unwrap();
    let output = conclude(
        exchange,
        response(200, "{}"),
        Some(Ok(Record::Project(updated.clone()))),
    );
    assert_eq!(output.unwrap(), Output::Json(Record::Project(updated)));
}

#[test]
fn remove_project_echoes_the_code() {
    for status_code in [200, 404] {
        let exchange = executor(true)
            .remove_project("test-project".to_owned())
            .unwrap();
        let output = conclude(exchange, response(status_code, ""), None);
        assert_eq!(output.unwrap(), Output::Text("test-project".to_owned()));
    }
}

#[test]
fn remove_project_fails_where_the_service_refuses() {
    let exchange = executor(true).remove_project("p".to_owned()).unwrap();
    assert_eq!(
        input_error(conclude(exchange, response(401, ""), None)),
        "Authorization failed"
    );
    let exchange = executor(true).remove_project("p".to_owned()).unwrap();
    assert_eq!(
        input_error(conclude(exchange, response(403, "no"), None)),
        "Forbidden -- Response: no"
    );
    let exchange = executor(true).remove_project("p".to_owned()).unwrap();
    assert_eq!(
        input_error(conclude(exchange, response(500, "boom"), None)),
        "The server returned an error -- Response boom"
    );
}

#[test]
fn add_version_fails_where_the_project_is_missing() {
    let exchange = executor(true)
        .add_version("missing".to_owned(), text("1.0.0"), text("u"), None)
        .unwrap();
    let output = conclude(exchange, response(404, ""), None);
    assert_eq!(
        input_error(output),
        "Project with code 'missing' not found"
    );
}

#[test]
fn add_version_shows_the_project() {
    let mut with_version = project();
    with_version.versions.push(get::Version {
        name: "1.0.0".to_owned(),
        url: "http://example.com".to_owned(),
    });
    let exchange = executor(true)
        .add_version(
            "test-project".to_owned(),
            text("1.0.0"),
            text("http://example.com"),
            None,
        )
        .unwrap();
    let output = conclude(
        exchange,
        response(201, "{}"),
        Some(Ok(Record::Project(with_version.clone()))),
    );
    assert_eq!(
        output.unwrap(),
        Output::Json(Record::Project(with_version))
    );
}

#[test]
fn update_version_names_project_and_version_where_one_is_missing() {
    let exchange = executor(true)
        .update_version("p".to_owned(), "9.9".to_owned(), "u".to_owned())
        .unwrap();
    let output = conclude(exchange, response(404, ""), None);
    assert_eq!(
        input_error(output),
        "Project with code 'p' or version '9.9' not found"
    );
}

#[test]
fn remove_version_echoes_the_version() {
    let exchange = executor(true)
        .remove_version("test-version".to_owned(), "1.0.0".to_owned())
        .unwrap();
    let output = conclude(exchange, response(200, ""), None);
    assert_eq!(output.unwrap(), Output::Text("1.0.0".to_owned()));
}

#[test]
fn remove_version_fails_where_it_is_missing() {
    for _ in 0..2 {
        let exchange = executor(true)
            .remove_version("p".to_owned(), "9.9".to_owned())
            .unwrap();
        let output = conclude(exchange, response(404, "no version 9.9"), None);
        assert_eq!(
            input_error(output),
            "Not found -- Response: no version 9.9"
        );
    }
}

#[test]
fn add_user_shows_the_created_user() {
    let exchange = executor(false)
        .add_user(text("test-user"), Some(true), None)
        .unwrap();
    let output = conclude(exchange, response(201, "{}"), Some(Ok(Record::User(user()))));
    assert_eq!(output.unwrap(), Output::Pretty(Record::User(user())));
}

#[test]
fn get_user_says_not_found_without_failing() {
    let exchange = executor(true).get_user("nobody".to_owned()).unwrap();
    let output = conclude(exchange, response(404, ""), None);
    assert_eq!(
        output.unwrap(),
        Output::Text("User with name 'nobody' not found".to_owned())
    );
}

#[test]
fn get_all_users_shows_the_list() {
    let exchange = executor(true).get_all_users().unwrap();
    let output = conclude(
        exchange,
        response(200, "[..]"),
        Some(Ok(Record::Users(vec![user()]))),
    );
    assert_eq!(output.unwrap(), Output::Json(Record::Users(vec![user()])));
}

#[test]
fn remove_user_echoes_the_name() {
    for status_code in [200, 404] {
        let exchange = executor(true).remove_user("test-user".to_owned()).unwrap();
        let output = conclude(exchange, response(status_code, ""), None);
        assert_eq!(output.unwrap(), Output::Text("test-user".to_owned()));
    }
}

#[test]
fn role_changes_show_an_empty_line() {
    let exchange = executor(true)
        .add_roles("u".to_owned(), cli_roles(), None)
        .unwrap();
    let output = conclude(exchange, response(200, "ignored"), None);
    assert_eq!(output.unwrap(), Output::Text(String::new()));
    let exchange = executor(true)
        .remove_roles("u".to_owned(), cli_roles(), None)
        .unwrap();
    let output = conclude(exchange, response(200, "ignored"), None);
    assert_eq!(output.unwrap(), Output::Text(String::new()));
}

#[test]
fn role_changes_fail_where_the_user_is_missing() {
    let exchange = executor(true)
        .add_roles("nobody".to_owned(), cli_roles(), None)
        .unwrap();
    assert_eq!(
        input_error(conclude(exchange, response(404, ""), None)),
        "User with name 'nobody' not found"
    );
    let exchange = executor(true)
        .remove_roles("nobody".to_owned(), cli_roles(), None)
        .unwrap();
    assert_eq!(
        input_error(conclude(exchange, response(404, ""), None)),
        "User with name 'nobody' not found"
    );
}

#[test]
fn get_roles_shows_the_roles_or_says_not_found() {
    let roles = vec![get::Role {
        role_name: "admin".to_owned(),
        project_code: "proj1".to_owned(),
    }];
    let exchange = executor(true).get_roles("u".to_owned()).unwrap();
    let output = conclude(
        exchange,
        response(200, "[..]"),
        Some(Ok(Record::Roles(roles.clone()))),
    );
    assert_eq!(output.unwrap(), Output::Json(Record::Roles(roles)));
    let exchange = executor(true).get_roles("nobody".to_owned()).unwrap();
    let output = conclude(exchange, response(404, ""), None);
    assert_eq!(
        output.unwrap(),
        Output::Text("User with name 'nobody' not found".to_owned())
    );
}

#[test]
fn a_transport_failure_in_the_body_passes_through() {
    let exchange = executor(true)
        .update_version("p".to_owned(), "1".to_owned(), "u".to_owned())
        .unwrap();
    let unreadable = Response {
        status_code: 400,
        text: Err(minreq::Error::InvalidUtf8InResponse),
    };
    assert!(matches!(
        conclude(exchange, unreadable, None),
        Err(Failure::ClientError(minreq::Error::InvalidUtf8InResponse))
    ));
}

// ---- one invocation ----

#[test]
fn an_invocation_begins_the_operation_it_names() {
    let exchange = execute_command(opt(Command::Project {
        project_command: ProjectCommand::Add {
            title: text("test"),
            description: text("desc"),
            logo: None,
            file: None,
        },
    }))
    .unwrap();
    assert_eq!(
        exchange,
        executor(true)
            .add_project(text("test"), text("desc"), None, None)
            .unwrap()
    );

    let exchange = execute_command(opt(Command::Project {
        project_command: ProjectCommand::Get {
            code: "c".to_owned(),
        },
    }))
    .unwrap();
    assert_eq!(exchange, executor(true).get_project("c".to_owned()).unwrap());

    let exchange = execute_command(opt(Command::Project {
        project_command: ProjectCommand::GetAll,
    }))
    .unwrap();
    assert_eq!(exchange, executor(true).get_all_projects().unwrap());

    let exchange = execute_command(opt(Command::Project {
        project_command: ProjectCommand::Update {
            code: "c".to_owned(),
            description: None,
            logo: text("mylogo"),
            file: None,
        },
    }))
    .unwrap();
    assert_eq!(
        exchange,
        executor(true)
            .update_project("c".to_owned(), None, text("mylogo"), None)
            .unwrap()
    );

    let exchange = execute_command(opt(Command::Project {
        project_command: ProjectCommand::Remove {
            code: "c".to_owned(),
        },
    }))
    .unwrap();
    assert_eq!(
        exchange,
        executor(true).remove_project("c".to_owned()).unwrap()
    );
}

#[test]
fn an_invocation_begins_version_operations() {
    let exchange = execute_command(opt(Command::Version {
        version_command: VersionCommand::Add {
            code: "c".to_owned(),
            version: text("1.0.0"),
            url: text("http://example.com"),
            file: None,
        },
    }))
    .unwrap();
    assert_eq!(
        exchange,
        executor(true)
            .add_version("c".to_owned(), text("1.0.0"), text("http://example.com"), None)
            .unwrap()
    );

    let exchange = execute_command(opt(Command::Version {
        version_command: VersionCommand::Update {
            code: "c".to_owned(),
            version: "1.0.0".to_owned(),
            url: "http://updated.com".to_owned(),
        },
    }))
    .unwrap();
    assert_eq!(
        exchange,
        executor(true)
            .update_version(
                "c".to_owned(),
                "1.0.0".to_owned(),
                "http://updated.com".to_owned()
            )
            .unwrap()
    );

    let exchange = execute_command(opt(Command::Version {
        version_command: VersionCommand::Remove {
            code: "c".to_owned(),
            version: "1.0.0".to_owned(),
        },
    }))
    .unwrap();
    assert_eq!(
        exchange,
        executor(true)
            .remove_version("c".to_owned(), "1.0.0".to_owned())
            .unwrap()
    );
}

#[test]
fn an_invocation_begins_user_operations() {
    let exchange = execute_command(opt(Command::User {
        user_command: UserCommand::Add {
            name: text("test-user"),
            is_admin: Some(false),
            file: None,
        },
    }))
    .unwrap();
    assert_eq!(
        exchange,
        executor(true)
            .add_user(text("test-user"), Some(false), None)
            .unwrap()
    );

    let exchange = execute_command(opt(Command::User {
        user_command: UserCommand::Get {
            name: "u".to_owned(),
        },
    }))
    .unwrap();
    assert_eq!(exchange, executor(true).get_user("u".to_owned()).unwrap());

    let exchange = execute_command(opt(Command::User {
        user_command: UserCommand::GetAll,
    }))
    .unwrap();
    assert_eq!(exchange, executor(true).get_all_users().unwrap());

    let exchange = execute_command(opt(Command::User {
        user_command: UserCommand::Remove {
            name: "u".to_owned(),
        },
    }))
    .unwrap();
    assert_eq!(exchange, executor(true).remove_user("u".to_owned()).unwrap());
}

#[test]
fn an_invocation_begins_role_operations() {
    let exchange = execute_command(opt(Command::Role {
        role_command: RoleCommand::Add {
            user_name: "u".to_owned(),
            project_role: cli_roles(),
            file: None,
        },
    }))
    .unwrap();
    assert_eq!(
        exchange,
        executor(true)
            .add_roles("u".to_owned(), cli_roles(), None)
            .unwrap()
    );

    let exchange = execute_command(opt(Command::Role {
        role_command: RoleCommand::Remove {
            user_name: "u".to_owned(),
            project_role: cli_roles(),
            file: None,
        },
    }))
    .unwrap();
    assert_eq!(
        exchange,
        executor(true)
            .remove_roles("u".to_owned(), cli_roles(), None)
            .unwrap()
    );

    let exchange = execute_command(opt(Command::Role {
        role_command: RoleCommand::Get {
            user_name: "u".to_owned(),
        },
    }))
    .unwrap();
    assert_eq!(exchange, executor(true).get_roles("u".to_owned()).unwrap());
}

#[test]
fn an_invocation_takes_the_output_mode_from_its_options() {
    let mut options = opt(Command::Project {
        project_command: ProjectCommand::GetAll,
    });
    options.json = false;
    let exchange = execute_command(options).unwrap();
    assert!(!exchange.json_output);
    let output = conclude(
        exchange,
        response(200, "[]"),
        Some(Ok(Record::Projects(vec![]))),
    );
    assert_eq!(output.unwrap(), Output::Pretty(Record::Projects(vec![])));
}

#[test]
fn an_invocation_without_a_url_fails() {
    let mut options = opt(Command::Project {
        project_command: ProjectCommand::GetAll,
    });
    options.url = None;
    assert_eq!(
        input_error(execute_command(options)),
        "Missing compulsory url parameter"
    );
}

#[test]
fn an_invocation_fails_on_its_configuration_before_its_record() {
    let mut options = opt(Command::Project {
        project_command: ProjectCommand::Add {
            title: None,
            description: None,
            logo: None,
            file: Some(Err(FileError::InvalidContent("record".to_owned()))),
        },
    });
    options.config = Some(Err(FileError::CannotOpen("config".to_owned())));
    assert_eq!(
        input_error(execute_command(options)),
        "Cannot open file: config"
    );
}

#[test]
fn an_invocation_talks_to_the_configured_service() {
    let mut options = opt(Command::User {
        user_command: UserCommand::GetAll,
    });
    options.config = Some(Ok(Config {
        url: "http://configured".to_owned(),
        api_key: text("file-key"),
    }));
    let exchange = execute_command(options).unwrap();
    assert_eq!(exchange.request.url, "http://configured/api/v2/users");
    assert_eq!(exchange.request.api_key, text("file-key"));

    let mut options = opt(Command::User {
        user_command: UserCommand::GetAll,
    });
    options.config = Some(Ok(Config {
        url: "http://configured".to_owned(),
        api_key: None,
    }));
    assert_eq!(
        input_error(execute_command(options)),
        "API key is required and was not provided"
    );
}
