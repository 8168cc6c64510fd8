//! The transport client. It builds the one request that an operation needs,
//! and classifies the one response that comes back.
//!
//! Each kind of call comes in two halves. A method of [`ListTheDocs`] checks
//! that the API key is there where it is needed and describes the request; a
//! method of [`Response`] reads the status code of the answer and turns it
//! into the record, the absence of one, or a failure. Sending the request is
//! left to the caller.

use crate::entities::{patch, post};
use crate::error::{Failure, FailureModel};
use vstd::prelude::*;

verus! {

/// The name of the header that carries the API key.
pub const API_KEY_HEADER: &'static str = "Api-Key";

/// The HTTP method of a request.
#[derive(Debug, Clone, Copy, PartialEq, Eq, Structural)]
pub enum Method {
    Get,
    Post,
    Patch,
    Delete,
}

/// The record that a request carries as its JSON body.
#[derive(Debug, Clone, PartialEq, Eq)]
pub enum Payload {
    NewProject(post::Project),
    NewVersion(post::Version),
    NewUser(post::User),
    ProjectPatch(patch::Project),
    VersionPatch(patch::Version),
    Roles(Vec<patch::ProjectRole>),
}

/// A [`Payload`] with a list as the sequence of its items.
pub enum PayloadView {
    NewProject(post::Project),
    NewVersion(post::Version),
    NewUser(post::User),
    ProjectPatch(patch::Project),
    VersionPatch(patch::Version),
    Roles(Seq<patch::ProjectRole>),
}

impl View for Payload {
    type V = PayloadView;

    open spec fn view(&self) -> PayloadView {
        match *self {
            Payload::NewProject(project) => PayloadView::NewProject(project),
            Payload::NewVersion(version) => PayloadView::NewVersion(version),
            Payload::NewUser(user) => PayloadView::NewUser(user),
            Payload::ProjectPatch(project) => PayloadView::ProjectPatch(project),
            Payload::VersionPatch(version) => PayloadView::VersionPatch(version),
            Payload::Roles(roles) => PayloadView::Roles(roles@),
        }
    }
}

impl PayloadView {
    /// The record as it is quoted in a message about a refused request.
    pub open spec fn pretty(self) -> Seq<char> {
        match self {
            PayloadView::NewProject(project) => project.pretty(),
            PayloadView::NewVersion(version) => version.pretty(),
            PayloadView::NewUser(user) => user.pretty(),
            PayloadView::ProjectPatch(project) => project.pretty(),
            PayloadView::VersionPatch(version) => version.pretty(),
            PayloadView::Roles(roles) => patch::role_list_pretty(patch::pairs(roles)),
        }
    }
}

/// The record of a request as a message quotes it, if the request has one.
pub open spec fn quoted(body: Option<PayloadView>) -> Option<Seq<char>> {
    match body {
        Some(record) => Some(record.pretty()),
        None => None,
    }
}

impl Payload {
    /// Renders the record for a message about a refused request.
    pub fn to_pretty(&self) -> (text: String)
        ensures
            text@ == self@.pretty(),
    {
        match self {
            Payload::NewProject(project) => post::new_project_text(project),
            Payload::NewVersion(version) => post::new_version_text(version),
            Payload::NewUser(user) => post::new_user_text(user),
            Payload::ProjectPatch(project) => patch::project_patch_text(project),
            Payload::VersionPatch(version) => patch::version_patch_text(version),
            Payload::Roles(roles) => patch::role_list_text(roles),
        }
    }
}

/// One HTTP request, ready to be sent.
#[derive(Debug, Clone, PartialEq, Eq)]
pub struct Request {
    pub method: Method,
    /// The base URL of the service followed by the path of the resource.
    pub url: String,
    /// The value of the header [`API_KEY_HEADER`]; `None` for a request
    /// without that header.
    pub api_key: Option<String>,
    /// The record to send as JSON; `None` for a request without a body.
    pub body: Option<Payload>,
}

/// A [`Request`] with its texts as sequences of characters.
pub struct RequestView {
    pub method: Method,
    pub url: Seq<char>,
    pub api_key: Option<Seq<char>>,
    pub body: Option<PayloadView>,
}

impl View for Request {
    type V = RequestView;

    open spec fn view(&self) -> RequestView {
        RequestView {
            method: self.method,
            url: self.url@,
            api_key: self.api_key.deep_view(),
            body: match self.body {
                Some(record) => Some(record@),
                None => None,
            },
        }
    }
}

/// The client of one service: where it is, and the key to present to it.
#[derive(Debug, Clone, PartialEq, Eq)]
pub struct ListTheDocs {
    base_url: String,
    api_key: Option<String>,
}

/// A [`ListTheDocs`] with its texts as sequences of characters.
pub struct ClientView {
    pub base_url: Seq<char>,
    pub api_key: Option<Seq<char>>,
}

impl ClientView {
    /// The request for a call that needs the API key, or the failure that
    /// stands in for it where the client has no key: nothing is sent then.
    pub open spec fn keyed(
        self,
        method: Method,
        endpoint_url: Seq<char>,
        body: Option<PayloadView>,
    ) -> Result<
        RequestView,
        FailureModel,
    > {
        match self.api_key {
            Some(key) => Ok(
                RequestView { method, url: self.base_url + endpoint_url, api_key: Some(key), body },
            ),
            None => Err(FailureModel::InputError("API key is required and was not provided"@)),
        }
    }

    /// The request that creates a resource under `endpoint_url` from `body`.
    pub open spec fn post(self, endpoint_url: Seq<char>, body: PayloadView) -> Result<
        RequestView,
        FailureModel,
    > {
        self.keyed(Method::Post, endpoint_url, Some(body))
    }

    /// The request that fetches the resource at `endpoint_url`, with the API
    /// key if `with_api_key` is set and without any header otherwise.
    pub open spec fn get(self, endpoint_url: Seq<char>, with_api_key: bool) -> Result<
        RequestView,
        FailureModel,
    > {
        if with_api_key {
            self.keyed(Method::Get, endpoint_url, None)
        } else {
            Ok(
                RequestView {
                    method: Method::Get,
                    url: self.base_url + endpoint_url,
                    api_key: None,
                    body: None,
                },
            )
        }
    }

    /// The request that updates the resource at `endpoint_url` with `body`.
    pub open spec fn patch(self, endpoint_url: Seq<char>, body: PayloadView) -> Result<
        RequestView,
        FailureModel,
    > {
        self.keyed(Method::Patch, endpoint_url, Some(body))
    }

    /// The request that deletes the resource at `endpoint_url`.
    pub open spec fn remove(self, endpoint_url: Seq<char>) -> Result<RequestView, FailureModel> {
        self.keyed(Method::Delete, endpoint_url, None)
    }

    /// The path of the roles of the user `user_name`.
    pub open spec fn roles_path(user_name: Seq<char>) -> Seq<char> {
        "/api/v2/users/"@ + user_name + "/roles"@
    }

    /// The one request that grants all of `roles` to the user `user_name`.
    pub open spec fn add_roles(
        self,
        user_name: Seq<char>,
        roles: Seq<patch::ProjectRole>,
    ) -> Result<RequestView, FailureModel> {
        self.keyed(Method::Patch, Self::roles_path(user_name), Some(PayloadView::Roles(roles)))
    }

    /// The one request that revokes all of `roles` from the user `user_name`.
    pub open spec fn remove_roles(
        self,
        user_name: Seq<char>,
        roles: Seq<patch::ProjectRole>,
    ) -> Result<RequestView, FailureModel> {
        self.keyed(Method::Delete, Self::roles_path(user_name), Some(PayloadView::Roles(roles)))
    }
}

impl View for ListTheDocs {
    type V = ClientView;

    closed spec fn view(&self) -> ClientView {
        ClientView { base_url: self.base_url@, api_key: self.api_key.deep_view() }
    }
}

impl ListTheDocs {
    /// A client of the service at `url` that presents `api_key`, if any.
    pub fn new(url: String, api_key: Option<String>) -> (client: ListTheDocs)
        ensures
            client@ == (ClientView { base_url: url@, api_key: api_key.deep_view() }),
    {
        ListTheDocs { base_url: url, api_key }
    }

    /// Builds the request for a call that needs the API key.
    fn keyed(&self, method: Method, endpoint_url: &str, body: Option<Payload>) -> (result: Result<
        Request,
        Failure,
    >)
        ensures
            crate::error::viewed(result) == self@.keyed(
                method,
                endpoint_url@,
                match body {
                    Some(record) => Some(record@),
                    None => None,
                },
            ),
    {
        match &self.api_key {
            Some(key) => {
                let mut url = self.base_url.clone();
                url.append(endpoint_url);
                Ok(Request { method, url, api_key: Some(key.clone()), body })
            },
            None => Err(Failure::input("API key is required and was not provided")),
        }
    }

    /// Describes the creation of a resource under `endpoint_url` from `body`.
    /// Without an API key the call fails here and nothing is to be sent. The
    /// answer is read by [`Response::for_post`].
    pub fn post(&self, endpoint_url: &str, body: Payload) -> (result: Result<Request, Failure>)
        ensures
            crate::error::viewed(result) == self@.post(endpoint_url@, body@),
    {
        self.keyed(Method::Post, endpoint_url, Some(body))
    }

    /// Describes the fetch of the resource at `endpoint_url`. With
    /// `with_api_key` the request carries the key, and the call fails here
    /// where there is none. The answer is read by [`Response::for_get`].
    pub fn get(&self, endpoint_url: &str, with_api_key: bool) -> (result: Result<Request, Failure>)
        ensures
            crate::error::viewed(result) == self@.get(endpoint_url@, with_api_key),
    {
        if with_api_key {
            self.keyed(Method::Get, endpoint_url, None)
        } else {
            let mut url = self.base_url.clone();
            url.append(endpoint_url);
            Ok(Request { method: Method::Get, url, api_key: None, body: None })
        }
    }

    /// Describes the partial update of the resource at `endpoint_url` with
    /// `body`. Without an API key the call fails here and nothing is to be
    /// sent. The answer is read by [`Response::for_patch`].
    pub fn patch(&self, endpoint_url: &str, body: Payload) -> (result: Result<Request, Failure>)
        ensures
            crate::error::viewed(result) == self@.patch(endpoint_url@, body@),
    {
        self.keyed(Method::Patch, endpoint_url, Some(body))
    }

    /// Describes the deletion of the resource at `endpoint_url`. Without an
    /// API key the call fails here and nothing is to be sent. The answer is
    /// read by [`Response::for_remove`].
    pub fn remove(&self, endpoint_url: &str) -> (result: Result<Request, Failure>)
        ensures
            crate::error::viewed(result) == self@.remove(endpoint_url@),
    {
        self.keyed(Method::Delete, endpoint_url, None)
    }

    /// The path of the roles of the user `user_name`.
    fn roles_path(user_name: &str) -> (path: String)
        ensures
            path@ == ClientView::roles_path(user_name@),
    {
        let mut path = "/api/v2/users/".to_owned();
        path.append(user_name);
        path.append("/roles");
        path
    }

    /// Describes the grant of `roles` to the user `user_name`: one request
    /// that carries the whole list. Without an API key the call fails here
    /// and nothing is to be sent. The answer is read by
    /// [`Response::for_add_roles`].
    pub fn add_roles(&self, user_name: &str, roles: Vec<patch::ProjectRole>) -> (result: Result<
        Request,
        Failure,
    >)
        ensures
            crate::error::viewed(result) == self@.add_roles(user_name@, roles@),
    {
        let path = Self::roles_path(user_name);
        self.keyed(Method::Patch, path.as_str(), Some(Payload::Roles(roles)))
    }

    /// Describes the revocation of `roles` from the user `user_name`: one
    /// request that carries the whole list. Without an API key the call fails
    /// here and nothing is to be sent. The answer is read by
    /// [`Response::for_remove_roles`].
    pub fn remove_roles(&self, user_name: &str, roles: Vec<patch::ProjectRole>) -> (result: Result<
        Request,
        Failure,
    >)
        ensures
            crate::error::viewed(result) == self@.remove_roles(user_name@, roles@),
    {
        let path = Self::roles_path(user_name);
        self.keyed(Method::Delete, path.as_str(), Some(Payload::Roles(roles)))
    }
}

/// What a status code means, whatever the call.
#[derive(Debug, Clone, Copy, PartialEq, Eq, Structural)]
pub enum Status {
    /// 200
    Success,
    /// 201
    Created,
    /// 400
    BadRequest,
    /// 401
    Unauthorized,
    /// 403
    Forbidden,
    /// 404
    Absent,
    /// 409
    Conflict,
    /// 500 to 599
    ServerError,
    /// Any other code: the service has left the agreed protocol.
    Unexpected,
}

/// The meaning of the status code `code`.
pub open spec fn status_of(code: int) -> Status {
    if code == 200 {
        Status::Success
    } else if code == 201 {
        Status::Created
    } else if code == 400 {
        Status::BadRequest
    } else if code == 401 {
        Status::Unauthorized
    } else if code == 403 {
        Status::Forbidden
    } else if code == 404 {
        Status::Absent
    } else if code == 409 {
        Status::Conflict
    } else if 500 <= code < 600 {
        Status::ServerError
    } else {
        Status::Unexpected
    }
}

/// The status in which a call made with `method` succeeds: 201 for a
/// creation, 200 for every other call.
pub open spec fn success(method: Method) -> Status {
    if method == Method::Post {
        Status::Created
    } else {
        Status::Success
    }
}

/// Whether a call made with `method` can end in `status`. A code outside
/// the table, or the success code of the other group of calls, is a defect
/// of the service.
pub open spec fn expected(status: Status, method: Method) -> bool {
    &&& status != Status::Unexpected
    &&& status == Status::Success || status == Status::Created ==> status == success(method)
}

/// Classifies a status code.
pub fn classify(status_code: i32) -> (status: Status)
    ensures
        status == status_of(status_code as int),
{
    if status_code == 200 {
        Status::Success
    } else if status_code == 201 {
        Status::Created
    } else if status_code == 400 {
        Status::BadRequest
    } else if status_code == 401 {
        Status::Unauthorized
    } else if status_code == 403 {
        Status::Forbidden
    } else if status_code == 404 {
        Status::Absent
    } else if status_code == 409 {
        Status::Conflict
    } else if status_code >= 500 && status_code < 600 {
        Status::ServerError
    } else {
        Status::Unexpected
    }
}

/// Tells whether a call made with `method` can end in `status_code`.
pub fn is_expected(status_code: i32, method: Method) -> (yes: bool)
    ensures
        yes == expected(status_of(status_code as int), method),
{
    match classify(status_code) {
        Status::Unexpected => false,
        Status::Success => match method {
            Method::Post => false,
            _ => true,
        },
        Status::Created => match method {
            Method::Post => true,
            _ => false,
        },
        _ => true,
    }
}

/// How the message about a refused request begins.
pub open spec fn headline(status: Status) -> Seq<char> {
    match status {
        Status::BadRequest => "Bad request -- Response: "@,
        Status::Forbidden => "Forbidden -- Response: "@,
        Status::Absent => "Not found -- Response: "@,
        Status::Conflict => "Conflict -- Response: "@,
        // a server error, the one refusal that is left
        _ => "The server returned an error -- Response "@,
    }
}

/// The message about a request refused with `status`: the headline, the body
/// of the response and, where the request carried a record, that record.
pub open spec fn complaint(status: Status, text: Seq<char>, request: Option<Seq<char>>) -> Seq<
    char,
> {
    match request {
        Some(record) => headline(status) + text + " -- Original request: "@ + record,
        None => headline(status) + text,
    }
}

/// The failure that a request refused with `status` ends in. A missing or
/// invalid key is reported without the response; every other refusal quotes
/// the body of the response, and fails as the transport does where that body
/// is no text.
pub open spec fn refusal(
    status: Status,
    text: Result<String, minreq::Error>,
    request: Option<Seq<char>>,
) -> FailureModel {
    if status == Status::Unauthorized {
        FailureModel::InputError("Authorization failed"@)
    } else {
        match text {
            Ok(text) => FailureModel::InputError(complaint(status, text@, request)),
            Err(err) => FailureModel::ClientError(err),
        }
    }
}

/// What came back for a request: the status code, and the body read as text
/// (or the transport's error where it is not valid UTF-8).
#[derive(Debug)]
pub struct Response {
    pub status_code: i32,
    pub text: Result<String, minreq::Error>,
}

impl Response {
    /// The meaning of the status code.
    pub open spec fn status(&self) -> Status {
        status_of(self.status_code as int)
    }

    /// Whether the response can be read as the answer to a call made with
    /// `method` that returns a record: the status is one that `method` can
    /// end in, and on success the caller has decoded the body as `json`.
    pub open spec fn answers<R>(
        &self,
        method: Method,
        json: Option<Result<R, minreq::Error>>,
    ) -> bool {
        &&& expected(self.status(), method)
        &&& self.status() == success(method) ==> json is Some
    }

    /// The outcome of a call made with `method` that returns a record.
    /// `json` is the body decoded as that record, where the caller decoded
    /// it; `request` is the record that the request carried, if any.
    ///
    /// On the success code of `method` the outcome is the decoded record, or
    /// the transport's error where decoding failed. On 404 it is `Ok(None)`:
    /// there is no such resource. Every other code of the table is a
    /// failure. The outcome is `None` where the library has nothing to go
    /// on, that is where [`Response::answers`] does not hold.
    pub open spec fn record_outcome<R>(
        &self,
        method: Method,
        json: Option<Result<R, minreq::Error>>,
        request: Option<Seq<char>>,
    ) -> Option<Result<Option<R>, FailureModel>> {
        if !expected(self.status(), method) {
            None
        } else if self.status() == success(method) {
            match json {
                Some(Ok(record)) => Some(Ok(Some(record))),
                Some(Err(err)) => Some(Err(FailureModel::ClientError(err))),
                None => None,
            }
        } else if self.status() == Status::Absent {
            Some(Ok(None))
        } else {
            Some(Err(refusal(self.status(), self.text, request)))
        }
    }

    /// The outcome of a creation: the created record on 201, `Ok(None)` on
    /// 404 (the parent resource does not exist), a failure that quotes the
    /// record of `request` otherwise.
    pub open spec fn post_outcome<R>(
        &self,
        json: Option<Result<R, minreq::Error>>,
        request: RequestView,
    ) -> Option<Result<Option<R>, FailureModel>> {
        self.record_outcome(Method::Post, json, quoted(request.body))
    }

    /// The outcome of a fetch: the record on 200, `Ok(None)` on 404, a
    /// failure otherwise.
    pub open spec fn get_outcome<R>(&self, json: Option<Result<R, minreq::Error>>) -> Option<
        Result<Option<R>, FailureModel>,
    > {
        self.record_outcome(Method::Get, json, None)
    }

    /// The outcome of a partial update: the updated record on 200,
    /// `Ok(None)` on 404, a failure that quotes the record of `request`
    /// otherwise.
    pub open spec fn patch_outcome<R>(
        &self,
        json: Option<Result<R, minreq::Error>>,
        request: RequestView,
    ) -> Option<Result<Option<R>, FailureModel>> {
        self.record_outcome(Method::Patch, json, quoted(request.body))
    }

    /// The outcome of a deletion: done on 200; on 404 done as well, unless
    /// `is_404_error` asks for a failure; a failure otherwise. `None` for a
    /// status that a deletion cannot end in.
    pub open spec fn remove_outcome(&self, is_404_error: bool) -> Option<Result<(), FailureModel>> {
        if !expected(self.status(), Method::Delete) {
            None
        } else if self.status() == Status::Success {
            Some(Ok(()))
        } else if self.status() == Status::Absent && !is_404_error {
            Some(Ok(()))
        } else {
            Some(Err(refusal(self.status(), self.text, None)))
        }
    }

    /// The outcome of granting or revoking roles, a call made with `method`
    /// that returns no record: done on 200, `Ok(None)` on 404 (the user does
    /// not exist), a failure that quotes the roles of `request` otherwise.
    /// `None` for a status that the call cannot end in.
    pub open spec fn roles_outcome(&self, method: Method, request: RequestView) -> Option<
        Result<Option<()>, FailureModel>,
    > {
        if !expected(self.status(), method) {
            None
        } else if self.status() == success(method) {
            Some(Ok(Some(())))
        } else if self.status() == Status::Absent {
            Some(Ok(None))
        } else {
            Some(Err(refusal(self.status(), self.text, quoted(request.body))))
        }
    }

    /// Builds the failure for a request refused with `status`.
    fn refuse(self, status: Status, request: Option<&Payload>) -> (err: Failure)
        ensures
            err@ == refusal(
                status,
                self.text,
                match request {
                    Some(body) => Some(body@.pretty()),
                    None => None,
                },
            ),
    {
        if let Status::Unauthorized = status {
            return Failure::input("Authorization failed");
        }
        let text = match self.text {
            Ok(text) => text,
            Err(err) => {
                return Failure::ClientError(err);
            },
        };
        let mut message = match status {
            Status::BadRequest => "Bad request -- Response: ".to_owned(),
            Status::Forbidden => "Forbidden -- Response: ".to_owned(),
            Status::Absent => "Not found -- Response: ".to_owned(),
            Status::Conflict => "Conflict -- Response: ".to_owned(),
            _ => "The server returned an error -- Response ".to_owned(),
        };
        message.append(text.as_str());
        if let Some(body) = request {
            let record = body.to_pretty();
            message.append(" -- Original request: ");
            message.append(record.as_str());
        }
        Failure::InputError(message)
    }

    /// Reads the answer to a call made with `method` that returns a record.
    fn for_record<R>(
        self,
        method: Method,
        json: Option<Result<R, minreq::Error>>,
        request: Option<&Payload>,
    ) -> (result: Result<Option<R>, Failure>)
        requires
            self.answers(method, json),
        ensures
            Some(crate::error::failing(result)) == self.record_outcome(
                method,
                json,
                match request {
                    Some(body) => Some(body@.pretty()),
                    None => None,
                },
            ),
    {
        let status = classify(self.status_code);
        match status {
            Status::Success | Status::Created => match json {
                Some(Ok(record)) => Ok(Some(record)),
                Some(Err(err)) => Err(Failure::ClientError(err)),
                None => unreached(),
            },
            Status::Absent => Ok(None),
            _ => Err(self.refuse(status, request)),
        }
    }

    /// Reads the answer to the creation that `request` asked for (see
    /// [`ListTheDocs::post`]). `json` is the body decoded as the record that
    /// the call returns; it must be there on 201 and is not looked at
    /// otherwise.
    pub fn for_post<R>(self, json: Option<Result<R, minreq::Error>>, request: &Request) -> (result:
        Result<Option<R>, Failure>)
        requires
            self.answers(Method::Post, json),
        ensures
            Some(crate::error::failing(result)) == self.post_outcome(json, request@),
    {
        self.for_record(Method::Post, json, request.body.as_ref())
    }

    /// Reads the answer to a fetch (see [`ListTheDocs::get`]). `json` is the
    /// body decoded as the record that the call returns; it must be there on
    /// 200 and is not looked at otherwise.
    pub fn for_get<R>(self, json: Option<Result<R, minreq::Error>>) -> (result: Result<
        Option<R>,
        Failure,
    >)
        requires
            self.answers(Method::Get, json),
        ensures
            Some(crate::error::failing(result)) == self.get_outcome(json),
    {
        self.for_record(Method::Get, json, None)
    }

    /// Reads the answer to the partial update that `request` asked for (see
    /// [`ListTheDocs::patch`]). `json` is the body decoded as the record
    /// that the call returns; it must be there on 200 and is not looked at
    /// otherwise.
    pub fn for_patch<R>(self, json: Option<Result<R, minreq::Error>>, request: &Request) -> (result:
        Result<Option<R>, Failure>)
        requires
            self.answers(Method::Patch, json),
        ensures
            Some(crate::error::failing(result)) == self.patch_outcome(json, request@),
    {
        self.for_record(Method::Patch, json, request.body.as_ref())
    }

    /// Reads the answer to a deletion (see [`ListTheDocs::remove`]).
    /// `is_404_error` tells whether a resource that does not exist is a
    /// failure (a nested resource) or leaves nothing to do (a top-level one).
    pub fn for_remove(self, is_404_error: bool) -> (result: Result<(), Failure>)
        requires
            expected(self.status(), Method::Delete),
        ensures
            Some(crate::error::failing(result)) == self.remove_outcome(is_404_error),
    {
        let status = classify(self.status_code);
        match status {
            Status::Success => Ok(()),
            Status::Absent => if is_404_error {
                Err(self.refuse(status, None))
            } else {
                Ok(())
            },
            _ => Err(self.refuse(status, None)),
        }
    }

    /// Reads the answer to a call that returns no record.
    fn for_roles(self, method: Method, request: &Request) -> (result: Result<Option<()>, Failure>)
        requires
            expected(self.status(), method),
        ensures
            Some(crate::error::failing(result)) == self.roles_outcome(method, request@),
    {
        let status = classify(self.status_code);
        match status {
            Status::Success | Status::Created => Ok(Some(())),
            Status::Absent => Ok(None),
            _ => Err(self.refuse(status, request.body.as_ref())),
        }
    }

    /// Reads the answer to the grant that `request` asked for (see
    /// [`ListTheDocs::add_roles`]).
    pub fn for_add_roles(self, request: &Request) -> (result: Result<Option<()>, Failure>)
        requires
            expected(self.status(), Method::Patch),
        ensures
            Some(crate::error::failing(result)) == self.roles_outcome(Method::Patch, request@),
    {
        self.for_roles(Method::Patch, request)
    }

    /// Reads the answer to the revocation that `request` asked for (see
    /// [`ListTheDocs::remove_roles`]).
    pub fn for_remove_roles(self, request: &Request) -> (result: Result<Option<()>, Failure>)
        requires
            expected(self.status(), Method::Delete),
        ensures
            Some(crate::error::failing(result)) == self.roles_outcome(Method::Delete, request@),
    {
        self.for_roles(Method::Delete, request)
    }
}

} // verus!
