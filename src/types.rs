//! What the engine's endpoints answer, and which HTTP statuses become which
//! outcome.
use vstd::prelude::*;

use crate::codec::ErrorResponse;
use crate::error::{DockerError, DockerResult};

verus! {

/// One container of a container listing.
#[derive(Debug)]
pub struct ContainerInfo {
    pub id: String,
    pub created: u64,
    pub image: String,
    pub image_id: String,
    pub command: String,
    pub status: String,
}

/// The answer to a container creation.
#[derive(Debug)]
pub struct ContainerCreateResponse {
    pub id: String,
    pub warnings: Vec<String>,
}

/// What a container is created from: an image and a command line.
#[derive(Debug)]
pub struct ContainerCreateSpec<'a> {
    pub image: &'a str,
    pub command: Vec<&'a str>,
}

/// Why a waited-for container ended badly.
#[derive(Debug)]
pub struct ContainerWaitResponseExitError {
    pub message: String,
}

/// How a waited-for container ended.
#[derive(Debug)]
pub struct ContainerWaitResponse {
    pub status_code: i64,
    pub error: Option<ContainerWaitResponseExitError>,
}

/// The error for a status that an endpoint does not document.
fn unexpected_status(url: &str, status: u16) -> (r: DockerError)
    ensures
        r is StatusFailed,
        r->StatusFailed_0@ == url@,
        r->StatusFailed_1 == status,
{
    DockerError::StatusFailed(url.to_owned(), status)
}

/// Whether `status` is a success (2xx).
pub fn is_success(status: u16) -> (r: bool)
    ensures
        r == (200 <= status <= 299),
{
    200 <= status && status <= 299
}

/// The outcome of `GET /containers/json`.
#[derive(Debug)]
pub enum ContainerList {
    Succeeded(Vec<ContainerInfo>),
    BadParameter(ErrorResponse),
    ServerError(ErrorResponse),
}

impl ContainerList {
    /// Whether the body of an answer with `status` is read as an engine error.
    pub fn reads_error(status: u16) -> (r: bool)
        ensures
            r == (status == 400 || status == 500),
    {
        status == 400 || status == 500
    }

    /// The outcome for a non-success `status`, given the engine error read
    /// from the body where [`Self::reads_error`] asks for one.
    pub fn from_status(url: &str, status: u16, error: Option<ErrorResponse>) -> (r: DockerResult<ContainerList>)
        ensures
            status == 400 && error is Some ==> r == Ok::<ContainerList, DockerError>(ContainerList::BadParameter(error->Some_0)),
            status == 500 && error is Some ==> r == Ok::<ContainerList, DockerError>(ContainerList::ServerError(error->Some_0)),
            !((status == 400 || status == 500) && error is Some) ==> r is Err && r->Err_0 is StatusFailed && r->Err_0->StatusFailed_0@ == url@
                && r->Err_0->StatusFailed_1 == status,
    {
        let error = match error {
            Some(error) => error,
            None => return Err(unexpected_status(url, status)),
        };
        match status {
            400 => Ok(ContainerList::BadParameter(error)),
            500 => Ok(ContainerList::ServerError(error)),
            _ => Err(unexpected_status(url, status)),
        }
    }
}

/// The outcome of `POST /containers/create`.
#[derive(Debug)]
pub enum ContainerCreate {
    Succeeded(ContainerCreateResponse),
    BadParameter(ErrorResponse),
    NoSuchImage(ErrorResponse),
    Conflict(ErrorResponse),
    ServerError(ErrorResponse),
}

impl ContainerCreate {
    /// Whether the body of an answer with `status` is read as an engine error.
    pub fn reads_error(status: u16) -> (r: bool)
        ensures
            r == (status == 400 || status == 404 || status == 409 || status == 500),
    {
        status == 400 || status == 404 || status == 409 || status == 500
    }

    /// The outcome for a non-success `status`, given the engine error read
    /// from the body where [`Self::reads_error`] asks for one.
    pub fn from_status(url: &str, status: u16, error: Option<ErrorResponse>) -> (r: DockerResult<ContainerCreate>)
        ensures
            status == 400 && error is Some ==> r == Ok::<ContainerCreate, DockerError>(ContainerCreate::BadParameter(error->Some_0)),
            status == 404 && error is Some ==> r == Ok::<ContainerCreate, DockerError>(ContainerCreate::NoSuchImage(error->Some_0)),
            status == 409 && error is Some ==> r == Ok::<ContainerCreate, DockerError>(ContainerCreate::Conflict(error->Some_0)),
            status == 500 && error is Some ==> r == Ok::<ContainerCreate, DockerError>(ContainerCreate::ServerError(error->Some_0)),
            !((status == 400 || status == 404 || status == 409 || status == 500) && error is Some) ==> r is Err && r->Err_0 is StatusFailed && r->Err_0->StatusFailed_0@ == url@
                && r->Err_0->StatusFailed_1 == status,
    {
        let error = match error {
            Some(error) => error,
            None => return Err(unexpected_status(url, status)),
        };
        match status {
            400 => Ok(ContainerCreate::BadParameter(error)),
            404 => Ok(ContainerCreate::NoSuchImage(error)),
            409 => Ok(ContainerCreate::Conflict(error)),
            500 => Ok(ContainerCreate::ServerError(error)),
            _ => Err(unexpected_status(url, status)),
        }
    }
}

/// The outcome of `POST /containers/{id}/start`.
#[derive(Debug)]
pub enum ContainerStart {
    Succeeded,
    AlreadyStarted,
    NoSuchContainer(ErrorResponse),
    ServerError(ErrorResponse),
}

impl ContainerStart {
    /// Whether the body of an answer with `status` is read as an engine error.
    pub fn reads_error(status: u16) -> (r: bool)
        ensures
            r == (status == 404 || status == 500),
    {
        status == 404 || status == 500
    }

    /// The outcome for a non-success `status`, given the engine error read
    /// from the body where [`Self::reads_error`] asks for one.
    pub fn from_status(url: &str, status: u16, error: Option<ErrorResponse>) -> (r: DockerResult<ContainerStart>)
        ensures
            status == 404 && error is Some ==> r == Ok::<ContainerStart, DockerError>(ContainerStart::NoSuchContainer(error->Some_0)),
            status == 500 && error is Some ==> r == Ok::<ContainerStart, DockerError>(ContainerStart::ServerError(error->Some_0)),
            status == 304 ==> r == Ok::<ContainerStart, DockerError>(ContainerStart::AlreadyStarted),
            !((status == 404 || status == 500) && error is Some) && status != 304 ==> r is Err && r->Err_0 is StatusFailed && r->Err_0->StatusFailed_0@ == url@
                && r->Err_0->StatusFailed_1 == status,
    {
        if status == 304 {
            return Ok(ContainerStart::AlreadyStarted);
        }
        let error = match error {
            Some(error) => error,
            None => return Err(unexpected_status(url, status)),
        };
        match status {
            404 => Ok(ContainerStart::NoSuchContainer(error)),
            500 => Ok(ContainerStart::ServerError(error)),
            _ => Err(unexpected_status(url, status)),
        }
    }
}

/// The outcome of `POST /containers/{id}/stop`.
#[derive(Debug)]
pub enum ContainerStop {
    Succeeded,
    AlreadyStopped,
    NoSuchContainer(ErrorResponse),
    ServerError(ErrorResponse),
}

impl ContainerStop {
    /// Whether the body of an answer with `status` is read as an engine error.
    pub fn reads_error(status: u16) -> (r: bool)
        ensures
            r == (status == 404 || status == 500),
    {
        status == 404 || status == 500
    }

    /// The outcome for a non-success `status`, given the engine error read
    /// from the body where [`Self::reads_error`] asks for one.
    pub fn from_status(url: &str, status: u16, error: Option<ErrorResponse>) -> (r: DockerResult<ContainerStop>)
        ensures
            status == 404 && error is Some ==> r == Ok::<ContainerStop, DockerError>(ContainerStop::NoSuchContainer(error->Some_0)),
            status == 500 && error is Some ==> r == Ok::<ContainerStop, DockerError>(ContainerStop::ServerError(error->Some_0)),
            status == 304 ==> r == Ok::<ContainerStop, DockerError>(ContainerStop::AlreadyStopped),
            !((status == 404 || status == 500) && error is Some) && status != 304 ==> r is Err && r->Err_0 is StatusFailed && r->Err_0->StatusFailed_0@ == url@
                && r->Err_0->StatusFailed_1 == status,
    {
        if status == 304 {
            return Ok(ContainerStop::AlreadyStopped);
        }
        let error = match error {
            Some(error) => error,
            None => return Err(unexpected_status(url, status)),
        };
        match status {
            404 => Ok(ContainerStop::NoSuchContainer(error)),
            500 => Ok(ContainerStop::ServerError(error)),
            _ => Err(unexpected_status(url, status)),
        }
    }
}

/// The outcome of `POST /containers/{id}/wait`.
#[derive(Debug)]
pub enum ContainerWait {
    Succeeded(ContainerWaitResponse),
    BadParameter(ErrorResponse),
    NoSuchContainer(ErrorResponse),
    ServerError(ErrorResponse),
}

impl ContainerWait {
    /// Whether the body of an answer with `status` is read as an engine error.
    pub fn reads_error(status: u16) -> (r: bool)
        ensures
            r == (status == 400 || status == 404 || status == 500),
    {
        status == 400 || status == 404 || status == 500
    }

    /// The outcome for a non-success `status`, given the engine error read
    /// from the body where [`Self::reads_error`] asks for one.
    pub fn from_status(url: &str, status: u16, error: Option<ErrorResponse>) -> (r: DockerResult<ContainerWait>)
        ensures
            status == 400 && error is Some ==> r == Ok::<ContainerWait, DockerError>(ContainerWait::BadParameter(error->Some_0)),
            status == 404 && error is Some ==> r == Ok::<ContainerWait, DockerError>(ContainerWait::NoSuchContainer(error->Some_0)),
            status == 500 && error is Some ==> r == Ok::<ContainerWait, DockerError>(ContainerWait::ServerError(error->Some_0)),
            !((status == 400 || status == 404 || status == 500) && error is Some) ==> r is Err && r->Err_0 is StatusFailed && r->Err_0->StatusFailed_0@ == url@
                && r->Err_0->StatusFailed_1 == status,
    {
        let error = match error {
            Some(error) => error,
            None => return Err(unexpected_status(url, status)),
        };
        match status {
            400 => Ok(ContainerWait::BadParameter(error)),
            404 => Ok(ContainerWait::NoSuchContainer(error)),
            500 => Ok(ContainerWait::ServerError(error)),
            _ => Err(unexpected_status(url, status)),
        }
    }
}

/// The outcome of `DELETE /containers/{id}`.
#[derive(Debug)]
pub enum ContainerRemove {
    Succeeded,
    BadParameter(ErrorResponse),
    NoSuchContainer(ErrorResponse),
    Conflict(ErrorResponse),
    ServerError(ErrorResponse),
}

impl ContainerRemove {
    /// Whether the body of an answer with `status` is read as an engine error.
    pub fn reads_error(status: u16) -> (r: bool)
        ensures
            r == (status == 400 || status == 404 || status == 409 || status == 500),
    {
        status == 400 || status == 404 || status == 409 || status == 500
    }

    /// The outcome for a non-success `status`, given the engine error read
    /// from the body where [`Self::reads_error`] asks for one.
    pub fn from_status(url: &str, status: u16, error: Option<ErrorResponse>) -> (r: DockerResult<ContainerRemove>)
        ensures
            status == 400 && error is Some ==> r == Ok::<ContainerRemove, DockerError>(ContainerRemove::BadParameter(error->Some_0)),
            status == 404 && error is Some ==> r == Ok::<ContainerRemove, DockerError>(ContainerRemove::NoSuchContainer(error->Some_0)),
            status == 409 && error is Some ==> r == Ok::<ContainerRemove, DockerError>(ContainerRemove::Conflict(error->Some_0)),
            status == 500 && error is Some ==> r == Ok::<ContainerRemove, DockerError>(ContainerRemove::ServerError(error->Some_0)),
            !((status == 400 || status == 404 || status == 409 || status == 500) && error is Some) ==> r is Err && r->Err_0 is StatusFailed && r->Err_0->StatusFailed_0@ == url@
                && r->Err_0->StatusFailed_1 == status,
    {
        let error = match error {
            Some(error) => error,
            None => return Err(unexpected_status(url, status)),
        };
        match status {
            400 => Ok(ContainerRemove::BadParameter(error)),
            404 => Ok(ContainerRemove::NoSuchContainer(error)),
            409 => Ok(ContainerRemove::Conflict(error)),
            500 => Ok(ContainerRemove::ServerError(error)),
            _ => Err(unexpected_status(url, status)),
        }
    }
}

/// The outcome of `GET /containers/{id}/logs`.
#[derive(Debug)]
pub enum ContainerLogs<S> {
    Succeeded(S),
    NoSuchContainer(ErrorResponse),
    ServerError(ErrorResponse),
}

impl<S> ContainerLogs<S> {
    /// Whether the body of an answer with `status` is read as an engine error.
    pub fn reads_error(status: u16) -> (r: bool)
        ensures
            r == (status == 404 || status == 500),
    {
        status == 404 || status == 500
    }

    /// The outcome for a non-success `status`, given the engine error read
    /// from the body where [`Self::reads_error`] asks for one.
    pub fn from_status(url: &str, status: u16, error: Option<ErrorResponse>) -> (r: DockerResult<ContainerLogs<S>>)
        ensures
            status == 404 && error is Some ==> r == Ok::<ContainerLogs<S>, DockerError>(ContainerLogs::NoSuchContainer(error->Some_0)),
            status == 500 && error is Some ==> r == Ok::<ContainerLogs<S>, DockerError>(ContainerLogs::ServerError(error->Some_0)),
            !((status == 404 || status == 500) && error is Some) ==> r is Err && r->Err_0 is StatusFailed && r->Err_0->StatusFailed_0@ == url@
                && r->Err_0->StatusFailed_1 == status,
    {
        let error = match error {
            Some(error) => error,
            None => return Err(unexpected_status(url, status)),
        };
        match status {
            404 => Ok(ContainerLogs::NoSuchContainer(error)),
            500 => Ok(ContainerLogs::ServerError(error)),
            _ => Err(unexpected_status(url, status)),
        }
    }
}

/// The outcome of `POST /containers/{id}/attach`.
#[derive(Debug)]
pub enum ContainerAttach<S> {
    Succeeded(S),
    BadParameter(ErrorResponse),
    NoSuchContainer(ErrorResponse),
    ServerError(ErrorResponse),
}

impl<S> ContainerAttach<S> {
    /// Whether the body of an answer with `status` is read as an engine error.
    pub fn reads_error(status: u16) -> (r: bool)
        ensures
            r == (status == 400 || status == 404 || status == 500),
    {
        status == 400 || status == 404 || status == 500
    }

    /// The outcome for a non-success `status`, given the engine error read
    /// from the body where [`Self::reads_error`] asks for one.
    pub fn from_status(url: &str, status: u16, error: Option<ErrorResponse>) -> (r: DockerResult<ContainerAttach<S>>)
        ensures
            status == 400 && error is Some ==> r == Ok::<ContainerAttach<S>, DockerError>(ContainerAttach::BadParameter(error->Some_0)),
            status == 404 && error is Some ==> r == Ok::<ContainerAttach<S>, DockerError>(ContainerAttach::NoSuchContainer(error->Some_0)),
            status == 500 && error is Some ==> r == Ok::<ContainerAttach<S>, DockerError>(ContainerAttach::ServerError(error->Some_0)),
            !((status == 400 || status == 404 || status == 500) && error is Some) ==> r is Err && r->Err_0 is StatusFailed && r->Err_0->StatusFailed_0@ == url@
                && r->Err_0->StatusFailed_1 == status,
    {
        let error = match error {
            Some(error) => error,
            None => return Err(unexpected_status(url, status)),
        };
        match status {
            400 => Ok(ContainerAttach::BadParameter(error)),
            404 => Ok(ContainerAttach::NoSuchContainer(error)),
            500 => Ok(ContainerAttach::ServerError(error)),
            _ => Err(unexpected_status(url, status)),
        }
    }
}

/// The outcome of `PUT /containers/{id}/archive`.
#[derive(Debug)]
pub enum ContainerUpload {
    Succeeded,
    BadParameter(ErrorResponse),
    PermissionDenied(ErrorResponse),
    NoSuchContainer(ErrorResponse),
    ServerError(ErrorResponse),
}

impl ContainerUpload {
    /// Whether the body of an answer with `status` is read as an engine error.
    pub fn reads_error(status: u16) -> (r: bool)
        ensures
            r == (status == 400 || status == 403 || status == 404 || status == 500),
    {
        status == 400 || status == 403 || status == 404 || status == 500
    }

    /// The outcome for a non-success `status`, given the engine error read
    /// from the body where [`Self::reads_error`] asks for one.
    pub fn from_status(url: &str, status: u16, error: Option<ErrorResponse>) -> (r: DockerResult<ContainerUpload>)
        ensures
            status == 400 && error is Some ==> r == Ok::<ContainerUpload, DockerError>(ContainerUpload::BadParameter(error->Some_0)),
            status == 403 && error is Some ==> r == Ok::<ContainerUpload, DockerError>(ContainerUpload::PermissionDenied(error->Some_0)),
            status == 404 && error is Some ==> r == Ok::<ContainerUpload, DockerError>(ContainerUpload::NoSuchContainer(error->Some_0)),
            status == 500 && error is Some ==> r == Ok::<ContainerUpload, DockerError>(ContainerUpload::ServerError(error->Some_0)),
            !((status == 400 || status == 403 || status == 404 || status == 500) && error is Some) ==> r is Err && r->Err_0 is StatusFailed && r->Err_0->StatusFailed_0@ == url@
                && r->Err_0->StatusFailed_1 == status,
    {
        let error = match error {
            Some(error) => error,
            None => return Err(unexpected_status(url, status)),
        };
        match status {
            400 => Ok(ContainerUpload::BadParameter(error)),
            403 => Ok(ContainerUpload::PermissionDenied(error)),
            404 => Ok(ContainerUpload::NoSuchContainer(error)),
            500 => Ok(ContainerUpload::ServerError(error)),
            _ => Err(unexpected_status(url, status)),
        }
    }
}

/// The outcome of `POST /images/create`.
#[derive(Debug)]
pub enum ImageCreate<S> {
    Succeeded(S),
    NoReadAccess(ErrorResponse),
    ServerError(ErrorResponse),
}

impl<S> ImageCreate<S> {
    /// Whether the body of an answer with `status` is read as an engine error.
    pub fn reads_error(status: u16) -> (r: bool)
        ensures
            r == (status == 404 || status == 500),
    {
        status == 404 || status == 500
    }

    /// The outcome for a non-success `status`, given the engine error read
    /// from the body where [`Self::reads_error`] asks for one.
    pub fn from_status(url: &str, status: u16, error: Option<ErrorResponse>) -> (r: DockerResult<ImageCreate<S>>)
        ensures
            status == 404 && error is Some ==> r == Ok::<ImageCreate<S>, DockerError>(ImageCreate::NoReadAccess(error->Some_0)),
            status == 500 && error is Some ==> r == Ok::<ImageCreate<S>, DockerError>(ImageCreate::ServerError(error->Some_0)),
            !((status == 404 || status == 500) && error is Some) ==> r is Err && r->Err_0 is StatusFailed && r->Err_0->StatusFailed_0@ == url@
                && r->Err_0->StatusFailed_1 == status,
    {
        let error = match error {
            Some(error) => error,
            None => return Err(unexpected_status(url, status)),
        };
        match status {
            404 => Ok(ImageCreate::NoReadAccess(error)),
            500 => Ok(ImageCreate::ServerError(error)),
            _ => Err(unexpected_status(url, status)),
        }
    }
}

} // verus!
