//! The local control surface: which command an HTTP request stands for,
//! and what is answered for each reply.

use crate::address::AbortDownloadResponse;
use crate::address::InfoResponse;
use crate::address::ProbeResponse;
use crate::address::Response;
use crate::address::StateResponse;
use crate::text::same;
use vstd::prelude::*;

verus! {

/// What a request to the control surface asks for.
#[derive(Debug, Clone, Copy, PartialEq, Eq, Structural)]
pub enum Endpoint {
    Info,
    /// The memory log.
    Log,
    Probe,
    AbortDownload,
    LocalInstall,
    RemoteInstall,
}

/// The content of an answer, before it is written as JSON.
#[derive(Debug, Clone, PartialEq, Eq)]
pub enum Body {
    /// The snapshot of the agent.
    Info(InfoResponse),
    /// An object with the member `message`.
    Message(&'static str),
    /// An object with the member `error`.
    Error(&'static str),
    /// An object with the members `busy` and `current-state`.
    Probe { busy: bool, current_state: &'static str },
    /// An object with the member `state`.
    State(&'static str),
}

/// An answer of the control surface.
#[derive(Debug, Clone, PartialEq, Eq)]
pub struct HttpResponse {
    pub status: u16,
    pub body: Body,
}

/// The endpoint behind a method and a path.
pub open spec fn routed(method: Seq<char>, path: Seq<char>) -> Option<Endpoint> {
    if method == "GET"@ && path == "/info"@ {
        Some(Endpoint::Info)
    } else if method == "GET"@ && path == "/log"@ {
        Some(Endpoint::Log)
    } else if method == "POST"@ && path == "/probe"@ {
        Some(Endpoint::Probe)
    } else if method == "POST"@ && path == "/update/download/abort"@ {
        Some(Endpoint::AbortDownload)
    } else if method == "POST"@ && path == "/local-install"@ {
        Some(Endpoint::LocalInstall)
    } else if method == "POST"@ && path == "/remote-install"@ {
        Some(Endpoint::RemoteInstall)
    } else {
        None
    }
}

/// Finds the endpoint that a request is for.
pub fn route(method: &str, path: &str) -> (r: Option<Endpoint>)
    ensures
        r == routed(method@, path@),
{
    let get = same(method, "GET");
    let post = same(method, "POST");
    if get && same(path, "/info") {
        Some(Endpoint::Info)
    } else if get && same(path, "/log") {
        Some(Endpoint::Log)
    } else if post && same(path, "/probe") {
        Some(Endpoint::Probe)
    } else if post && same(path, "/update/download/abort") {
        Some(Endpoint::AbortDownload)
    } else if post && same(path, "/local-install") {
        Some(Endpoint::LocalInstall)
    } else if post && same(path, "/remote-install") {
        Some(Endpoint::RemoteInstall)
    } else {
        None
    }
}

/// The answer to a reply. `current_state` is the name of the state that
/// the agent is in once the command is handled; a probe that was accepted
/// is answered with it.
pub open spec fn answer(response: Response, current_state: &'static str) -> HttpResponse {
    match response {
        Response::Info(info) => HttpResponse { status: 200, body: Body::Info(info) },
        Response::Probe(ProbeResponse::Busy(state)) => HttpResponse {
            status: 200,
            body: Body::Probe { busy: true, current_state: state },
        },
        Response::Probe(_) => HttpResponse {
            status: 200,
            body: Body::Probe { busy: false, current_state },
        },
        Response::AbortDownload(AbortDownloadResponse::RequestAccepted) => HttpResponse {
            status: 200,
            body: Body::Message("request accepted, download aborted"),
        },
        Response::AbortDownload(AbortDownloadResponse::InvalidState) => HttpResponse {
            status: 400,
            body: Body::Error("there is no download to be aborted"),
        },
        Response::LocalInstall(StateResponse::RequestAccepted(state)) => HttpResponse {
            status: 200,
            body: Body::State(state),
        },
        Response::LocalInstall(StateResponse::InvalidState(state)) => HttpResponse {
            status: 400,
            body: Body::State(state),
        },
        Response::RemoteInstall(StateResponse::RequestAccepted(state)) => HttpResponse {
            status: 200,
            body: Body::State(state),
        },
        Response::RemoteInstall(StateResponse::InvalidState(state)) => HttpResponse {
            status: 400,
            body: Body::State(state),
        },
    }
}

/// Turns a reply into the answer of the control surface.
pub fn respond_to(response: Response, current_state: &'static str) -> (r: HttpResponse)
    ensures
        r == answer(response, current_state),
{
    match response {
        Response::Info(info) => HttpResponse { status: 200, body: Body::Info(info) },
        Response::Probe(ProbeResponse::Busy(state)) => HttpResponse {
            status: 200,
            body: Body::Probe { busy: true, current_state: state },
        },
        Response::Probe(_) => HttpResponse {
            status: 200,
            body: Body::Probe { busy: false, current_state },
        },
        Response::AbortDownload(AbortDownloadResponse::RequestAccepted) => HttpResponse {
            status: 200,
            body: Body::Message("request accepted, download aborted"),
        },
        Response::AbortDownload(AbortDownloadResponse::InvalidState) => HttpResponse {
            status: 400,
            body: Body::Error("there is no download to be aborted"),
        },
        Response::LocalInstall(StateResponse::RequestAccepted(state)) => HttpResponse {
            status: 200,
            body: Body::State(state),
        },
        Response::LocalInstall(StateResponse::InvalidState(state)) => HttpResponse {
            status: 400,
            body: Body::State(state),
        },
        Response::RemoteInstall(StateResponse::RequestAccepted(state)) => HttpResponse {
            status: 200,
            body: Body::State(state),
        },
        Response::RemoteInstall(StateResponse::InvalidState(state)) => HttpResponse {
            status: 400,
            body: Body::State(state),
        },
    }
}

} // verus!
