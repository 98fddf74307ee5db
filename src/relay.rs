use vstd::prelude::*;
use serde_json::Value;
use crate::json::{json_text_of, to_json_text};

verus! {

/// The query of a start request: the stream to analyse, if given.
pub struct StartQuery {
    pub rtsp: Option<String>,
}

/// A bare acknowledgment returned to the client.
#[derive(Clone, Copy, Debug, PartialEq, Eq, Structural)]
pub struct OkResp {
    pub ok: bool,
}

/// The body of a parameter update: the camera it is for, and the parameters.
pub struct PolicyCompileBody {
    pub site_id: String,
    pub camera_id: String,
    pub params: Value,
}

/// The worker's acknowledgment of a command.
pub struct Ack {
    pub ok: bool,
    pub msg: String,
}

/// The reply to a start request: the worker's acknowledgment.
pub struct StartReply {
    pub ok: bool,
    pub msg: String,
}

/// Why a request failed.
#[derive(Clone, Copy, Debug, PartialEq, Eq, Structural)]
pub enum ApiError {
    /// The request lacks what it needs; nothing was forwarded.
    BadRequest,
    /// The worker could not be reached or failed the call.
    BadGateway,
    /// Relaying a parameter update failed, in serialisation or transport.
    Internal,
}

impl ApiError {
    /// The HTTP status of the error.
    pub open spec fn spec_status(self) -> u16 {
        match self {
            ApiError::BadRequest => 400,
            ApiError::BadGateway => 502,
            ApiError::Internal => 500,
        }
    }

    /// The HTTP status of the error.
    #[verifier::when_used_as_spec(spec_status)]
    pub fn status(self) -> (r: u16)
        ensures
            r == self.spec_status(),
    {
        match self {
            ApiError::BadRequest => 400,
            ApiError::BadGateway => 502,
            ApiError::Internal => 500,
        }
    }
}

/// A command for the worker that serves a site's camera.
pub enum WorkerCommand {
    Start { site: String, camera: String, source: String },
    Stop { site: String, camera: String },
    SetParams { site: String, camera: String, params_json: String },
}

/// The stream a start request resolves to: the one given, where it is not
/// empty, else the process-wide default, where it is not empty.
pub open spec fn resolved_source(given: Option<String>, default: Option<String>) -> Option<Seq<char>> {
    if given.is_some() && given.unwrap()@.len() > 0 {
        Some(given.unwrap()@)
    } else if default.is_some() && default.unwrap()@.len() > 0 {
        Some(default.unwrap()@)
    } else {
        None
    }
}

fn non_empty(s: Option<String>) -> (r: Option<String>)
    ensures
        r == (if s.is_some() && s.unwrap()@.len() > 0 { s } else { None::<String> }),
{
    match s {
        Some(v) => {
            if v.as_str().unicode_len() > 0 {
                Some(v)
            } else {
                None
            }
        },
        None => None,
    }
}

/// The start command for `site`, `cam`, or `BadRequest` where no stream
/// resolves (and then nothing is forwarded).
pub fn start_command(site: &str, cam: &str, q: StartQuery, default_source: Option<String>) -> (r: Result<WorkerCommand, ApiError>)
    ensures
        match r {
            Ok(WorkerCommand::Start { site: s, camera: c, source }) => {
                &&& s@ == site@
                &&& c@ == cam@
                &&& resolved_source(q.rtsp, default_source) == Some(source@)
            },
            Ok(_) => false,
            Err(e) => e == ApiError::BadRequest && resolved_source(q.rtsp, default_source).is_none(),
        },
{
    let given = non_empty(q.rtsp);
    let source = match given {
        Some(s) => s,
        None => match non_empty(default_source) {
            Some(d) => d,
            None => return Err(ApiError::BadRequest),
        },
    };
    Ok(WorkerCommand::Start { site: site.to_owned(), camera: cam.to_owned(), source })
}

/// The reply to a start request once the worker has answered: its
/// acknowledgment as it came, or `BadGateway` where the call failed.
pub fn start_reply(outcome: Result<Ack, String>) -> (r: Result<StartReply, ApiError>)
    ensures
        match (outcome, r) {
            (Ok(ack), Ok(rep)) => rep.ok == ack.ok && rep.msg == ack.msg,
            (Err(_), Err(e)) => e == ApiError::BadGateway,
            _ => false,
        },
{
    match outcome {
        Ok(ack) => Ok(StartReply { ok: ack.ok, msg: ack.msg }),
        Err(_) => Err(ApiError::BadGateway),
    }
}

/// The stop command for `site`, `cam`; it is always forwarded.
pub fn stop_command(site: &str, cam: &str) -> (r: WorkerCommand)
    ensures
        match r {
            WorkerCommand::Stop { site: s, camera: c } => s@ == site@ && c@ == cam@,
            _ => false,
        },
{
    WorkerCommand::Stop { site: site.to_owned(), camera: cam.to_owned() }
}

/// The reply to a stop request: `{ok: true}` once the worker answered,
/// whatever it said, or `BadGateway` where the call failed.
pub fn stop_reply(outcome: &Result<Ack, String>) -> (r: Result<OkResp, ApiError>)
    ensures
        outcome.is_ok() ==> r == Ok::<OkResp, ApiError>(OkResp { ok: true }),
        outcome.is_err() ==> r == Err::<OkResp, ApiError>(ApiError::BadGateway),
{
    match outcome {
        Ok(_) => Ok(OkResp { ok: true }),
        Err(_) => Err(ApiError::BadGateway),
    }
}

/// The parameter update for `site`, `cam` once the parameters were
/// serialised: the JSON text where serialisation succeeded, else `Internal`.
pub fn params_command(site: &str, cam: &str, text: Option<String>) -> (r: Result<WorkerCommand, ApiError>)
    ensures
        match (text, r) {
            (Some(t), Ok(WorkerCommand::SetParams { site: s, camera: c, params_json })) => {
                &&& s@ == site@
                &&& c@ == cam@
                &&& params_json == t
            },
            (None, Err(e)) => e == ApiError::Internal,
            _ => false,
        },
{
    match text {
        Some(t) => Ok(WorkerCommand::SetParams { site: site.to_owned(), camera: cam.to_owned(), params_json: t }),
        None => Err(ApiError::Internal),
    }
}

/// The parameter update for the camera of `body`: its parameters as JSON
/// text, unchecked otherwise (the worker validates them). A JSON value
/// always serialises, so this always succeeds.
pub fn compile_params(body: &PolicyCompileBody) -> (r: Result<WorkerCommand, ApiError>)
    ensures
        r.is_ok(),
        match r {
            Ok(WorkerCommand::SetParams { site, camera, params_json }) => {
                &&& site@ == body.site_id@
                &&& camera@ == body.camera_id@
                &&& params_json@ == json_text_of(body.params)
            },
            Ok(_) => false,
            Err(e) => e == ApiError::Internal,
        },
{
    let text = match to_json_text(&body.params) {
        Ok(t) => Some(t),
        Err(_) => None,
    };
    params_command(body.site_id.as_str(), body.camera_id.as_str(), text)
}

/// The reply to a parameter update: `{ok: true}` once the worker answered,
/// or `Internal` where the call failed.
pub fn policy_reply(outcome: &Result<Ack, String>) -> (r: Result<OkResp, ApiError>)
    ensures
        outcome.is_ok() ==> r == Ok::<OkResp, ApiError>(OkResp { ok: true }),
        outcome.is_err() ==> r == Err::<OkResp, ApiError>(ApiError::Internal),
{
    match outcome {
        Ok(_) => Ok(OkResp { ok: true }),
        Err(_) => Err(ApiError::Internal),
    }
}

} // verus!
