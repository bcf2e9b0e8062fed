use crate::errors::ApiError;
use crate::request::Payload;
use vstd::prelude::*;
use vstd::string::StringExecFns;

verus! {

/// What came back from one generation call, as plain values: either the
/// transport itself failed, or the endpoint replied with a status and (when
/// the body parsed into the expected shape) a payload.
#[derive(Debug, Clone, PartialEq, Eq)]
pub enum GenResponse {
    TransportFailed(String),
    Replied { status: u16, payload: Option<Payload> },
}

/// What came back from one download attempt. `Completed` means every chunk
/// was written in order and the file was flushed; anything else names the
/// step that failed.
#[derive(Debug, Clone, PartialEq, Eq)]
pub enum DownloadEvent {
    TransportFailed(String),
    BadStatus(u16),
    FileError(String),
    Completed,
}

/// The typed outcome a generation response translates to: the first image
/// URL on success, or the error of the step that failed.
pub open spec fn gen_outcome_spec(resp: GenResponse) -> Result<Seq<char>, ApiError> {
    match resp {
        GenResponse::TransportFailed(m) => Err(ApiError::Transport(m)),
        GenResponse::Replied { status, payload } => {
            if status != 200 {
                Err(ApiError::Remote(status))
            } else {
                match payload {
                    None => Err(ApiError::Protocol),
                    Some(p) => {
                        if p.data@.len() == 0 {
                            Err(ApiError::Protocol)
                        } else {
                            Ok(p.data@[0].url@)
                        }
                    },
                }
            }
        },
    }
}

/// The error a failed download translates to.
pub open spec fn download_err_spec(ev: DownloadEvent) -> ApiError
    recommends
        ev !is Completed,
{
    match ev {
        DownloadEvent::TransportFailed(m) => ApiError::Transport(m),
        DownloadEvent::BadStatus(code) => ApiError::Remote(code),
        DownloadEvent::FileError(m) => ApiError::Filesystem(m),
        DownloadEvent::Completed => ApiError::Protocol,
    }
}

/// Translate a generation response into its typed outcome: a transport
/// failure or a non-200 status or a malformed/empty body is the matching
/// error; otherwise the first URL of the payload is returned.
pub fn generation_outcome(resp: GenResponse) -> (r: Result<String, ApiError>)
    ensures
        r is Ok <==> gen_outcome_spec(resp) is Ok,
        r is Ok ==> r->Ok_0@ == gen_outcome_spec(resp)->Ok_0,
        r is Err ==> r == Err::<String, ApiError>(gen_outcome_spec(resp)->Err_0),
{
    match resp {
        GenResponse::TransportFailed(m) => Err(ApiError::Transport(m)),
        GenResponse::Replied { status, payload } => {
            if status != 200 {
                Err(ApiError::Remote(status))
            } else {
                match payload {
                    None => Err(ApiError::Protocol),
                    Some(p) => p.first_url(),
                }
            }
        },
    }
}

/// Translate a download event into its typed outcome: success exactly when
/// every byte was written and flushed.
pub fn download_outcome(ev: DownloadEvent) -> (r: Result<(), ApiError>)
    ensures
        r is Ok <==> ev is Completed,
        r is Err ==> r == Err::<(), ApiError>(download_err_spec(ev)),
{
    match ev {
        DownloadEvent::TransportFailed(m) => Err(ApiError::Transport(m)),
        DownloadEvent::BadStatus(code) => Err(ApiError::Remote(code)),
        DownloadEvent::FileError(m) => Err(ApiError::Filesystem(m)),
        DownloadEvent::Completed => Ok(()),
    }
}

/// The shared, read-only header values every call carries.
#[derive(Debug, Clone, PartialEq, Eq)]
pub struct Config {
    pub content_type: String,
    pub authorization: String,
}

/// Build the shared configuration from the credential, if one was found in
/// the environment. A missing credential is fatal before any work starts:
/// no task is scheduled and no network call is made without an `Ok` here.
pub fn build_config(key: Option<String>) -> (r: Result<Config, ApiError>)
    ensures
        key is None ==> r == Err::<Config, ApiError>(ApiError::Config),
        (key matches Some(k) ==> {
            &&& r is Ok
            &&& r->Ok_0.content_type@ == "application/json"@
            &&& r->Ok_0.authorization@ == "Bearer "@ + k@
        }),
{
    match key {
        None => Err(ApiError::Config),
        Some(k) => {
            let mut auth = "Bearer ".to_owned();
            auth.append(k.as_str());
            Ok(Config { content_type: "application/json".to_owned(), authorization: auth })
        },
    }
}

/// The generation endpoint all requests are posted to.
pub fn generation_endpoint() -> (s: String)
    ensures
        s@ == "https://api.openai.com/v1/images/generations"@,
{
    "https://api.openai.com/v1/images/generations".to_owned()
}

} // verus!
