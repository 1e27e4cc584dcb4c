use vstd::prelude::*;
use vstd::string::StringExecFns;
use crate::json::{json_text, to_json_text};
use crate::payload::{Json, Payload};

verus! {

/// The mathematical model of an error.
pub ghost enum Failure {
    NotConnected,
    ConnectionFailed(Seq<char>),
    ConnectionClosed(Seq<char>),
    SendFailed(Seq<char>),
    ParseError(Seq<char>),
    RequestTimeout(u64),
    ApiResponse(Json),
    OneshotRecvError,
    IoError(Seq<char>),
    TauriError(Seq<char>),
    Other(Seq<char>),
}

/// What can go wrong in a session.
///
/// `RequestTimeout` holds the time waited in milliseconds. `ParseError` and
/// `IoError` hold the text of the underlying error. `OneshotRecvError` says
/// that a completion slot was dropped before it was completed.
#[derive(Debug, PartialEq, Eq)]
pub enum Error {
    NotConnected,
    ConnectionFailed(String),
    ConnectionClosed(String),
    SendFailed(String),
    ParseError(String),
    RequestTimeout(u64),
    ApiResponse(Payload),
    OneshotRecvError,
    IoError(String),
    TauriError(String),
    Other(String),
}

pub type ClientResult<T> = Result<T, Error>;

impl View for Error {
    type V = Failure;

    open spec fn view(&self) -> Failure {
        match self {
            Error::NotConnected => Failure::NotConnected,
            Error::ConnectionFailed(s) => Failure::ConnectionFailed(s@),
            Error::ConnectionClosed(s) => Failure::ConnectionClosed(s@),
            Error::SendFailed(s) => Failure::SendFailed(s@),
            Error::ParseError(s) => Failure::ParseError(s@),
            Error::RequestTimeout(ms) => Failure::RequestTimeout(*ms),
            Error::ApiResponse(p) => Failure::ApiResponse(p@),
            Error::OneshotRecvError => Failure::OneshotRecvError,
            Error::IoError(s) => Failure::IoError(s@),
            Error::TauriError(s) => Failure::TauriError(s@),
            Error::Other(s) => Failure::Other(s@),
        }
    }
}

/// The text with which `Duration`'s `Debug` writes a time given in
/// milliseconds.
pub uninterp spec fn duration_text(millis: u64) -> Seq<char>;

/// The text with which `RecvError` of a one-shot channel is displayed.
pub open spec fn recv_error_text() -> Seq<char> {
    "channel closed"@
}

/// Formats `Duration::from_millis(millis)` with `{:?}`.
#[verifier::external_body]
fn format_duration(millis: u64) -> (out: String)
    ensures
        out@ == duration_text(millis),
{
    format!("{:?}", std::time::Duration::from_millis(millis))
}

/// Either side of a written payload: the text, or the text of the error.
pub open spec fn written(r: Result<Seq<char>, Seq<char>>) -> Seq<char> {
    match r {
        Ok(s) => s,
        Err(s) => s,
    }
}

/// The message that describes an error.
pub open spec fn error_text(e: Failure) -> Seq<char> {
    match e {
        Failure::NotConnected => "Клиент не подключен"@,
        Failure::ConnectionFailed(s) => "Ошибка подключения: "@ + s,
        Failure::ConnectionClosed(s) => "Соединение оборвано: "@ + s,
        Failure::SendFailed(s) => "Ошибка отправки: "@ + s,
        Failure::ParseError(s) => "Ошибка парсинга JSON: "@ + s,
        Failure::RequestTimeout(ms) => "Таймаут запроса: "@ + duration_text(ms),
        Failure::ApiResponse(p) => "Ошибка API: "@ + written(json_text(p)),
        Failure::OneshotRecvError => "Ошибка получения ответа: "@ + recv_error_text(),
        Failure::IoError(s) => "Ошибка I/O: "@ + s,
        Failure::TauriError(s) => "Ошибка Tauri: "@ + s,
        Failure::Other(s) => "Неизвестная ошибка: "@ + s,
    }
}

fn prefixed(prefix: &str, detail: &str) -> (out: String)
    ensures
        out@ == prefix@ + detail@,
{
    let mut out = prefix.to_owned();
    out.append(detail);
    out
}

impl Error {
    /// The message that describes this error.
    pub fn to_string(&self) -> (out: String)
        ensures
            out@ == error_text(self@),
    {
        match self {
            Error::NotConnected => "Клиент не подключен".to_owned(),
            Error::ConnectionFailed(s) => prefixed("Ошибка подключения: ", s.as_str()),
            Error::ConnectionClosed(s) => prefixed("Соединение оборвано: ", s.as_str()),
            Error::SendFailed(s) => prefixed("Ошибка отправки: ", s.as_str()),
            Error::ParseError(s) => prefixed("Ошибка парсинга JSON: ", s.as_str()),
            Error::RequestTimeout(ms) => {
                let d = format_duration(*ms);
                prefixed("Таймаут запроса: ", d.as_str())
            },
            Error::ApiResponse(p) => {
                let text = match to_json_text(p) {
                    Ok(s) => s,
                    Err(s) => s,
                };
                prefixed("Ошибка API: ", text.as_str())
            },
            Error::OneshotRecvError => prefixed("Ошибка получения ответа: ", "channel closed"),
            Error::IoError(s) => prefixed("Ошибка I/O: ", s.as_str()),
            Error::TauriError(s) => prefixed("Ошибка Tauri: ", s.as_str()),
            Error::Other(s) => prefixed("Неизвестная ошибка: ", s.as_str()),
        }
    }
}

impl Clone for Error {
    fn clone(&self) -> (out: Self)
        ensures
            out@ == self@,
    {
        match self {
            Error::NotConnected => Error::NotConnected,
            Error::ConnectionFailed(s) => Error::ConnectionFailed(s.clone()),
            Error::ConnectionClosed(s) => Error::ConnectionClosed(s.clone()),
            Error::SendFailed(s) => Error::SendFailed(s.clone()),
            Error::ParseError(s) => Error::ParseError(s.clone()),
            Error::RequestTimeout(ms) => Error::RequestTimeout(*ms),
            Error::ApiResponse(p) => Error::ApiResponse(p.clone()),
            Error::OneshotRecvError => Error::OneshotRecvError,
            Error::IoError(s) => Error::IoError(s.clone()),
            Error::TauriError(s) => Error::TauriError(s.clone()),
            Error::Other(s) => Error::Other(s.clone()),
        }
    }
}

impl From<String> for Error {
    fn from(s: String) -> (out: Error) {
        Error::Other(s)
    }
}

impl vstd::std_specs::convert::FromSpecImpl<String> for Error {
    open spec fn obeys_from_spec() -> bool {
        true
    }

    open spec fn from_spec(s: String) -> Error {
        Error::Other(s)
    }
}

} // verus!
