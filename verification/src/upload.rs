//! One upload: what is sent, and how the answer is classified.
//!
//! The transfer itself happens outside this library. The caller is told the
//! address, the header and the file name to use, reports how the exchange
//! went as an [`UploadExchange`], and gets back the outcome of the attempt.

use vstd::prelude::*;
use crate::paths::{file_name_of, final_component};
use crate::status::{format_status_line, reason_of, status_line_with, status_reason};
use crate::text::{concat2, str_text_of, strip_trailing, text_of, without_trailing};

verus! {

/// How long one upload may take before it is given up, in seconds.
pub const UPLOAD_TIMEOUT_SECS: u64 = 600;

/// The counters that the service reports for an imported file.
#[derive(Clone, Copy, Debug, PartialEq, Eq)]
pub struct UploadData {
    pub modified_count: i32,
    pub upserted_count: i32,
    pub excel_count: i32,
}

/// The body of the service's answer to an upload.
#[derive(Clone, Debug, PartialEq, Eq)]
pub struct UploadResult {
    pub success: bool,
    pub data: Option<UploadData>,
    pub message: Option<String>,
}

/// What became of one attempted upload that reached a verdict.
#[derive(Clone, Debug, PartialEq, Eq)]
pub enum UploadOutcome {
    /// The service imported the file.
    Success { modified_count: i32, upserted_count: i32, excel_count: i32 },
    /// The service answered and refused the file.
    ApplicationFailure { message: String },
    /// The request or its answer was lost on the way.
    TransportFailure { error: String },
    /// The attempt ran into its time limit and was abandoned.
    Timeout,
}

/// Why an upload could not even be attempted.
#[derive(Clone, Debug, PartialEq, Eq)]
pub enum UploadError {
    /// The file was no longer there.
    NotFound { path: String },
    /// The file was there and could not be read.
    ReadFailed,
}

/// How one exchange with the service went, as the caller observed it.
#[derive(Clone, Debug, PartialEq, Eq)]
pub enum UploadExchange {
    /// The file does not exist.
    FileMissing,
    /// The file exists and reading it failed.
    ReadFailed,
    /// The request could not be sent or no answer came back.
    SendFailed,
    /// The service answered with a status outside the success class. `body`
    /// is the text of the answer, or `None` where it could not be read.
    Refused { status: u16, body: Option<String> },
    /// The service answered with a success status and a body that could not
    /// be decoded.
    Undecodable,
    /// The service answered with a success status and this body.
    Answered { result: UploadResult },
    /// The time limit passed before the exchange ended.
    TimedOut,
}

/// The mathematical value of an [`UploadResult`].
pub struct UploadResultModel {
    pub success: bool,
    pub data: Option<UploadData>,
    pub message: Option<Seq<char>>,
}

/// The mathematical value of an [`UploadOutcome`].
pub enum OutcomeModel {
    Success { modified_count: i32, upserted_count: i32, excel_count: i32 },
    ApplicationFailure { message: Seq<char> },
    TransportFailure { error: Seq<char> },
    Timeout,
}

/// The mathematical value of an [`UploadError`].
pub enum UploadErrorModel {
    NotFound { path: Seq<char> },
    ReadFailed,
}

/// The mathematical value of an [`UploadExchange`].
pub enum ExchangeModel {
    FileMissing,
    ReadFailed,
    SendFailed,
    Refused { status: u16, body: Option<Seq<char>> },
    Undecodable,
    Answered { result: UploadResultModel },
    TimedOut,
}

impl View for UploadResult {
    type V = UploadResultModel;

    open spec fn view(&self) -> UploadResultModel {
        UploadResultModel { success: self.success, data: self.data, message: text_of(self.message) }
    }
}

impl View for UploadOutcome {
    type V = OutcomeModel;

    open spec fn view(&self) -> OutcomeModel {
        match *self {
            UploadOutcome::Success { modified_count, upserted_count, excel_count } => {
                OutcomeModel::Success { modified_count, upserted_count, excel_count }
            },
            UploadOutcome::ApplicationFailure { message } => OutcomeModel::ApplicationFailure {
                message: message@,
            },
            UploadOutcome::TransportFailure { error } => OutcomeModel::TransportFailure {
                error: error@,
            },
            UploadOutcome::Timeout => OutcomeModel::Timeout,
        }
    }
}

impl View for UploadError {
    type V = UploadErrorModel;

    open spec fn view(&self) -> UploadErrorModel {
        match *self {
            UploadError::NotFound { path } => UploadErrorModel::NotFound { path: path@ },
            UploadError::ReadFailed => UploadErrorModel::ReadFailed,
        }
    }
}

impl View for UploadExchange {
    type V = ExchangeModel;

    open spec fn view(&self) -> ExchangeModel {
        match *self {
            UploadExchange::FileMissing => ExchangeModel::FileMissing,
            UploadExchange::ReadFailed => ExchangeModel::ReadFailed,
            UploadExchange::SendFailed => ExchangeModel::SendFailed,
            UploadExchange::Refused { status, body } => ExchangeModel::Refused {
                status,
                body: text_of(body),
            },
            UploadExchange::Undecodable => ExchangeModel::Undecodable,
            UploadExchange::Answered { result } => ExchangeModel::Answered { result: result@ },
            UploadExchange::TimedOut => ExchangeModel::TimedOut,
        }
    }
}

/// An attempt: the outcome of an upload, or the reason why none was made.
pub type Attempt = Result<UploadOutcome, UploadError>;

/// The mathematical value of an [`Attempt`].
pub type AttemptModel = Result<OutcomeModel, UploadErrorModel>;

/// The mathematical value of an attempt.
pub open spec fn attempt_model(attempt: Attempt) -> AttemptModel {
    match attempt {
        Ok(outcome) => Ok(outcome@),
        Err(error) => Err(error@),
    }
}

/// The address of the import endpoint: the server's base address without
/// trailing slashes, the endpoint's path, and the flag as a query.
pub open spec fn upload_url_text(server_url: Seq<char>, only_valid_invention: bool) -> Seq<char> {
    without_trailing(server_url, '/') + "/admin/patent/import?onlyValidInvention="@ + if only_valid_invention {
        "true"@
    } else {
        "false"@
    }
}

/// The address to which a file is posted.
pub fn upload_url(server_url: &str, only_valid_invention: bool) -> (url: String)
    ensures
        url@ == upload_url_text(server_url@, only_valid_invention),
{
    let mut url = strip_trailing(server_url, '/');
    url.append("/admin/patent/import?onlyValidInvention=");
    if only_valid_invention {
        url.append("true");
    } else {
        url.append("false");
    }
    url
}

/// The value of the `Authorization` header that carries `token`.
pub fn authorization_value(token: &str) -> (value: String)
    ensures
        value@ == "Bearer "@ + token@,
{
    concat2("Bearer ", token)
}

/// The name of the form field that carries the file.
pub fn upload_field_name() -> (name: &'static str)
    ensures
        name@ == "file"@,
{
    "file"
}

/// The media type under which the file is sent.
pub fn upload_mime_type() -> (mime: &'static str)
    ensures
        mime@ == "application/vnd.openxmlformats-officedocument.spreadsheetml.sheet"@,
{
    "application/vnd.openxmlformats-officedocument.spreadsheetml.sheet"
}

/// Whether a last component can serve as a file name: it is neither empty
/// nor one of the two names that stand for a directory.
pub open spec fn is_plain_name(name: Seq<char>) -> bool {
    name.len() > 0 && name != seq!['.'] && name != seq!['.', '.']
}

/// The file name under which `path` is sent: its last component, or a fixed
/// name where the path has no usable one.
pub open spec fn upload_file_name_text(path: Seq<char>) -> Seq<char> {
    if is_plain_name(final_component(path)) {
        final_component(path)
    } else {
        "file.xlsx"@
    }
}

/// The file name under which `path` is sent.
pub fn upload_file_name(path: &str) -> (name: String)
    ensures
        name@ == upload_file_name_text(path@),
{
    let name = file_name_of(path);
    let dot = String::from_str(".");
    let dots = String::from_str("..");
    proof {
        reveal_strlit(".");
        reveal_strlit("..");
        assert("."@ =~= seq!['.']);
        assert(".."@ =~= seq!['.', '.']);
    }
    if name.as_str().is_empty() || name == dot || name == dots {
        String::from_str("file.xlsx")
    } else {
        name
    }
}

/// The message of a refusal: the status written out and the text of the
/// answer, or a fixed text where the answer could not be read.
pub open spec fn refusal_message_with(
    status: u16,
    reason: Option<Seq<char>>,
    body: Option<Seq<char>>,
) -> Seq<char> {
    "上传失败 ["@ + status_line_with(status, reason) + "]: "@ + match body {
        Some(b) => b,
        None => "无法获取错误信息"@,
    }
}

/// The message of a refusal with the status's own reason phrase.
pub open spec fn refusal_message(status: u16, body: Option<Seq<char>>) -> Seq<char> {
    refusal_message_with(status, reason_of(status), body)
}

/// The outcome that a decoded answer stands for: a success with the
/// counters of the answer, each 0 where the answer carries none, or a
/// failure with the answer's message, or a fixed text where it has none.
pub open spec fn answered_outcome(result: UploadResultModel) -> OutcomeModel {
    if result.success {
        match result.data {
            Some(d) => OutcomeModel::Success {
                modified_count: d.modified_count,
                upserted_count: d.upserted_count,
                excel_count: d.excel_count,
            },
            None => OutcomeModel::Success { modified_count: 0, upserted_count: 0, excel_count: 0 },
        }
    } else {
        OutcomeModel::ApplicationFailure {
            message: match result.message {
                Some(m) => m,
                None => "未知错误"@,
            },
        }
    }
}

/// What an exchange amounts to for the file at `path`.
pub open spec fn classified(path: Seq<char>, exchange: ExchangeModel) -> AttemptModel {
    match exchange {
        ExchangeModel::FileMissing => Err(UploadErrorModel::NotFound { path }),
        ExchangeModel::ReadFailed => Err(UploadErrorModel::ReadFailed),
        ExchangeModel::SendFailed => Ok(
            OutcomeModel::TransportFailure { error: "发送上传请求失败"@ },
        ),
        ExchangeModel::Refused { status, body } => Ok(
            OutcomeModel::ApplicationFailure { message: refusal_message(status, body) },
        ),
        ExchangeModel::Undecodable => Ok(OutcomeModel::TransportFailure { error: "解析响应失败"@ }),
        ExchangeModel::Answered { result } => Ok(answered_outcome(result)),
        ExchangeModel::TimedOut => Ok(OutcomeModel::Timeout),
    }
}

/// Why an attempt counts as failed, in words; `None` for a success.
pub open spec fn failure_reason_text(attempt: AttemptModel) -> Option<Seq<char>> {
    match attempt {
        Ok(OutcomeModel::Success { .. }) => None,
        Ok(OutcomeModel::ApplicationFailure { message }) => Some(message),
        Ok(OutcomeModel::TransportFailure { error }) => Some(error),
        Ok(OutcomeModel::Timeout) => Some("上传超时 (10分钟)"@),
        Err(UploadErrorModel::NotFound { path }) => Some("文件不存在: "@ + path),
        Err(UploadErrorModel::ReadFailed) => Some("读取文件失败"@),
    }
}

/// Composes the message of a refusal from the status, its reason phrase and
/// the text of the answer.
pub fn format_refusal(status: u16, reason: Option<&str>, body: Option<&str>) -> (message: String)
    ensures
        message@ == refusal_message_with(status, str_text_of(reason), str_text_of(body)),
{
    let line = format_status_line(status, reason);
    let mut message = String::from_str("上传失败 [");
    message.append(line.as_str());
    message.append("]: ");
    match body {
        Some(b) => message.append(b),
        None => message.append("无法获取错误信息"),
    }
    message
}

/// The outcome that a decoded answer stands for.
pub fn outcome_of_answer(result: UploadResult) -> (outcome: UploadOutcome)
    ensures
        outcome@ == answered_outcome(result@),
{
    if result.success {
        match result.data {
            Some(d) => UploadOutcome::Success {
                modified_count: d.modified_count,
                upserted_count: d.upserted_count,
                excel_count: d.excel_count,
            },
            None => UploadOutcome::Success { modified_count: 0, upserted_count: 0, excel_count: 0 },
        }
    } else {
        match result.message {
            Some(m) => UploadOutcome::ApplicationFailure { message: m },
            None => UploadOutcome::ApplicationFailure { message: String::from_str("未知错误") },
        }
    }
}

/// Classifies one exchange for the file at `path`.
///
/// A missing or unreadable file is an error; every other exchange has an
/// outcome. Only an answer that reports success is a `Success`.
pub fn classify(path: &str, exchange: UploadExchange) -> (attempt: Attempt)
    ensures
        attempt_model(attempt) == classified(path@, exchange@),
{
    match exchange {
        UploadExchange::FileMissing => Err(UploadError::NotFound { path: String::from_str(path) }),
        UploadExchange::ReadFailed => Err(UploadError::ReadFailed),
        UploadExchange::SendFailed => Ok(
            UploadOutcome::TransportFailure { error: String::from_str("发送上传请求失败") },
        ),
        UploadExchange::Refused { status, body } => {
            let reason = status_reason(status);
            let reason_text: Option<&str> = match &reason {
                Some(r) => Some(r.as_str()),
                None => None,
            };
            let body_text: Option<&str> = match &body {
                Some(b) => Some(b.as_str()),
                None => None,
            };
            Ok(
                UploadOutcome::ApplicationFailure {
                    message: format_refusal(status, reason_text, body_text),
                },
            )
        },
        UploadExchange::Undecodable => Ok(
            UploadOutcome::TransportFailure { error: String::from_str("解析响应失败") },
        ),
        UploadExchange::Answered { result } => Ok(outcome_of_answer(result)),
        UploadExchange::TimedOut => Ok(UploadOutcome::Timeout),
    }
}

/// Why `attempt` counts as failed, in words; `None` for a success.
pub fn failure_reason(attempt: &Attempt) -> (reason: Option<String>)
    ensures
        text_of(reason) == failure_reason_text(attempt_model(*attempt)),
{
    match attempt {
        Ok(UploadOutcome::Success { .. }) => None,
        Ok(UploadOutcome::ApplicationFailure { message }) => Some(message.clone()),
        Ok(UploadOutcome::TransportFailure { error }) => Some(error.clone()),
        Ok(UploadOutcome::Timeout) => Some(String::from_str("上传超时 (10分钟)")),
        Err(UploadError::NotFound { path }) => Some(concat2("文件不存在: ", path.as_str())),
        Err(UploadError::ReadFailed) => Some(String::from_str("读取文件失败")),
    }
}

} // verus!
