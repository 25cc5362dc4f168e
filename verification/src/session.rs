//! The session: one login exchange that yields a bearer token.
//!
//! The exchange itself happens outside this library. The caller is told the
//! address and the body to send, reports how the exchange went as a
//! [`LoginExchange`], and gets back the token or the reason why there is
//! none.

use vstd::prelude::*;
use crate::status::{format_status_line, reason_of, status_line_with, status_reason};
use crate::text::{concat2, str_text_of, strip_trailing, text_of, without_trailing};

verus! {

/// The body of a login request.
#[derive(Clone, Debug, PartialEq, Eq)]
pub struct LoginRequest {
    pub username: String,
    pub password: String,
}

/// The data of a successful login.
#[derive(Clone, Debug, PartialEq, Eq)]
pub struct LoginData {
    pub token: String,
}

/// The body of the service's answer to a login.
#[derive(Clone, Debug, PartialEq, Eq)]
pub struct LoginResponse {
    pub success: bool,
    pub data: Option<LoginData>,
    pub message: Option<String>,
}

/// How the login exchange went, as the caller observed it.
#[derive(Clone, Debug, PartialEq, Eq)]
pub enum LoginExchange {
    /// The request could not be sent or no answer came back.
    SendFailed,
    /// The service answered with a status outside the success class.
    Refused { status: u16 },
    /// The service answered with a success status and a body that could not
    /// be decoded.
    Undecodable,
    /// The service answered with a success status and this body.
    Answered { response: LoginResponse },
}

/// Why a login yielded no token.
#[derive(Clone, Debug, PartialEq, Eq)]
pub enum AuthError {
    /// The request or its answer was lost on the way.
    Transport,
    /// The service answered with this status, outside the success class.
    Status { status: u16 },
    /// The answer could not be decoded.
    Undecodable,
    /// The service reported a failure, or a success without a token.
    Rejected { message: String },
}

/// The mathematical value of a [`LoginResponse`].
pub struct LoginResponseModel {
    pub success: bool,
    pub token: Option<Seq<char>>,
    pub message: Option<Seq<char>>,
}

/// The mathematical value of a [`LoginExchange`].
pub enum LoginExchangeModel {
    SendFailed,
    Refused { status: u16 },
    Undecodable,
    Answered { response: LoginResponseModel },
}

/// The mathematical value of an [`AuthError`].
pub enum AuthErrorModel {
    Transport,
    Status { status: u16 },
    Undecodable,
    Rejected { message: Seq<char> },
}

impl View for LoginResponse {
    type V = LoginResponseModel;

    open spec fn view(&self) -> LoginResponseModel {
        LoginResponseModel {
            success: self.success,
            token: match self.data {
                Some(d) => Some(d.token@),
                None => None,
            },
            message: text_of(self.message),
        }
    }
}

impl View for LoginExchange {
    type V = LoginExchangeModel;

    open spec fn view(&self) -> LoginExchangeModel {
        match *self {
            LoginExchange::SendFailed => LoginExchangeModel::SendFailed,
            LoginExchange::Refused { status } => LoginExchangeModel::Refused { status },
            LoginExchange::Undecodable => LoginExchangeModel::Undecodable,
            LoginExchange::Answered { response } => LoginExchangeModel::Answered {
                response: response@,
            },
        }
    }
}

impl View for AuthError {
    type V = AuthErrorModel;

    open spec fn view(&self) -> AuthErrorModel {
        match *self {
            AuthError::Transport => AuthErrorModel::Transport,
            AuthError::Status { status } => AuthErrorModel::Status { status },
            AuthError::Undecodable => AuthErrorModel::Undecodable,
            AuthError::Rejected { message } => AuthErrorModel::Rejected { message: message@ },
        }
    }
}

/// The address of the login endpoint: the server's base address without
/// trailing slashes and the endpoint's path.
pub open spec fn login_url_text(server_url: Seq<char>) -> Seq<char> {
    without_trailing(server_url, '/') + "/auth/admin/login"@
}

/// The address to which the credentials are posted.
pub fn login_url(server_url: &str) -> (url: String)
    ensures
        url@ == login_url_text(server_url@),
{
    let mut url = strip_trailing(server_url, '/');
    url.append("/auth/admin/login");
    url
}

/// The body that carries the credentials.
pub fn login_request(username: &str, password: &str) -> (request: LoginRequest)
    ensures
        request.username@ == username@,
        request.password@ == password@,
{
    LoginRequest { username: String::from_str(username), password: String::from_str(password) }
}

/// What a login exchange yields. A token comes only from an answer that
/// reports success and carries one. A status outside the success class is
/// kept in the error; an answer that reports failure, or success without a
/// token, gives an error with the answer's message, or with a fixed text
/// where it has none.
pub open spec fn login_outcome(exchange: LoginExchangeModel) -> Result<Seq<char>, AuthErrorModel> {
    match exchange {
        LoginExchangeModel::SendFailed => Err(AuthErrorModel::Transport),
        LoginExchangeModel::Refused { status } => Err(AuthErrorModel::Status { status }),
        LoginExchangeModel::Undecodable => Err(AuthErrorModel::Undecodable),
        LoginExchangeModel::Answered { response } => {
            if response.success && response.token is Some {
                Ok(response.token->0)
            } else {
                Err(
                    AuthErrorModel::Rejected {
                        message: match response.message {
                            Some(m) => m,
                            None => "未知错误"@,
                        },
                    },
                )
            }
        },
    }
}

/// Decides what a login exchange yields: the token, or the reason why there
/// is none.
pub fn login_result(exchange: LoginExchange) -> (result: Result<String, AuthError>)
    ensures
        match result {
            Ok(token) => login_outcome(exchange@) == Ok::<_, AuthErrorModel>(token@),
            Err(e) => login_outcome(exchange@) == Err::<Seq<char>, _>(e@),
        },
{
    match exchange {
        LoginExchange::SendFailed => Err(AuthError::Transport),
        LoginExchange::Refused { status } => Err(AuthError::Status { status }),
        LoginExchange::Undecodable => Err(AuthError::Undecodable),
        LoginExchange::Answered { response } => {
            if response.success {
                match response.data {
                    Some(d) => {
                        return Ok(d.token);
                    },
                    None => {},
                }
            }
            match response.message {
                Some(m) => Err(AuthError::Rejected { message: m }),
                None => Err(AuthError::Rejected { message: String::from_str("未知错误") }),
            }
        },
    }
}

/// What an [`AuthError`] says, with the reason phrase given for a status.
pub open spec fn auth_error_text_with(error: AuthErrorModel, reason: Option<Seq<char>>) -> Seq<
    char,
> {
    match error {
        AuthErrorModel::Transport => "发送登录请求失败"@,
        AuthErrorModel::Status { status } => "登录失败: HTTP "@ + status_line_with(status, reason),
        AuthErrorModel::Undecodable => "解析登录响应失败"@,
        AuthErrorModel::Rejected { message } => "登录失败: "@ + message,
    }
}

/// What an [`AuthError`] says.
pub open spec fn auth_error_text(error: AuthErrorModel) -> Seq<char> {
    match error {
        AuthErrorModel::Status { status } => auth_error_text_with(error, reason_of(status)),
        _ => auth_error_text_with(error, None),
    }
}

/// Puts an [`AuthError`] into words, with the reason phrase given for a
/// status.
pub fn format_auth_error(error: &AuthError, reason: Option<&str>) -> (text: String)
    ensures
        text@ == auth_error_text_with(error@, str_text_of(reason)),
{
    match error {
        AuthError::Transport => String::from_str("发送登录请求失败"),
        AuthError::Status { status } => {
            let line = format_status_line(*status, reason);
            concat2("登录失败: HTTP ", line.as_str())
        },
        AuthError::Undecodable => String::from_str("解析登录响应失败"),
        AuthError::Rejected { message } => concat2("登录失败: ", message.as_str()),
    }
}

impl AuthError {
    /// The error in words.
    pub fn message(&self) -> (text: String)
        ensures
            text@ == auth_error_text(self@),
    {
        match self {
            AuthError::Status { status } => {
                let reason = status_reason(*status);
                let reason_text: Option<&str> = match &reason {
                    Some(r) => Some(r.as_str()),
                    None => None,
                };
                format_auth_error(self, reason_text)
            },
            _ => format_auth_error(self, None),
        }
    }
}

} // verus!
