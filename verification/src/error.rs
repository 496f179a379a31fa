//! Errors of the bot.

use vstd::prelude::*;

verus! {

/// Errors of the bot; each carries a message.
#[derive(Debug, Clone)]
pub enum BotError {
    Config(String),
    Validation(String),
    Io(String),
    Database(String),
    XrpcHttp(String),
    XrpcAuthentication(String),
    XrpcRateLimit(String),
    XrpcInvalidRequest(String),
    XrpcForbidden(String),
    XrpcServerError(String),
    SessionExpired,
    Serialization(String),
    XrpcConfig(String),
    Embedding(String),
    AiResponse(String),
}

/// Error body of an XRPC response.
#[derive(Debug, Clone)]
pub struct XrpcErrorResponse {
    pub error: String,
    pub message: String,
}

/// The message of an XRPC error: `{error}: {message}` from the body when
/// there is one, else `HTTP {status}`.
pub open spec fn xrpc_message(status_text: Seq<char>, body: Option<XrpcErrorResponse>) -> Seq<char> {
    match body {
        Some(e) => e.error@ + ": "@ + e.message@,
        None => "HTTP "@ + status_text,
    }
}

/// The error for an XRPC status code and message.
pub open spec fn xrpc_error(status: u16, message: Seq<char>, e: BotError) -> bool {
    if status == 400 {
        e matches BotError::XrpcInvalidRequest(m) && m@ == message
    } else if status == 401 {
        e matches BotError::XrpcAuthentication(m) && m@ == message
    } else if status == 403 {
        e matches BotError::XrpcForbidden(m) && m@ == message
    } else if status == 429 {
        e matches BotError::XrpcRateLimit(m) && m@ == message
    } else if 500 <= status <= 599 {
        e matches BotError::XrpcServerError(m) && m@ == message
    } else {
        e matches BotError::XrpcHttp(m) && m@ == message
    }
}

impl BotError {
    /// The error for a failed XRPC call, from its status code, the status's
    /// display text (such as `404 Not Found`) and the error body if any.
    pub fn from_xrpc_status(status: u16, status_text: &str, error_response: Option<XrpcErrorResponse>) -> (r: BotError)
        ensures
            xrpc_error(status, xrpc_message(status_text@, error_response), r),
    {
        let mut message = String::new();
        match &error_response {
            Some(e) => {
                message.push_str(e.error.as_str());
                message.push_str(": ");
                message.push_str(e.message.as_str());
            },
            None => {
                message.push_str("HTTP ");
                message.push_str(status_text);
            },
        }
        if status == 400 {
            BotError::XrpcInvalidRequest(message)
        } else if status == 401 {
            BotError::XrpcAuthentication(message)
        } else if status == 403 {
            BotError::XrpcForbidden(message)
        } else if status == 429 {
            BotError::XrpcRateLimit(message)
        } else if 500 <= status && status <= 599 {
            BotError::XrpcServerError(message)
        } else {
            BotError::XrpcHttp(message)
        }
    }
}

} // verus!
