//! The failures that a call can end in, and the one line of text that each
//! is shown as.

use vstd::prelude::*;
use vstd::string::StringExecFns;
use crate::text::{decimal, decimal_text};

verus! {

/// Why a call did not yield a reply.
#[derive(Debug, PartialEq)]
pub enum BridgeError {
    /// The base URL is empty once trimmed and stripped of trailing slashes.
    BaseUrlRequired,
    /// The target is no absolute URL; holds the parser's words.
    InvalidUrl(String),
    /// The target's scheme is neither `http` nor `https`.
    SchemeNotAllowed,
    /// The method text names no recognised verb; holds the detail.
    UnsupportedMethod(String),
    /// The transport client could not be set up.
    ClientInit(String),
    /// Sending failed, or the time limit passed.
    RequestFailed(String),
    /// The response body could not be read.
    ReadFailed(String),
    /// The remote side answered with a status outside 200..=299.
    CoreApi { status: u16, body: String },
    /// Under the strict policy: the body of a successful response is no JSON.
    InvalidJson(String),
}

/// A failure as a mathematical value.
pub enum ErrorModel {
    BaseUrlRequired,
    InvalidUrl(Seq<char>),
    SchemeNotAllowed,
    UnsupportedMethod(Seq<char>),
    ClientInit(Seq<char>),
    RequestFailed(Seq<char>),
    ReadFailed(Seq<char>),
    CoreApi { status: u16, body: Seq<char> },
    InvalidJson(Seq<char>),
}

impl View for BridgeError {
    type V = ErrorModel;

    open spec fn view(&self) -> ErrorModel {
        match self {
            BridgeError::BaseUrlRequired => ErrorModel::BaseUrlRequired,
            BridgeError::InvalidUrl(d) => ErrorModel::InvalidUrl(d@),
            BridgeError::SchemeNotAllowed => ErrorModel::SchemeNotAllowed,
            BridgeError::UnsupportedMethod(d) => ErrorModel::UnsupportedMethod(d@),
            BridgeError::ClientInit(d) => ErrorModel::ClientInit(d@),
            BridgeError::RequestFailed(d) => ErrorModel::RequestFailed(d@),
            BridgeError::ReadFailed(d) => ErrorModel::ReadFailed(d@),
            BridgeError::CoreApi { status, body } => ErrorModel::CoreApi {
                status: *status,
                body: body@,
            },
            BridgeError::InvalidJson(d) => ErrorModel::InvalidJson(d@),
        }
    }
}

/// The text that a failure is shown as.
pub open spec fn message_text(e: ErrorModel) -> Seq<char> {
    match e {
        ErrorModel::BaseUrlRequired => "Base URL is required"@,
        ErrorModel::InvalidUrl(d) => "Invalid URL: "@ + d,
        ErrorModel::SchemeNotAllowed => "Only http/https base URLs are supported"@,
        ErrorModel::UnsupportedMethod(d) => "Unsupported HTTP method: "@ + d,
        ErrorModel::ClientInit(d) => "HTTP client init failed: "@ + d,
        ErrorModel::RequestFailed(d) => "Request failed: "@ + d,
        ErrorModel::ReadFailed(d) => "Read response failed: "@ + d,
        ErrorModel::CoreApi { status, body } => "Core API "@ + decimal_text(status as nat) + ": "@
            + body,
        ErrorModel::InvalidJson(d) => "Invalid JSON from core: "@ + d,
    }
}

fn labelled(label: &str, detail: &str) -> (r: String)
    ensures
        r@ == label@ + detail@,
{
    let mut out: String = String::from_str(label);
    out.append(detail);
    out
}

impl BridgeError {
    /// The failure as one line of text.
    pub fn message(&self) -> (r: String)
        ensures
            r@ == message_text(self@),
    {
        match self {
            BridgeError::BaseUrlRequired => String::from_str("Base URL is required"),
            BridgeError::InvalidUrl(d) => labelled("Invalid URL: ", d.as_str()),
            BridgeError::SchemeNotAllowed => String::from_str(
                "Only http/https base URLs are supported",
            ),
            BridgeError::UnsupportedMethod(d) => labelled("Unsupported HTTP method: ", d.as_str()),
            BridgeError::ClientInit(d) => labelled("HTTP client init failed: ", d.as_str()),
            BridgeError::RequestFailed(d) => labelled("Request failed: ", d.as_str()),
            BridgeError::ReadFailed(d) => labelled("Read response failed: ", d.as_str()),
            BridgeError::CoreApi { status, body } => {
                let mut out: String = String::from_str("Core API ");
                let code: String = decimal(*status);
                out.append(code.as_str());
                out.append(": ");
                out.append(body.as_str());
                out
            },
            BridgeError::InvalidJson(d) => labelled("Invalid JSON from core: ", d.as_str()),
        }
    }
}

} // verus!
