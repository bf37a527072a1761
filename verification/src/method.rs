//! The HTTP verbs that a request can carry, and their recognition in free
//! text.

use vstd::prelude::*;
use vstd::string::StringExecFns;
use crate::error::{BridgeError, ErrorModel};
use crate::text::{same_text, to_uppercase, trim, trimmed, uppercase_of};

verus! {

/// A recognised HTTP verb.
#[derive(Clone, Copy, Debug, PartialEq, Eq, Structural)]
pub enum Method {
    Get,
    Post,
    Put,
    Delete,
    Head,
    Options,
    Connect,
    Patch,
    Trace,
}

/// The verb that an upper-case name stands for, if any.
pub open spec fn recognized(name: Seq<char>) -> Option<Method> {
    if name == "GET"@ {
        Some(Method::Get)
    } else if name == "POST"@ {
        Some(Method::Post)
    } else if name == "PUT"@ {
        Some(Method::Put)
    } else if name == "DELETE"@ {
        Some(Method::Delete)
    } else if name == "HEAD"@ {
        Some(Method::Head)
    } else if name == "OPTIONS"@ {
        Some(Method::Options)
    } else if name == "CONNECT"@ {
        Some(Method::Connect)
    } else if name == "PATCH"@ {
        Some(Method::Patch)
    } else if name == "TRACE"@ {
        Some(Method::Trace)
    } else {
        None
    }
}

/// The verb that free text stands for: the text is trimmed and put in upper
/// case before it is looked up.
pub open spec fn method_of(text: Seq<char>) -> Option<Method> {
    recognized(uppercase_of(trimmed(text)))
}

/// What is said of a method text that names no verb.
pub open spec fn unknown_method_detail() -> Seq<char> {
    "invalid HTTP method"@
}

/// The outcome of reading a method from free text.
pub open spec fn parsed_method(text: Seq<char>) -> Result<Method, ErrorModel> {
    match method_of(text) {
        Some(m) => Ok(m),
        None => Err(ErrorModel::UnsupportedMethod(unknown_method_detail())),
    }
}

/// A method outcome as a mathematical value.
pub open spec fn method_outcome(r: Result<Method, BridgeError>) -> Result<Method, ErrorModel> {
    match r {
        Ok(m) => Ok(m),
        Err(e) => Err(e@),
    }
}

impl Method {
    /// The verb's name, in upper case.
    pub open spec fn name_text(self) -> Seq<char> {
        match self {
            Method::Get => "GET"@,
            Method::Post => "POST"@,
            Method::Put => "PUT"@,
            Method::Delete => "DELETE"@,
            Method::Head => "HEAD"@,
            Method::Options => "OPTIONS"@,
            Method::Connect => "CONNECT"@,
            Method::Patch => "PATCH"@,
            Method::Trace => "TRACE"@,
        }
    }

    /// The verb's name, in upper case.
    pub fn name(&self) -> (r: &'static str)
        ensures
            r@ == self.name_text(),
    {
        match self {
            Method::Get => "GET",
            Method::Post => "POST",
            Method::Put => "PUT",
            Method::Delete => "DELETE",
            Method::Head => "HEAD",
            Method::Options => "OPTIONS",
            Method::Connect => "CONNECT",
            Method::Patch => "PATCH",
            Method::Trace => "TRACE",
        }
    }
}

/// Looks an upper-case name up among the verbs.
pub fn recognize(name: &str) -> (r: Option<Method>)
    ensures
        r == recognized(name@),
{
    if same_text(name, "GET") {
        Some(Method::Get)
    } else if same_text(name, "POST") {
        Some(Method::Post)
    } else if same_text(name, "PUT") {
        Some(Method::Put)
    } else if same_text(name, "DELETE") {
        Some(Method::Delete)
    } else if same_text(name, "HEAD") {
        Some(Method::Head)
    } else if same_text(name, "OPTIONS") {
        Some(Method::Options)
    } else if same_text(name, "CONNECT") {
        Some(Method::Connect)
    } else if same_text(name, "PATCH") {
        Some(Method::Patch)
    } else if same_text(name, "TRACE") {
        Some(Method::Trace)
    } else {
        None
    }
}

/// Reads a method from free text: trims it, puts it in upper case and looks
/// it up. Text that names no verb is refused.
pub fn parse_method(text: &str) -> (r: Result<Method, BridgeError>)
    ensures
        method_outcome(r) == parsed_method(text@),
{
    let upper: String = to_uppercase(trim(text));
    match recognize(upper.as_str()) {
        Some(m) => Ok(m),
        None => Err(BridgeError::UnsupportedMethod(String::from_str("invalid HTTP method"))),
    }
}

/// Every verb is found again under its own name.
pub proof fn lemma_name_is_recognized(m: Method)
    ensures
        recognized(m.name_text()) == Some(m),
{
    reveal_strlit("GET");
    reveal_strlit("POST");
    reveal_strlit("PUT");
    reveal_strlit("DELETE");
    reveal_strlit("HEAD");
    reveal_strlit("OPTIONS");
    reveal_strlit("CONNECT");
    reveal_strlit("PATCH");
    reveal_strlit("TRACE");
    assert("GET"@.len() == 3 && "PUT"@.len() == 3 && "GET"@[0] != "PUT"@[0]);
    assert("POST"@.len() == 4 && "HEAD"@.len() == 4 && "POST"@[0] != "HEAD"@[0]);
    assert("PATCH"@.len() == 5 && "TRACE"@.len() == 5 && "PATCH"@[0] != "TRACE"@[0]);
    assert("OPTIONS"@.len() == 7 && "CONNECT"@.len() == 7 && "OPTIONS"@[0] != "CONNECT"@[0]);
    assert("DELETE"@.len() == 6);
}

} // verus!
