use vstd::prelude::*;

use crate::text::str_eq;

verus! {

/// The HTTP verbs an operation may declare.
#[derive(Clone, Copy, Debug, PartialEq, Eq, Structural)]
pub enum HttpMethod {
    Get,
    Post,
    Put,
    Patch,
    Delete,
    Head,
}

/// The verb a name written in a declaration stands for, if any.
pub open spec fn spec_method_of(name: Seq<char>) -> Option<HttpMethod> {
    if name == "get"@ {
        Some(HttpMethod::Get)
    } else if name == "post"@ {
        Some(HttpMethod::Post)
    } else if name == "put"@ {
        Some(HttpMethod::Put)
    } else if name == "patch"@ {
        Some(HttpMethod::Patch)
    } else if name == "delete"@ {
        Some(HttpMethod::Delete)
    } else if name == "head"@ {
        Some(HttpMethod::Head)
    } else {
        None
    }
}

/// The name a verb is declared under.
pub open spec fn spec_method_name(m: HttpMethod) -> Seq<char> {
    match m {
        HttpMethod::Get => "get"@,
        HttpMethod::Post => "post"@,
        HttpMethod::Put => "put"@,
        HttpMethod::Patch => "patch"@,
        HttpMethod::Delete => "delete"@,
        HttpMethod::Head => "head"@,
    }
}

impl HttpMethod {
    /// Resolves a verb name as written in a declaration.
    pub fn from_name(name: &str) -> (r: Option<HttpMethod>)
        ensures
            r == spec_method_of(name@),
    {
        if str_eq(name, "get") {
            Some(HttpMethod::Get)
        } else if str_eq(name, "post") {
            Some(HttpMethod::Post)
        } else if str_eq(name, "put") {
            Some(HttpMethod::Put)
        } else if str_eq(name, "patch") {
            Some(HttpMethod::Patch)
        } else if str_eq(name, "delete") {
            Some(HttpMethod::Delete)
        } else if str_eq(name, "head") {
            Some(HttpMethod::Head)
        } else {
            None
        }
    }

    /// The name the verb is declared under.
    pub fn name(&self) -> (r: String)
        ensures
            r@ == spec_method_name(*self),
    {
        match self {
            HttpMethod::Get => String::from_str("get"),
            HttpMethod::Post => String::from_str("post"),
            HttpMethod::Put => String::from_str("put"),
            HttpMethod::Patch => String::from_str("patch"),
            HttpMethod::Delete => String::from_str("delete"),
            HttpMethod::Head => String::from_str("head"),
        }
    }
}

/// The body a call resolved, for the request and for hooks that inspect
/// it: nothing, a value to encode as JSON, or one to encode as a form.
/// Exactly one variant is live per call.
#[derive(Debug)]
pub enum RequestBody<T> {
    Empty,
    Json(T),
    Form(T),
}

impl<T> RequestBody<T> {
    /// Whether a body is present at all.
    pub open spec fn spec_is_some(self) -> bool {
        !(self is Empty)
    }

    /// Whether a body is present at all.
    pub fn is_some(&self) -> (r: bool)
        ensures
            r == self.spec_is_some(),
    {
        match self {
            RequestBody::Empty => false,
            _ => true,
        }
    }
}

} // verus!
