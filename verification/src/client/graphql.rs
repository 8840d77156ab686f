//! Values shared by the GraphQL operations of the API.
use vstd::prelude::*;

use crate::strings::str_eq;

verus! {

/// Feed format as named by the GraphQL schema.
#[allow(non_camel_case_types)]
#[derive(Debug, Clone, PartialEq, Eq)]
pub enum FeedType {
    ATOM,
    RSS1,
    RSS2,
    RSS0,
    JSON,
    /// A value this client does not know, kept as sent.
    Other(String),
}

/// The value a known name denotes, if `s` is one.
pub open spec fn feed_type_named(s: Seq<char>) -> Option<FeedType> {
    if s == "ATOM"@ {
        Some(FeedType::ATOM)
    }
    else if s == "RSS1"@ {
        Some(FeedType::RSS1)
    }
    else if s == "RSS2"@ {
        Some(FeedType::RSS2)
    }
    else if s == "RSS0"@ {
        Some(FeedType::RSS0)
    }
    else if s == "JSON"@ {
        Some(FeedType::JSON)
    }
    else {
        None
    }
}

/// The name of a value.
pub open spec fn feed_type_name(v: FeedType) -> Seq<char> {
    match v {
        FeedType::ATOM => "ATOM"@,
        FeedType::RSS1 => "RSS1"@,
        FeedType::RSS2 => "RSS2"@,
        FeedType::RSS0 => "RSS0"@,
        FeedType::JSON => "JSON"@,
        FeedType::Other(s) => s@,
    }
}

impl FeedType {
    /// Reads a value from its name; a name that is not known is kept as `Other`.
    pub fn parse(value: &str) -> (r: FeedType)
        ensures
            match feed_type_named(value@) {
                Some(v) => r == v,
                None => r matches FeedType::Other(s) && s@ == value@,
            },
    {
        if str_eq(value, "ATOM") {
            FeedType::ATOM
        }
        else if str_eq(value, "RSS1") {
            FeedType::RSS1
        }
        else if str_eq(value, "RSS2") {
            FeedType::RSS2
        }
        else if str_eq(value, "RSS0") {
            FeedType::RSS0
        }
        else if str_eq(value, "JSON") {
            FeedType::JSON
        }
        else {
            FeedType::Other(value.to_owned())
        }
    }

    /// The name of this value.
    pub fn as_str(&self) -> (s: &str)
        ensures
            s@ == feed_type_name(*self),
    {
        match self {
            FeedType::ATOM => "ATOM",
            FeedType::RSS1 => "RSS1",
            FeedType::RSS2 => "RSS2",
            FeedType::RSS0 => "RSS0",
            FeedType::JSON => "JSON",
            FeedType::Other(s) => s.as_str(),
        }
    }
}

/// Reading a name and writing the value gives the name back.
pub proof fn lemma_feed_type_name_of_parsed(s: Seq<char>)
    ensures
        feed_type_named(s) matches Some(v) ==> feed_type_name(v) == s,
{
}

/// Writing a known value and reading the name gives the value back.
pub proof fn lemma_feed_type_parse_of_name(v: FeedType)
    requires
        !(v is Other),
    ensures
        feed_type_named(feed_type_name(v)) == Some(v),
{
    reveal_strlit("ATOM");
    reveal_strlit("RSS1");
    reveal_strlit("RSS2");
    reveal_strlit("RSS0");
    reveal_strlit("JSON");
    assert("ATOM"@[0] != "RSS1"@[0]);
    assert("ATOM"@[0] != "RSS2"@[0]);
    assert("RSS1"@[3] != "RSS2"@[3]);
    assert("ATOM"@[0] != "RSS0"@[0]);
    assert("RSS1"@[3] != "RSS0"@[3]);
    assert("RSS2"@[3] != "RSS0"@[3]);
    assert("ATOM"@[0] != "JSON"@[0]);
    assert("RSS1"@[0] != "JSON"@[0]);
    assert("RSS2"@[0] != "JSON"@[0]);
    assert("RSS0"@[0] != "JSON"@[0]);
}

/// How strongly a feed is wanted, as named by the GraphQL schema.
#[allow(non_camel_case_types)]
#[derive(Debug, Clone, PartialEq, Eq)]
pub enum Requirement {
    MUST,
    SHOULD,
    MAY,
    /// A value this client does not know, kept as sent.
    Other(String),
}

/// The value a known name denotes, if `s` is one.
pub open spec fn requirement_named(s: Seq<char>) -> Option<Requirement> {
    if s == "MUST"@ {
        Some(Requirement::MUST)
    }
    else if s == "SHOULD"@ {
        Some(Requirement::SHOULD)
    }
    else if s == "MAY"@ {
        Some(Requirement::MAY)
    }
    else {
        None
    }
}

/// The name of a value.
pub open spec fn requirement_name(v: Requirement) -> Seq<char> {
    match v {
        Requirement::MUST => "MUST"@,
        Requirement::SHOULD => "SHOULD"@,
        Requirement::MAY => "MAY"@,
        Requirement::Other(s) => s@,
    }
}

impl Requirement {
    /// Reads a value from its name; a name that is not known is kept as `Other`.
    pub fn parse(value: &str) -> (r: Requirement)
        ensures
            match requirement_named(value@) {
                Some(v) => r == v,
                None => r matches Requirement::Other(s) && s@ == value@,
            },
    {
        if str_eq(value, "MUST") {
            Requirement::MUST
        }
        else if str_eq(value, "SHOULD") {
            Requirement::SHOULD
        }
        else if str_eq(value, "MAY") {
            Requirement::MAY
        }
        else {
            Requirement::Other(value.to_owned())
        }
    }

    /// The name of this value.
    pub fn as_str(&self) -> (s: &str)
        ensures
            s@ == requirement_name(*self),
    {
        match self {
            Requirement::MUST => "MUST",
            Requirement::SHOULD => "SHOULD",
            Requirement::MAY => "MAY",
            Requirement::Other(s) => s.as_str(),
        }
    }
}

/// Reading a name and writing the value gives the name back.
pub proof fn lemma_requirement_name_of_parsed(s: Seq<char>)
    ensures
        requirement_named(s) matches Some(v) ==> requirement_name(v) == s,
{
}

/// Writing a known value and reading the name gives the value back.
pub proof fn lemma_requirement_parse_of_name(v: Requirement)
    requires
        !(v is Other),
    ensures
        requirement_named(requirement_name(v)) == Some(v),
{
    reveal_strlit("MUST");
    reveal_strlit("SHOULD");
    reveal_strlit("MAY");
    assert("MUST"@.len() != "SHOULD"@.len());
    assert("MUST"@.len() != "MAY"@.len());
    assert("SHOULD"@.len() != "MAY"@.len());
}

/// Status code of a GraphQL mutation response.
#[allow(non_camel_case_types)]
#[derive(Debug, Clone, PartialEq, Eq)]
pub enum ResponseCode {
    OK,
    UNAUTHORIZED,
    INVALID_FEED_URL,
    INTERNAL_ERROR,
    /// A value this client does not know, kept as sent.
    Other(String),
}

/// The value a known name denotes, if `s` is one.
pub open spec fn response_code_named(s: Seq<char>) -> Option<ResponseCode> {
    if s == "OK"@ {
        Some(ResponseCode::OK)
    }
    else if s == "UNAUTHORIZED"@ {
        Some(ResponseCode::UNAUTHORIZED)
    }
    else if s == "INVALID_FEED_URL"@ {
        Some(ResponseCode::INVALID_FEED_URL)
    }
    else if s == "INTERNAL_ERROR"@ {
        Some(ResponseCode::INTERNAL_ERROR)
    }
    else {
        None
    }
}

/// The name of a value.
pub open spec fn response_code_name(v: ResponseCode) -> Seq<char> {
    match v {
        ResponseCode::OK => "OK"@,
        ResponseCode::UNAUTHORIZED => "UNAUTHORIZED"@,
        ResponseCode::INVALID_FEED_URL => "INVALID_FEED_URL"@,
        ResponseCode::INTERNAL_ERROR => "INTERNAL_ERROR"@,
        ResponseCode::Other(s) => s@,
    }
}

impl ResponseCode {
    /// Reads a value from its name; a name that is not known is kept as `Other`.
    pub fn parse(value: &str) -> (r: ResponseCode)
        ensures
            match response_code_named(value@) {
                Some(v) => r == v,
                None => r matches ResponseCode::Other(s) && s@ == value@,
            },
    {
        if str_eq(value, "OK") {
            ResponseCode::OK
        }
        else if str_eq(value, "UNAUTHORIZED") {
            ResponseCode::UNAUTHORIZED
        }
        else if str_eq(value, "INVALID_FEED_URL") {
            ResponseCode::INVALID_FEED_URL
        }
        else if str_eq(value, "INTERNAL_ERROR") {
            ResponseCode::INTERNAL_ERROR
        }
        else {
            ResponseCode::Other(value.to_owned())
        }
    }

    /// The name of this value.
    pub fn as_str(&self) -> (s: &str)
        ensures
            s@ == response_code_name(*self),
    {
        match self {
            ResponseCode::OK => "OK",
            ResponseCode::UNAUTHORIZED => "UNAUTHORIZED",
            ResponseCode::INVALID_FEED_URL => "INVALID_FEED_URL",
            ResponseCode::INTERNAL_ERROR => "INTERNAL_ERROR",
            ResponseCode::Other(s) => s.as_str(),
        }
    }
}

/// Reading a name and writing the value gives the name back.
pub proof fn lemma_response_code_name_of_parsed(s: Seq<char>)
    ensures
        response_code_named(s) matches Some(v) ==> response_code_name(v) == s,
{
}

/// Writing a known value and reading the name gives the value back.
pub proof fn lemma_response_code_parse_of_name(v: ResponseCode)
    requires
        !(v is Other),
    ensures
        response_code_named(response_code_name(v)) == Some(v),
{
    reveal_strlit("OK");
    reveal_strlit("UNAUTHORIZED");
    reveal_strlit("INVALID_FEED_URL");
    reveal_strlit("INTERNAL_ERROR");
    assert("OK"@.len() != "UNAUTHORIZED"@.len());
    assert("OK"@.len() != "INVALID_FEED_URL"@.len());
    assert("UNAUTHORIZED"@.len() != "INVALID_FEED_URL"@.len());
    assert("OK"@.len() != "INTERNAL_ERROR"@.len());
    assert("UNAUTHORIZED"@.len() != "INTERNAL_ERROR"@.len());
    assert("INVALID_FEED_URL"@.len() != "INTERNAL_ERROR"@.len());
}

/// A GraphQL request: the variables, the query text and the operation to run.
#[derive(Debug, Clone, PartialEq, Eq)]
pub struct QueryBody<V> {
    pub variables: V,
    pub query: &'static str,
    pub operation_name: &'static str,
}

} // verus!
