//! Response envelopes and request/response records exchanged with a backend.

use vstd::prelude::*;

verus! {

/// A page of results together with the paging window it answers.
#[derive(Debug, Clone)]
pub struct QueryListResponse<V> {
    pub offset: usize,
    pub limit: usize,
    pub total: usize,
    pub items: Vec<V>,
}

/// How many records a deletion removed.
#[derive(Debug, Clone)]
pub struct DeletionResponse {
    pub total: usize,
}

/// Machine-readable category of an API error.
#[derive(Debug, Clone, Copy, PartialEq, Eq, Structural)]
pub enum ErrorCodeResponse {
    Unset,
    /// Only set for client errors.
    Client,
    NotLoggedIn,
}

/// An error reported by the API, with a category and a description.
#[derive(Debug, Clone)]
pub struct ApiErrorResponse {
    pub code: ErrorCodeResponse,
    pub description: String,
}

impl ApiErrorResponse {
    pub fn new(value: String) -> (r: Self)
        ensures
            r.code == ErrorCodeResponse::Unset,
            r.description == value,
    {
        Self { code: ErrorCodeResponse::Unset, description: value }
    }

    pub fn new_with_code(value: String, code: ErrorCodeResponse) -> (r: Self)
        ensures
            r.code == code,
            r.description == value,
    {
        Self { code, description: value }
    }
}

/// Either a successful payload or an API error.
#[derive(Debug, Clone)]
pub enum WrappingResponse<V> {
    Resp(V),
    Error(ApiErrorResponse),
}

impl<V> WrappingResponse<V> {
    pub fn okay(value: V) -> (r: Self)
        ensures
            r == WrappingResponse::Resp(value),
    {
        Self::Resp(value)
    }

    pub fn error(value: String) -> (r: Self)
        ensures
            r matches WrappingResponse::Error(e)
                && e.code == ErrorCodeResponse::Unset
                && e.description == value,
    {
        Self::Error(ApiErrorResponse::new(value))
    }

    pub fn error_code(value: String, code: ErrorCodeResponse) -> (r: Self)
        ensures
            r matches WrappingResponse::Error(e)
                && e.code == code
                && e.description == value,
    {
        Self::Error(ApiErrorResponse::new_with_code(value, code))
    }

    pub fn ok(self) -> (r: Result<V, ApiErrorResponse>)
        ensures
            match self {
                WrappingResponse::Resp(v) => r matches Ok(x) && x == v,
                WrappingResponse::Error(e) => r matches Err(x) && x == e,
            },
    {
        match self {
            Self::Resp(v) => Ok(v),
            Self::Error(e) => Err(e),
        }
    }

    pub fn as_ok(&self) -> (r: Result<&V, &ApiErrorResponse>)
        ensures
            match self {
                WrappingResponse::Resp(v) => r matches Ok(x) && *x == v,
                WrappingResponse::Error(e) => r matches Err(x) && *x == e,
            },
    {
        match self {
            Self::Resp(v) => Ok(v),
            Self::Error(e) => Err(e),
        }
    }

    pub fn map<N, F: Fn(V) -> N>(self, func: F) -> (r: WrappingResponse<N>)
        requires
            forall|v: V| func.requires((v,)),
        ensures
            match self {
                WrappingResponse::Resp(v) => (r matches WrappingResponse::Resp(n)
                    && func.ensures((v,), n)),
                WrappingResponse::Error(e) => r matches WrappingResponse::Error(x) && x == e,
            },
    {
        match self {
            Self::Resp(v) => WrappingResponse::Resp(func(v)),
            Self::Error(e) => WrappingResponse::Error(e),
        }
    }
}

/// What an authentication link grants access to.
#[derive(Debug, PartialEq, Eq, Clone, Copy, Structural)]
pub enum Scope {
    ServerRegister,
}

/// The form data sent to start an external authentication hand-off.
#[derive(Debug, Clone)]
pub struct AuthFormLink {
    pub server_owner_name: Option<String>,
    pub server_name: Option<String>,
    pub server_id: Option<String>,

    pub redirect_uri: String,

    pub state: String,
    pub scope: Scope,
}

/// The query parameters of the authentication hand-shake callback.
#[derive(Debug, Clone)]
pub struct AuthQueryHandshake {
    /// Used for verifying.
    pub state: Option<String>,

    /// Private server ID.
    pub server_id: String,
    /// Public server ID.
    pub public_id: String,

    pub scope: Scope,
}

/// A public search request.
#[derive(Debug, Clone)]
pub struct GetSearchQuery {
    pub query: String,

    pub offset: Option<usize>,
    pub limit: Option<usize>,

    pub view_private: bool,

    pub server_id: String,
}

/// The query an agent sends to link a member account.
#[derive(Debug, Clone)]
pub struct VerifyAgentQuery {
    /// Metadata agent member ID used to link the account with.
    pub member_id: usize,
    /// Private server ID.
    pub server_id: String,
    /// Public server ID.
    pub public_id: String,

    /// Unique ID for continuity.
    pub state: String,
    /// What we were doing (server registration or member linking).
    pub scope: Scope,
}

} // verus!
