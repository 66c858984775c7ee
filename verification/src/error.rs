//! The failures of the service and how each is reported over HTTP.

use vstd::prelude::*;
use vstd::string::*;

verus! {

/// Everything that can go wrong while serving a request. A variant that
/// stands for a failure of the document store carries the store's own
/// description of it.
#[derive(Debug, PartialEq, Eq)]
pub enum MyError {
    /// The store failed outside of a query.
    MongoError(String),
    /// The store reported a failure of a given kind.
    MongoErrorKind(String),
    /// A write was refused because it would repeat a unique key.
    MongoDuplicateError(String),
    /// A query on the store failed.
    MongoQueryError(String),
    /// A document could not be put into the store's format.
    MongoSerializeBsonError(String),
    /// A stored document lacks a field or holds one of another type.
    MongoDataError(String),
    /// The request names an identifier that cannot be used.
    InvalidIDError(String),
    /// The password does not match the stored one.
    InvalidPasswordError,
    /// The role is neither client nor freelancer.
    InvalidRoleError,
    /// Nothing is stored under the given name or identifier.
    NotFoundError(String),
}

/// What a [`MyError`] holds.
pub enum ErrorView {
    MongoError(Seq<char>),
    MongoErrorKind(Seq<char>),
    MongoDuplicateError(Seq<char>),
    MongoQueryError(Seq<char>),
    MongoSerializeBsonError(Seq<char>),
    MongoDataError(Seq<char>),
    InvalidIDError(Seq<char>),
    InvalidPasswordError,
    InvalidRoleError,
    NotFoundError(Seq<char>),
}

impl View for MyError {
    type V = ErrorView;

    open spec fn view(&self) -> ErrorView {
        match self {
            MyError::MongoError(detail) => ErrorView::MongoError(detail@),
            MyError::MongoErrorKind(detail) => ErrorView::MongoErrorKind(detail@),
            MyError::MongoDuplicateError(detail) => ErrorView::MongoDuplicateError(detail@),
            MyError::MongoQueryError(detail) => ErrorView::MongoQueryError(detail@),
            MyError::MongoSerializeBsonError(detail) => ErrorView::MongoSerializeBsonError(detail@),
            MyError::MongoDataError(detail) => ErrorView::MongoDataError(detail@),
            MyError::InvalidIDError(id) => ErrorView::InvalidIDError(id@),
            MyError::InvalidPasswordError => ErrorView::InvalidPasswordError,
            MyError::InvalidRoleError => ErrorView::InvalidRoleError,
            MyError::NotFoundError(id) => ErrorView::NotFoundError(id@),
        }
    }
}

/// The body of an error reply.
#[derive(Debug, PartialEq, Eq)]
pub struct ErrorResponse {
    pub status: &'static str,
    pub message: String,
}

/// What an [`ErrorResponse`] holds.
pub struct ErrorResponseView {
    pub status: Seq<char>,
    pub message: Seq<char>,
}

impl View for ErrorResponse {
    type V = ErrorResponseView;

    open spec fn view(&self) -> ErrorResponseView {
        ErrorResponseView { status: self.status@, message: self.message@ }
    }
}

/// "Bad Request".
pub const STATUS_BAD_REQUEST: u16 = 400;

/// "Not Found".
pub const STATUS_NOT_FOUND: u16 = 404;

/// "Conflict".
pub const STATUS_CONFLICT: u16 = 409;

/// "Internal Server Error".
pub const STATUS_INTERNAL_SERVER_ERROR: u16 = 500;

impl ErrorView {
    /// The HTTP status that reports this error.
    pub open spec fn status_spec(self) -> u16 {
        match self {
            ErrorView::MongoDuplicateError(_) => STATUS_CONFLICT,
            ErrorView::NotFoundError(_) => STATUS_NOT_FOUND,
            ErrorView::InvalidIDError(_) => STATUS_BAD_REQUEST,
            ErrorView::InvalidPasswordError => STATUS_BAD_REQUEST,
            ErrorView::InvalidRoleError => STATUS_BAD_REQUEST,
            ErrorView::MongoError(_) => STATUS_INTERNAL_SERVER_ERROR,
            ErrorView::MongoErrorKind(_) => STATUS_INTERNAL_SERVER_ERROR,
            ErrorView::MongoQueryError(_) => STATUS_INTERNAL_SERVER_ERROR,
            ErrorView::MongoSerializeBsonError(_) => STATUS_INTERNAL_SERVER_ERROR,
            ErrorView::MongoDataError(_) => STATUS_INTERNAL_SERVER_ERROR,
        }
    }

    /// Whether the fault lies with the request (`true`) or with the service.
    pub open spec fn is_client_fault(self) -> bool {
        self.status_spec() < STATUS_INTERNAL_SERVER_ERROR
    }

    /// The machine-readable word of the reply: "Fail" for a fault of the
    /// request, "Error" for a fault of the service.
    pub open spec fn label_spec(self) -> Seq<char> {
        if self.is_client_fault() {
            "Fail"@
        } else {
            "Error"@
        }
    }

    /// The human-readable sentence of the reply. Only a fault of the service
    /// repeats what the store said.
    pub open spec fn message_spec(self) -> Seq<char> {
        match self {
            ErrorView::MongoErrorKind(detail) => "MongoDB error kind: "@ + detail,
            ErrorView::MongoDuplicateError(_) => "resource already exists"@,
            ErrorView::InvalidIDError(id) => "invalid id: "@ + id,
            ErrorView::InvalidPasswordError => "invalid password"@,
            ErrorView::NotFoundError(id) => "Facet with id: "@ + id + " not found"@,
            ErrorView::MongoError(detail) => "MongoDB error: "@ + detail,
            ErrorView::MongoQueryError(detail) => "MongoDB error: "@ + detail,
            ErrorView::MongoSerializeBsonError(detail) => "MongoDB error: "@ + detail,
            ErrorView::MongoDataError(detail) => "MongoDB error: "@ + detail,
            ErrorView::InvalidRoleError => "invalid role"@,
        }
    }
}

impl MyError {
    /// The HTTP status that reports this error.
    pub fn status(&self) -> (code: u16)
        ensures
            code == self@.status_spec(),
    {
        match self {
            MyError::MongoDuplicateError(_) => STATUS_CONFLICT,
            MyError::NotFoundError(_) => STATUS_NOT_FOUND,
            MyError::InvalidIDError(_)
            | MyError::InvalidPasswordError
            | MyError::InvalidRoleError => STATUS_BAD_REQUEST,
            _ => STATUS_INTERNAL_SERVER_ERROR,
        }
    }

    /// The machine-readable word of the reply.
    pub fn label(&self) -> (word: &'static str)
        ensures
            word@ == self@.label_spec(),
    {
        if self.status() < STATUS_INTERNAL_SERVER_ERROR {
            "Fail"
        } else {
            "Error"
        }
    }

    /// The human-readable sentence of the reply.
    pub fn message(&self) -> (text: String)
        ensures
            text@ == self@.message_spec(),
    {
        match self {
            MyError::MongoErrorKind(detail) => prefixed("MongoDB error kind: ", detail),
            MyError::MongoDuplicateError(_) => String::from_str("resource already exists"),
            MyError::InvalidIDError(id) => prefixed("invalid id: ", id),
            MyError::InvalidPasswordError => String::from_str("invalid password"),
            MyError::NotFoundError(id) => prefixed("Facet with id: ", id).concat(" not found"),
            MyError::MongoError(detail) => prefixed("MongoDB error: ", detail),
            MyError::MongoQueryError(detail) => prefixed("MongoDB error: ", detail),
            MyError::MongoSerializeBsonError(detail) => prefixed("MongoDB error: ", detail),
            MyError::MongoDataError(detail) => prefixed("MongoDB error: ", detail),
            MyError::InvalidRoleError => String::from_str("invalid role"),
        }
    }

    /// The status and the body with which this error is answered.
    pub fn into_response(self) -> (reply: (u16, ErrorResponse))
        ensures
            reply.0 == self@.status_spec(),
            reply.1.status@ == self@.label_spec(),
            reply.1.message@ == self@.message_spec(),
    {
        let code = self.status();
        let status = self.label();
        let message = self.message();
        (code, ErrorResponse { status, message })
    }
}

impl Clone for MyError {
    fn clone(&self) -> (copy: Self)
        ensures
            copy@ == self@,
    {
        match self {
            MyError::MongoError(detail) => MyError::MongoError(detail.clone()),
            MyError::MongoErrorKind(detail) => MyError::MongoErrorKind(detail.clone()),
            MyError::MongoDuplicateError(detail) => MyError::MongoDuplicateError(detail.clone()),
            MyError::MongoQueryError(detail) => MyError::MongoQueryError(detail.clone()),
            MyError::MongoSerializeBsonError(detail) => MyError::MongoSerializeBsonError(
                detail.clone(),
            ),
            MyError::MongoDataError(detail) => MyError::MongoDataError(detail.clone()),
            MyError::InvalidIDError(id) => MyError::InvalidIDError(id.clone()),
            MyError::InvalidPasswordError => MyError::InvalidPasswordError,
            MyError::InvalidRoleError => MyError::InvalidRoleError,
            MyError::NotFoundError(id) => MyError::NotFoundError(id.clone()),
        }
    }
}

/// `head` followed by `tail`.
fn prefixed(head: &str, tail: &String) -> (text: String)
    ensures
        text@ == head@ + tail@,
{
    String::from_str(head).concat(tail.as_str())
}

} // verus!
