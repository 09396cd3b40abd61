use crate::fields::{DescriptionError, TitleError};
use crate::ticket::{status_token, TicketView};
use vstd::prelude::*;

verus! {

/// Why a request was refused.
#[derive(Clone, Copy, Debug, PartialEq, Eq, Structural)]
pub enum ApiError {
    /// The title in the request failed its check.
    Title(TitleError),
    /// The description in the request failed its check.
    Description(DescriptionError),
    /// No ticket has this id.
    NotFound(u64),
    /// The status in the request is none of the known tokens.
    InvalidStatus,
}

pub open spec fn error_code(e: ApiError) -> u16 {
    match e {
        ApiError::NotFound(_) => 404,
        _ => 400,
    }
}

/// How a request reports a rejected title.
pub open spec fn request_title_text(e: TitleError) -> Seq<char> {
    match e {
        TitleError::Empty => "The title cannot be empty"@,
        TitleError::TooLong => "The title cannot be longer than 50 bytes"@,
    }
}

/// How a request reports a rejected description.
pub open spec fn request_description_text(e: DescriptionError) -> Seq<char> {
    match e {
        DescriptionError::Empty => "The description cannot be empty"@,
        DescriptionError::TooLong => "The description cannot be longer than 500 bytes"@,
    }
}

pub open spec fn error_text(e: ApiError) -> Seq<char> {
    match e {
        ApiError::Title(t) => request_title_text(t),
        ApiError::Description(d) => request_description_text(d),
        ApiError::NotFound(_) => "Ticket not found"@,
        ApiError::InvalidStatus => "Invalid status"@,
    }
}

impl ApiError {
    /// The HTTP status code that answers this error: 404 for a missing ticket, 400 otherwise.
    pub fn status_code(&self) -> (r: u16)
        ensures
            r == error_code(*self),
    {
        match self {
            ApiError::NotFound(_) => 404,
            _ => 400,
        }
    }

    /// The text shown to the client.
    pub fn message(&self) -> (r: String)
        ensures
            r@ == error_text(*self),
    {
        match self {
            ApiError::Title(TitleError::Empty) => String::from_str("The title cannot be empty"),
            ApiError::Title(TitleError::TooLong) => String::from_str(
                "The title cannot be longer than 50 bytes",
            ),
            ApiError::Description(DescriptionError::Empty) => String::from_str(
                "The description cannot be empty",
            ),
            ApiError::Description(DescriptionError::TooLong) => String::from_str(
                "The description cannot be longer than 500 bytes",
            ),
            ApiError::NotFound(_) => String::from_str("Ticket not found"),
            ApiError::InvalidStatus => String::from_str("Invalid status"),
        }
    }
}

/// The body of an error reply.
#[derive(Clone, Debug)]
pub struct ErrorResponse {
    pub message: String,
}

impl ErrorResponse {
    pub fn from_error(e: &ApiError) -> (r: ErrorResponse)
        ensures
            r.message@ == error_text(*e),
    {
        ErrorResponse { message: e.message() }
    }
}

/// A ticket as it is sent to clients.
#[derive(Clone, Debug)]
pub struct Ticket {
    pub id: u64,
    pub title: String,
    pub description: String,
    pub status: String,
}

/// `m` shows the ticket `t`.
pub open spec fn renders(m: Ticket, t: TicketView) -> bool {
    &&& m.id == t.id
    &&& m.title@ == t.title
    &&& m.description@ == t.description
    &&& m.status@ == status_token(t.status)
}

impl Ticket {
    pub fn from_ticket(value: &crate::ticket::Ticket) -> (r: Ticket)
        ensures
            renders(r, value@),
    {
        Ticket {
            id: value.id.value(),
            title: value.title.to_text(),
            description: value.description.to_text(),
            status: String::from_str(value.status.token()),
        }
    }
}

/// The body of a request that creates a ticket.
#[derive(Clone, Debug)]
pub struct CreateTicketInput {
    pub title: String,
    pub description: String,
}

/// The body of a request that changes a ticket; absent fields are left as they are.
#[derive(Clone, Debug)]
pub struct UpdateTicketInput {
    pub id: u64,
    pub title: Option<String>,
    pub description: Option<String>,
    pub status: Option<String>,
}

/// The text that an optional field holds.
pub open spec fn text_of(o: Option<String>) -> Option<Seq<char>> {
    match o {
        Some(s) => Some(s@),
        None => None,
    }
}

} // verus!
