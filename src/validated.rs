use crate::fields::{
    description_error, description_error_text, placeholder_description, title_error,
    title_error_text, valid_description, TicketDescription, TicketTitle,
};
use vstd::prelude::*;

verus! {

/// Where a ticket stands; a ticket in progress names who works on it.
#[derive(Clone, Debug, PartialEq)]
pub enum Status {
    ToDo,
    InProgress { assigned_to: String },
    Done,
}

/// A ticket made of checked fields, before it is given an id.
#[derive(Clone, Debug)]
pub struct Ticket {
    pub title: TicketTitle,
    pub description: TicketDescription,
    pub status: Status,
}

/// The message of the first field of a candidate ticket that fails its check, if any.
pub open spec fn ticket_error_text(title: Seq<char>, description: Seq<char>) -> Option<Seq<char>> {
    match title_error(title) {
        Some(e) => Some(title_error_text(e)),
        None => match description_error(description) {
            Some(e) => Some(description_error_text(e)),
            None => None,
        },
    }
}

impl Ticket {
    /// Checks the title, then the description, and builds the ticket when both pass.
    pub fn new(title: String, description: String, status: Status) -> (r: Result<Ticket, String>)
        ensures
            match ticket_error_text(title@, description@) {
                Some(m) => r matches Err(e) && e@ == m,
                None => r matches Ok(t) && t.title@ == title@ && t.description@ == description@
                    && t.status == status,
            },
    {
        let checked_title = match TicketTitle::new(title) {
            Ok(t) => t,
            Err(e) => {
                return Err(e.message());
            },
        };
        let checked_description = match TicketDescription::new(description) {
            Ok(d) => d,
            Err(e) => {
                return Err(e.message());
            },
        };
        Ok(Ticket { title: checked_title, description: checked_description, status })
    }
}

/// Builds a ticket from a title that must be valid; a description that fails its check is
/// replaced by the placeholder text.
pub fn easy_ticket(title: String, description: String, status: Status) -> (r: Ticket)
    requires
        title_error(title@).is_none(),
    ensures
        r.title@ == title@,
        r.description@ == (if valid_description(description@) {
            description@
        } else {
            placeholder_description()
        }),
        r.status == status,
{
    let checked_title = match TicketTitle::new(title) {
        Ok(t) => t,
        Err(_) => vstd::pervasive::unreached(),
    };
    let checked_description = match TicketDescription::new(description) {
        Ok(d) => d,
        Err(_) => TicketDescription::placeholder(),
    };
    Ticket { title: checked_title, description: checked_description, status }
}

} // verus!
