use vstd::prelude::*;
use vstd::utf8::encode_utf8;

verus! {

/// Largest length, in bytes, of a ticket title.
pub const MAX_TITLE_BYTES: usize = 50;

/// Largest length, in bytes, of a ticket description.
pub const MAX_DESCRIPTION_BYTES: usize = 500;

/// A title is non-empty and at most `MAX_TITLE_BYTES` bytes of UTF-8.
pub open spec fn valid_title(s: Seq<char>) -> bool {
    &&& s.len() > 0
    &&& encode_utf8(s).len() <= MAX_TITLE_BYTES
}

/// A description is non-empty and at most `MAX_DESCRIPTION_BYTES` bytes of UTF-8.
pub open spec fn valid_description(s: Seq<char>) -> bool {
    &&& s.len() > 0
    &&& encode_utf8(s).len() <= MAX_DESCRIPTION_BYTES
}

/// What a description falls back to where one is missing or rejected.
pub open spec fn placeholder_description() -> Seq<char> {
    "Description not provided"@
}

/// Each character takes at most four bytes of UTF-8.
pub proof fn lemma_utf8_len_bound(s: Seq<char>)
    ensures
        encode_utf8(s).len() <= 4 * s.len(),
    decreases s.len(),
{
    if s.len() > 0 {
        lemma_utf8_len_bound(s.drop_first());
    }
}

/// Why a title was rejected.
#[derive(Clone, Copy, Debug, PartialEq, Eq, Structural)]
pub enum TitleError {
    Empty,
    TooLong,
}

/// Why a description was rejected.
#[derive(Clone, Copy, Debug, PartialEq, Eq, Structural)]
pub enum DescriptionError {
    Empty,
    TooLong,
}

/// The error that a title `s` gets, if any.
pub open spec fn title_error(s: Seq<char>) -> Option<TitleError> {
    if s.len() == 0 {
        Some(TitleError::Empty)
    } else if encode_utf8(s).len() > MAX_TITLE_BYTES {
        Some(TitleError::TooLong)
    } else {
        None
    }
}

/// The error that a description `s` gets, if any.
pub open spec fn description_error(s: Seq<char>) -> Option<DescriptionError> {
    if s.len() == 0 {
        Some(DescriptionError::Empty)
    } else if encode_utf8(s).len() > MAX_DESCRIPTION_BYTES {
        Some(DescriptionError::TooLong)
    } else {
        None
    }
}

pub open spec fn title_error_text(e: TitleError) -> Seq<char> {
    match e {
        TitleError::Empty => "Title cannot be empty"@,
        TitleError::TooLong => "Title cannot be longer than 50 bytes"@,
    }
}

pub open spec fn description_error_text(e: DescriptionError) -> Seq<char> {
    match e {
        DescriptionError::Empty => "Description cannot be empty"@,
        DescriptionError::TooLong => "Description cannot be longer than 500 bytes"@,
    }
}

impl TitleError {
    /// The text shown to a client for this error.
    pub fn message(&self) -> (r: String)
        ensures
            r@ == title_error_text(*self),
    {
        match self {
            TitleError::Empty => String::from_str("Title cannot be empty"),
            TitleError::TooLong => String::from_str("Title cannot be longer than 50 bytes"),
        }
    }
}

impl DescriptionError {
    /// The text shown to a client for this error.
    pub fn message(&self) -> (r: String)
        ensures
            r@ == description_error_text(*self),
    {
        match self {
            DescriptionError::Empty => String::from_str("Description cannot be empty"),
            DescriptionError::TooLong => String::from_str(
                "Description cannot be longer than 500 bytes",
            ),
        }
    }
}

/// A ticket title that has passed validation.
#[derive(Debug)]
pub struct TicketTitle(String);

impl Clone for TicketTitle {
    fn clone(&self) -> (r: TicketTitle)
        ensures
            r@ == self@,
    {
        proof {
            use_type_invariant(self);
        }
        TicketTitle(self.0.clone())
    }
}

impl View for TicketTitle {
    type V = Seq<char>;

    closed spec fn view(&self) -> Seq<char> {
        self.0@
    }
}

impl TicketTitle {
    #[verifier::type_invariant]
    closed spec fn inv(&self) -> bool {
        valid_title(self.0@)
    }

    /// Checks `title`: it is kept when non-empty and short enough.
    pub fn new(title: String) -> (r: Result<TicketTitle, TitleError>)
        ensures
            match title_error(title@) {
                None => r matches Ok(t) && t@ == title@,
                Some(e) => r == Err::<TicketTitle, TitleError>(e),
            },
    {
        if title.as_str().is_empty() {
            return Err(TitleError::Empty);
        }
        if title.as_str().as_bytes().len() > MAX_TITLE_BYTES {
            return Err(TitleError::TooLong);
        }
        Ok(TicketTitle(title))
    }

    /// The validated text.
    pub fn value(&self) -> (r: &String)
        ensures
            r@ == self@,
            valid_title(r@),
    {
        proof {
            use_type_invariant(self);
        }
        &self.0
    }

    /// A copy of the validated text.
    pub fn to_text(&self) -> (r: String)
        ensures
            r@ == self@,
    {
        self.0.clone()
    }
}

/// A ticket description that has passed validation.
#[derive(Debug)]
pub struct TicketDescription(String);

impl Clone for TicketDescription {
    fn clone(&self) -> (r: TicketDescription)
        ensures
            r@ == self@,
    {
        proof {
            use_type_invariant(self);
        }
        TicketDescription(self.0.clone())
    }
}

impl View for TicketDescription {
    type V = Seq<char>;

    closed spec fn view(&self) -> Seq<char> {
        self.0@
    }
}

impl TicketDescription {
    #[verifier::type_invariant]
    closed spec fn inv(&self) -> bool {
        valid_description(self.0@)
    }

    /// Checks `description`: it is kept when non-empty and short enough.
    pub fn new(description: String) -> (r: Result<TicketDescription, DescriptionError>)
        ensures
            match description_error(description@) {
                None => r matches Ok(d) && d@ == description@,
                Some(e) => r == Err::<TicketDescription, DescriptionError>(e),
            },
    {
        if description.as_str().is_empty() {
            return Err(DescriptionError::Empty);
        }
        if description.as_str().as_bytes().len() > MAX_DESCRIPTION_BYTES {
            return Err(DescriptionError::TooLong);
        }
        Ok(TicketDescription(description))
    }

    /// The validated text.
    pub fn value(&self) -> (r: &String)
        ensures
            r@ == self@,
            valid_description(r@),
    {
        proof {
            use_type_invariant(self);
        }
        &self.0
    }

    /// A copy of the validated text.
    pub fn to_text(&self) -> (r: String)
        ensures
            r@ == self@,
    {
        self.0.clone()
    }

    /// The fixed text used where no acceptable description was given.
    pub fn placeholder() -> (r: TicketDescription)
        ensures
            r@ == placeholder_description(),
    {
        let text = String::from_str("Description not provided");
        proof {
            reveal_strlit("Description not provided");
            lemma_utf8_len_bound(text@);
        }
        TicketDescription(text)
    }
}

} // verus!
