use crate::api::models::{
    error_code, renders, text_of, ApiError, CreateTicketInput, Ticket, UpdateTicketInput,
};
use crate::fields::{description_error, title_error, TicketDescription, TicketTitle};
use crate::ticket::{
    added, lookup, status_of_token, Status, TicketDraft, TicketId, TicketStore, TicketView,
};
use vstd::prelude::*;

verus! {

/// The error that a create request with this title and description gets, if any: the title
/// is checked first.
pub open spec fn create_error(title: Seq<char>, description: Seq<char>) -> Option<ApiError> {
    match title_error(title) {
        Some(e) => Some(ApiError::Title(e)),
        None => match description_error(description) {
            Some(e) => Some(ApiError::Description(e)),
            None => None,
        },
    }
}

/// The ticket after its status is set from `status`, or the error of an unknown token.
pub open spec fn status_step(t: TicketView, status: Option<Seq<char>>) -> (TicketView, Option<
    ApiError,
>) {
    match status {
        None => (t, None),
        Some(k) => match status_of_token(k) {
            Some(s) => (TicketView { status: s, ..t }, None),
            None => (t, Some(ApiError::InvalidStatus)),
        },
    }
}

/// The ticket after its description is set, then its status; the first failing field
/// stops the update and leaves what was already applied.
pub open spec fn description_step(
    t: TicketView,
    description: Option<Seq<char>>,
    status: Option<Seq<char>>,
) -> (TicketView, Option<ApiError>) {
    match description {
        None => status_step(t, status),
        Some(d) => match description_error(d) {
            Some(e) => (t, Some(ApiError::Description(e))),
            None => status_step(TicketView { description: d, ..t }, status),
        },
    }
}

/// What an update makes of ticket `t`: title, description and status are applied in that
/// order, each on its own; the first field that fails its check stops the update, and the
/// fields applied before it stay applied.
pub open spec fn update_outcome(
    t: TicketView,
    title: Option<Seq<char>>,
    description: Option<Seq<char>>,
    status: Option<Seq<char>>,
) -> (TicketView, Option<ApiError>) {
    match title {
        None => description_step(t, description, status),
        Some(s) => match title_error(s) {
            Some(e) => (t, Some(ApiError::Title(e))),
            None => description_step(TicketView { title: s, ..t }, description, status),
        },
    }
}

/// Every ticket of the store, in id order.
pub fn list(store: &TicketStore) -> (r: Vec<Ticket>)
    requires
        store.wf(),
    ensures
        r@.len() == store@.len(),
        forall|i: int| 0 <= i < r@.len() ==> renders(#[trigger] r@[i], store@[i]),
        forall|i: int| 0 <= i < r@.len() ==> #[trigger] r@[i].id == i,
        forall|i: int, j: int| 0 <= i < j < r@.len() ==> #[trigger] r@[i].id < #[trigger] r@[j].id,
        forall|i: int| 0 <= i < r@.len() ==> #[trigger] r@[i].id < store.next_id(),
{
    let n = store.len();
    proof {
        store.lemma_wf();
    }
    let mut out: Vec<Ticket> = Vec::new();
    let mut i: u64 = 0;
    while i < n
        invariant
            n == store@.len(),
            store.wf(),
            i <= n,
            out@.len() == i,
            forall|j: int| 0 <= j < i ==> renders(#[trigger] out@[j], store@[j]),
            forall|j: int| 0 <= j < i ==> #[trigger] out@[j].id == j,
        decreases n - i,
    {
        let ticket = store.get(TicketId::new(i));
        match ticket {
            Some(t) => {
                proof {
                    store.lemma_wf();
                }
                out.push(Ticket::from_ticket(t));
            },
            None => {},
        }
        i = i + 1;
    }
    out
}

/// Creates a ticket from a request body. Nothing is stored when a field fails its check.
pub fn create(store: &mut TicketStore, input: CreateTicketInput) -> (r: Result<Ticket, ApiError>)
    requires
        old(store).wf(),
        old(store)@.len() < u64::MAX,
    ensures
        final(store).wf(),
        match create_error(input.title@, input.description@) {
            Some(e) => r == Err::<Ticket, ApiError>(e) && final(store)@ == old(store)@,
            None => {
                &&& final(store)@ == added(old(store)@, input.title@, input.description@)
                &&& r matches Ok(m) && renders(m, final(store)@.last())
            },
        },
{
    let draft = match input.into_draft() {
        Ok(d) => d,
        Err(e) => {
            return Err(e);
        },
    };
    let id = store.add_ticket(draft);
    match store.get(id) {
        Some(t) => Ok(Ticket::from_ticket(t)),
        None => vstd::pervasive::unreached(),
    }
}

/// The ticket with id `id`.
pub fn get(store: &TicketStore, id: u64) -> (r: Result<Ticket, ApiError>)
    requires
        store.wf(),
    ensures
        match lookup(store@, id) {
            Some(t) => r matches Ok(m) && renders(m, t),
            None => r == Err::<Ticket, ApiError>(ApiError::NotFound(id)),
        },
{
    match store.get(TicketId::new(id)) {
        Some(t) => Ok(Ticket::from_ticket(t)),
        None => Err(ApiError::NotFound(id)),
    }
}

/// Applies the fields of `input` that are present to the ticket with id `id`; see
/// `update_outcome` for the order and for what a failing field leaves behind.
pub fn update(store: &mut TicketStore, id: u64, input: UpdateTicketInput) -> (r: Result<
    Ticket,
    ApiError,
>)
    requires
        old(store).wf(),
    ensures
        final(store).wf(),
        id >= old(store)@.len() ==> {
            &&& r == Err::<Ticket, ApiError>(ApiError::NotFound(id))
            &&& final(store)@ == old(store)@
        },
        id < old(store)@.len() ==> {
            let (t, err) = update_outcome(
                old(store)@[id as int],
                text_of(input.title),
                text_of(input.description),
                text_of(input.status),
            );
            &&& final(store)@ == old(store)@.update(id as int, t)
            &&& match err {
                Some(e) => r == Err::<Ticket, ApiError>(e),
                None => r matches Ok(m) && renders(m, t),
            }
        },
{
    if id >= store.len() {
        return Err(ApiError::NotFound(id));
    }
    let tid = TicketId::new(id);
    if let Some(title) = input.title {
        match TicketTitle::new(title) {
            Ok(t) => store.set_title(tid, t),
            Err(e) => {
                return Err(ApiError::Title(e));
            },
        }
    }
    let ghost t1 = store@[id as int];
    if let Some(description) = input.description {
        match TicketDescription::new(description) {
            Ok(d) => store.set_description(tid, d),
            Err(e) => {
                proof {
                    assert(store@ =~= old(store)@.update(id as int, t1));
                }
                return Err(ApiError::Description(e));
            },
        }
    }
    let ghost t2 = store@[id as int];
    if let Some(status) = input.status {
        match Status::parse(&status) {
            Some(s) => store.set_status(tid, s),
            None => {
                proof {
                    assert(store@ =~= old(store)@.update(id as int, t2));
                }
                return Err(ApiError::InvalidStatus);
            },
        }
    }
    proof {
        assert(store@ =~= old(store)@.update(id as int, store@[id as int]));
    }
    match store.get(tid) {
        Some(t) => Ok(Ticket::from_ticket(t)),
        None => vstd::pervasive::unreached(),
    }
}

/// Setting only the status leaves title and description as they were; a token that names no
/// status leaves the ticket unchanged and is refused with code 400.
pub proof fn lemma_status_update_keeps_text(t: TicketView, token: Seq<char>)
    ensures
        update_outcome(t, None, None, Some(token)).0.title == t.title,
        update_outcome(t, None, None, Some(token)).0.description == t.description,
        status_of_token(token) is None ==> {
            &&& update_outcome(t, None, None, Some(token)) == (t, Some(ApiError::InvalidStatus))
            &&& error_code(ApiError::InvalidStatus) == 400
        },
{
}

/// An update whose present fields all pass their checks.
pub open spec fn update_accepted(
    title: Option<Seq<char>>,
    description: Option<Seq<char>>,
    status: Option<Seq<char>>,
) -> bool {
    &&& (title matches Some(s) ==> title_error(s) is None)
    &&& (description matches Some(d) ==> description_error(d) is None)
    &&& (status matches Some(k) ==> status_of_token(k) is Some)
}

/// The later value where one is given, else the earlier one, else `base`.
pub open spec fn latest<A>(later: Option<A>, earlier: Option<A>, base: A) -> A {
    match later {
        Some(v) => v,
        None => match earlier {
            Some(v) => v,
            None => base,
        },
    }
}

/// The status a token names, if a token is given.
pub open spec fn status_of(status: Option<Seq<char>>) -> Option<Status> {
    match status {
        Some(k) => status_of_token(k),
        None => None,
    }
}

/// Two accepted updates of one ticket, the second applied after the first, give the ticket
/// whose every field comes from the second update where it sets that field, else from the
/// first, else from the ticket before both: each update is applied whole, with no field of
/// one mixed in between the fields of the other.
pub proof fn lemma_updates_compose(
    t: TicketView,
    title1: Option<Seq<char>>,
    description1: Option<Seq<char>>,
    status1: Option<Seq<char>>,
    title2: Option<Seq<char>>,
    description2: Option<Seq<char>>,
    status2: Option<Seq<char>>,
)
    requires
        update_accepted(title1, description1, status1),
        update_accepted(title2, description2, status2),
    ensures
        ({
            let first = update_outcome(t, title1, description1, status1);
            let second = update_outcome(first.0, title2, description2, status2);
            &&& first.1 is None
            &&& second.1 is None
            &&& second.0 == TicketView {
                id: t.id,
                title: latest(title2, title1, t.title),
                description: latest(description2, description1, t.description),
                status: latest(status_of(status2), status_of(status1), t.status),
            }
        }),
{
}

impl CreateTicketInput {
    /// Checks both fields, the title first, and makes a draft of them.
    pub fn into_draft(self) -> (r: Result<TicketDraft, ApiError>)
        ensures
            match create_error(self.title@, self.description@) {
                Some(e) => r == Err::<TicketDraft, ApiError>(e),
                None => r matches Ok(d) && d.title@ == self.title@ && d.description@
                    == self.description@,
            },
    {
        let title = match TicketTitle::new(self.title) {
            Ok(t) => t,
            Err(e) => {
                return Err(ApiError::Title(e));
            },
        };
        let description = match TicketDescription::new(self.description) {
            Ok(d) => d,
            Err(e) => {
                return Err(ApiError::Description(e));
            },
        };
        Ok(TicketDraft { title, description })
    }
}

} // verus!
