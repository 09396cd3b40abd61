use crate::fields::{TicketDescription, TicketTitle};
use vstd::prelude::*;

verus! {

/// The id of a stored ticket.
#[derive(Clone, Copy, Debug, PartialEq, Eq, Structural, PartialOrd, Ord, Hash)]
pub struct TicketId(u64);

impl View for TicketId {
    type V = u64;

    closed spec fn view(&self) -> u64 {
        self.0
    }
}

impl TicketId {
    pub fn new(value: u64) -> (r: TicketId)
        ensures
            r@ == value,
    {
        TicketId(value)
    }

    pub fn value(self) -> (r: u64)
        ensures
            r == self@,
    {
        self.0
    }
}

/// Where a stored ticket stands.
#[derive(Clone, Copy, Debug, PartialEq, Eq, Structural)]
pub enum Status {
    ToDo,
    InProgress,
    Done,
}

/// The text that stands for each status on the wire.
pub open spec fn status_token(s: Status) -> Seq<char> {
    match s {
        Status::ToDo => "To-Do"@,
        Status::InProgress => "In-Progress"@,
        Status::Done => "Done"@,
    }
}

/// The status that a token names, if it names one.
pub open spec fn status_of_token(t: Seq<char>) -> Option<Status> {
    if t == "To-Do"@ {
        Some(Status::ToDo)
    } else if t == "In-Progress"@ {
        Some(Status::InProgress)
    } else if t == "Done"@ {
        Some(Status::Done)
    } else {
        None
    }
}

impl Status {
    /// The token of this status.
    pub fn token(&self) -> (r: &'static str)
        ensures
            r@ == status_token(*self),
    {
        match self {
            Status::ToDo => "To-Do",
            Status::InProgress => "In-Progress",
            Status::Done => "Done",
        }
    }

    /// Reads a token; anything but the three tokens is refused.
    pub fn parse(token: &String) -> (r: Option<Status>)
        ensures
            r == status_of_token(token@),
    {
        if *token == String::from_str("To-Do") {
            Some(Status::ToDo)
        } else if *token == String::from_str("In-Progress") {
            Some(Status::InProgress)
        } else if *token == String::from_str("Done") {
            Some(Status::Done)
        } else {
            None
        }
    }
}

/// What a caller hands in to create a ticket.
#[derive(Clone, Debug)]
pub struct TicketDraft {
    pub title: TicketTitle,
    pub description: TicketDescription,
}

/// A stored ticket.
#[derive(Debug)]
pub struct Ticket {
    pub id: TicketId,
    pub title: TicketTitle,
    pub description: TicketDescription,
    pub status: Status,
}

/// The contents of a ticket, as plain values.
pub struct TicketView {
    pub id: u64,
    pub title: Seq<char>,
    pub description: Seq<char>,
    pub status: Status,
}

impl View for Ticket {
    type V = TicketView;

    open spec fn view(&self) -> TicketView {
        TicketView {
            id: self.id@,
            title: self.title@,
            description: self.description@,
            status: self.status,
        }
    }
}

impl Clone for Ticket {
    fn clone(&self) -> (r: Ticket)
        ensures
            r@ == self@,
    {
        Ticket {
            id: self.id,
            title: self.title.clone(),
            description: self.description.clone(),
            status: self.status,
        }
    }
}

/// A store is well formed when the ticket at each position has that position as its id.
pub open spec fn ids_match_positions(s: Seq<TicketView>) -> bool {
    forall|i: int| 0 <= i < s.len() ==> #[trigger] s[i].id == i
}

/// The tickets after one more is created from a title and a description.
pub open spec fn added(s: Seq<TicketView>, title: Seq<char>, description: Seq<char>) -> Seq<
    TicketView,
> {
    s.push(TicketView { id: s.len() as u64, title, description, status: Status::ToDo })
}

/// The ticket with id `id`, if there is one.
pub open spec fn lookup(s: Seq<TicketView>, id: u64) -> Option<TicketView> {
    if id < s.len() {
        Some(s[id as int])
    } else {
        None
    }
}

/// In a well-formed store every ticket has a smaller id than every ticket stored after
/// it, so no two tickets share an id.
pub proof fn lemma_ids_strictly_increase(s: Seq<TicketView>)
    requires
        ids_match_positions(s),
    ensures
        forall|i: int, j: int| 0 <= i < j < s.len() ==> #[trigger] s[i].id < #[trigger] s[j].id,
{
    assert forall|i: int, j: int| 0 <= i < j < s.len() implies #[trigger] s[i].id
        < #[trigger] s[j].id by {
        assert(s[i].id == i);
        assert(s[j].id == j);
    }
}

/// Two tickets created one after the other get strictly increasing ids, each greater than
/// every id already in the store, and the store stays well formed. The two requirements on
/// the length are those of the two creates themselves: ids are `u64`, so a store that
/// already holds `u64::MAX` tickets takes no more.
pub proof fn lemma_create_ids_increase(
    s: Seq<TicketView>,
    title1: Seq<char>,
    description1: Seq<char>,
    title2: Seq<char>,
    description2: Seq<char>,
)
    requires
        ids_match_positions(s),
        s.len() < u64::MAX,
        added(s, title1, description1).len() < u64::MAX,
    ensures
        ({
            let s1 = added(s, title1, description1);
            let s2 = added(s1, title2, description2);
            &&& ids_match_positions(s1)
            &&& ids_match_positions(s2)
            &&& s1.last().id < s2.last().id
            &&& forall|i: int| 0 <= i < s.len() ==> #[trigger] s[i].id < s1.last().id
        }),
{
    let s1 = added(s, title1, description1);
    let s2 = added(s1, title2, description2);
    assert forall|i: int| 0 <= i < s1.len() implies #[trigger] s1[i].id == i by {
        if i < s.len() {
            assert(s1[i] == s[i]);
        }
    }
    assert forall|i: int| 0 <= i < s2.len() implies #[trigger] s2[i].id == i by {
        if i < s1.len() {
            assert(s2[i] == s1[i]);
        }
    }
}

/// Right after a ticket is created, looking up its id finds it with the draft's title and
/// description and status `ToDo`. The requirement on the length is that of the create.
pub proof fn lemma_get_after_create(s: Seq<TicketView>, title: Seq<char>, description: Seq<char>)
    requires
        ids_match_positions(s),
        s.len() < u64::MAX,
    ensures
        lookup(added(s, title, description), s.len() as u64) == Some(
            TicketView { id: s.len() as u64, title, description, status: Status::ToDo },
        ),
{
}

/// All tickets, indexed by id, and the counter that gives the next id.
pub struct TicketStore {
    tickets: Vec<Ticket>,
    counter: u64,
}

impl View for TicketStore {
    type V = Seq<TicketView>;

    closed spec fn view(&self) -> Seq<TicketView> {
        self.tickets@.map_values(|t: Ticket| t@)
    }
}

impl TicketStore {
    /// The counter equals the number of tickets, and each ticket's id is its position.
    pub closed spec fn wf(&self) -> bool {
        &&& self.counter == self.tickets@.len()
        &&& ids_match_positions(self@)
    }

    /// The id that the next ticket gets.
    pub closed spec fn next_id(&self) -> u64 {
        self.counter
    }

    /// In a well-formed store the ticket at each position has that position as its id, and
    /// the next id is the number of tickets.
    pub proof fn lemma_wf(&self)
        requires
            self.wf(),
        ensures
            ids_match_positions(self@),
            self.next_id() == self@.len(),
    {
    }

    pub fn new() -> (r: TicketStore)
        ensures
            r.wf(),
            r@ == Seq::<TicketView>::empty(),
            r.next_id() == 0,
    {
        let r = TicketStore { tickets: Vec::new(), counter: 0 };
        assert(r@ =~= Seq::<TicketView>::empty());
        r
    }

    /// How many tickets the store holds.
    pub fn len(&self) -> (r: u64)
        requires
            self.wf(),
        ensures
            r == self@.len(),
            r == self.next_id(),
    {
        self.counter
    }

    /// Stores a new ticket made from `draft`, with status `ToDo` and the next id.
    pub fn add_ticket(&mut self, draft: TicketDraft) -> (r: TicketId)
        requires
            old(self).wf(),
            old(self)@.len() < u64::MAX,
        ensures
            final(self).wf(),
            r@ == old(self)@.len(),
            r@ == old(self).next_id(),
            final(self).next_id() == old(self).next_id() + 1,
            final(self)@ == added(old(self)@, draft.title@, draft.description@),
    {
        let id = TicketId(self.counter);
        self.counter = self.counter + 1;
        self.tickets.push(
            Ticket {
                id,
                title: draft.title,
                description: draft.description,
                status: Status::ToDo,
            },
        );
        assert(self@ =~= added(old(self)@, draft.title@, draft.description@));
        id
    }

    /// Where the ticket with id `id` sits in the vector, if it exists.
    fn position(&self, id: TicketId) -> (r: Option<usize>)
        requires
            self.wf(),
        ensures
            match r {
                Some(i) => i == id@ && id@ < self@.len(),
                None => id@ >= self@.len(),
            },
    {
        if id.0 < self.tickets.len() as u64 {
            Some(id.0 as usize)
        } else {
            None
        }
    }

    /// The ticket with id `id`, if it exists.
    pub fn get(&self, id: TicketId) -> (r: Option<&Ticket>)
        requires
            self.wf(),
        ensures
            match lookup(self@, id@) {
                Some(t) => r matches Some(x) && x@ == t,
                None => r is None,
            },
    {
        match self.position(id) {
            Some(i) => Some(&self.tickets[i]),
            None => None,
        }
    }

    /// Replaces the title of the ticket with id `id`.
    pub fn set_title(&mut self, id: TicketId, title: TicketTitle)
        requires
            old(self).wf(),
            id@ < old(self)@.len(),
        ensures
            final(self).wf(),
            final(self).next_id() == old(self).next_id(),
            final(self)@ == old(self)@.update(
                id@ as int,
                TicketView { title: title@, ..old(self)@[id@ as int] },
            ),
    {
        if let Some(i) = self.position(id) {
            self.tickets[i].title = title;
        }
        assert(self@ =~= old(self)@.update(
            id@ as int,
            TicketView { title: title@, ..old(self)@[id@ as int] },
        ));
    }

    /// Replaces the description of the ticket with id `id`.
    pub fn set_description(&mut self, id: TicketId, description: TicketDescription)
        requires
            old(self).wf(),
            id@ < old(self)@.len(),
        ensures
            final(self).wf(),
            final(self).next_id() == old(self).next_id(),
            final(self)@ == old(self)@.update(
                id@ as int,
                TicketView { description: description@, ..old(self)@[id@ as int] },
            ),
    {
        if let Some(i) = self.position(id) {
            self.tickets[i].description = description;
        }
        assert(self@ =~= old(self)@.update(
            id@ as int,
            TicketView { description: description@, ..old(self)@[id@ as int] },
        ));
    }

    /// Replaces the status of the ticket with id `id`.
    pub fn set_status(&mut self, id: TicketId, status: Status)
        requires
            old(self).wf(),
            id@ < old(self)@.len(),
        ensures
            final(self).wf(),
            final(self).next_id() == old(self).next_id(),
            final(self)@ == old(self)@.update(
                id@ as int,
                TicketView { status, ..old(self)@[id@ as int] },
            ),
    {
        if let Some(i) = self.position(id) {
            self.tickets[i].status = status;
        }
        assert(self@ =~= old(self)@.update(
            id@ as int,
            TicketView { status, ..old(self)@[id@ as int] },
        ));
    }
}

impl Default for TicketStore {
    fn default() -> (r: TicketStore)
        ensures
            r.wf(),
            r@ == Seq::<TicketView>::empty(),
    {
        TicketStore::new()
    }
}

} // verus!
