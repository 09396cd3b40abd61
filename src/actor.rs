use crate::ticket::{added, lookup, Ticket, TicketDraft, TicketId, TicketStore};
use vstd::prelude::*;

verus! {

/// A request to the worker that owns the store.
pub enum Command {
    Insert(TicketDraft),
    Get(TicketId),
}

/// The worker's answer to a command.
pub enum Reply {
    Inserted(TicketId),
    Found(Option<Ticket>),
}

/// Carries out one command on the store the worker owns, and says what to answer.
/// The worker calls this once per command, in the order the commands arrive.
pub fn handle_command(store: &mut TicketStore, command: Command) -> (r: Reply)
    requires
        old(store).wf(),
        command is Insert ==> old(store)@.len() < u64::MAX,
    ensures
        final(store).wf(),
        match command {
            Command::Insert(draft) => {
                &&& final(store)@ == added(old(store)@, draft.title@, draft.description@)
                &&& r matches Reply::Inserted(id) && id@ == old(store)@.len()
            },
            Command::Get(id) => {
                &&& final(store)@ == old(store)@
                &&& r matches Reply::Found(found) && match lookup(old(store)@, id@) {
                    Some(t) => found matches Some(x) && x@ == t,
                    None => found is None,
                }
            },
        },
{
    match command {
        Command::Insert(draft) => Reply::Inserted(store.add_ticket(draft)),
        Command::Get(id) => {
            let found = match store.get(id) {
                Some(t) => Some(t.clone()),
                None => None,
            };
            Reply::Found(found)
        },
    }
}

} // verus!
