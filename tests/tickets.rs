use ticket_store::actor::{handle_command, Command, Reply};
use ticket_store::api::handlers::{create, get, list, update};
use ticket_store::api::models::{ApiError, CreateTicketInput, ErrorResponse, UpdateTicketInput};
use ticket_store::fields::{DescriptionError, TicketDescription, TicketTitle, TitleError};
use ticket_store::ticket::{Status, TicketDraft, TicketId, TicketStore};

fn draft(title: &str, description: &str) -> TicketDraft {
    TicketDraft {
        title: TicketTitle::new(title.to_string()).unwrap(),
        description: TicketDescription::new(description.to_string()).unwrap(),
    }
}

fn setup_db() -> (TicketStore, Vec<TicketId>) {
    let mut db = TicketStore::default();
    let mut tickets = Vec::new();
    tickets.push(db.add_ticket(draft("Test title", "Test description")));
    tickets.push(db.add_ticket(draft("Test title 2", "Test description 2")));
    (db, tickets)
}

fn create_input(title: &str, description: &str) -> CreateTicketInput {
    CreateTicketInput { title: title.to_string(), description: description.to_string() }
}

fn update_input(
    id: u64,
    title: Option<&str>,
    description: Option<&str>,
    status: Option<&str>,
) -> UpdateTicketInput {
    UpdateTicketInput {
        id,
        title: title.map(|s| s.to_string()),
        description: description.map(|s| s.to_string()),
        status: status.map(|s| s.to_string()),
    }
}

#[test]
fn tickets_list_ok() {
    let (db, _) = setup_db();
    let tickets = list(&db);
    assert_eq!(tickets.len(), 2);
    assert_eq!(tickets[0].id, 0);
    assert_eq!(tickets[0].title, "Test title");
    assert_eq!(tickets[1].id, 1);
    assert_eq!(tickets[1].description, "Test description 2");
    assert_eq!(tickets[1].status, "To-Do");
}

#[test]
fn tickets_create_ok() {
    let (mut db, _) = setup_db();
    let ticket = create(&mut db, create_input("New task title", "New task description")).unwrap();
    assert_eq!("New task title", ticket.title);
    assert_eq!("New task description", ticket.description);
    assert_eq!(ticket.id, 2);
}

#[test]
fn tickets_create_bad_request_empty_title() {
    let (mut db, _) = setup_db();
    let err = create(&mut db, create_input("", "New task description")).unwrap_err();
    let error_response = ErrorResponse::from_error(&err);
    assert_eq!(400, err.status_code());
    assert_eq!("The title cannot be empty", error_response.message);
    assert_eq!(list(&db).len(), 2);
}

#[test]
fn tickets_get_ok() {
    let (db, tickets) = setup_db();
    let ticket = get(&db, tickets[0].value()).unwrap();
    assert_eq!("Test title", ticket.title);
    assert_eq!("Test description", ticket.description);
}

#[test]
fn tickets_get_not_found() {
    let (db, _) = setup_db();
    let err = get(&db, 12345).unwrap_err();
    assert_eq!(404, err.status_code());
    assert_eq!(err, ApiError::NotFound(12345));
    assert_eq!(err.message(), "Ticket not found");
}

#[test]
fn tickets_update_ok() {
    let (mut db, tickets) = setup_db();
    let id = tickets[0].value();
    let input = update_input(
        id,
        Some("Updated task title"),
        Some("Updated task description"),
        Some(Status::InProgress.token()),
    );
    let ticket = update(&mut db, id, input).unwrap();
    assert_eq!("Updated task title", ticket.title);
    assert_eq!("Updated task description", ticket.description);
    assert_eq!(Status::InProgress.token(), ticket.status);
}

#[test]
fn tickets_update_bad_request_invalid_status() {
    let (mut db, tickets) = setup_db();
    let id = tickets[0].value();
    let input = update_input(id, None, None, Some("Invalid-Status"));
    let err = update(&mut db, id, input).unwrap_err();
    let error_response = ErrorResponse::from_error(&err);
    assert_eq!(400, err.status_code());
    assert_eq!("Invalid status", error_response.message);
    let ticket = get(&db, id).unwrap();
    assert_eq!(ticket.title, "Test title");
    assert_eq!(ticket.description, "Test description");
    assert_eq!(ticket.status, "To-Do");
}

#[test]
fn ids_increase_with_each_create() {
    let mut db = TicketStore::new();
    let mut last = None;
    for i in 0..5u64 {
        let t = create(&mut db, create_input("Title", "Description")).unwrap();
        assert_eq!(t.id, i);
        if let Some(prev) = last {
            assert!(t.id > prev);
        }
        last = Some(t.id);
    }
}

#[test]
fn get_after_create_returns_draft_fields_and_todo() {
    let mut db = TicketStore::new();
    let created = create(&mut db, create_input("Write docs", "For the store")).unwrap();
    let fetched = get(&db, created.id).unwrap();
    assert_eq!(fetched.id, created.id);
    assert_eq!(fetched.title, "Write docs");
    assert_eq!(fetched.description, "For the store");
    assert_eq!(fetched.status, "To-Do");
}

#[test]
fn status_only_update_keeps_text() {
    let (mut db, _) = setup_db();
    let t = update(&mut db, 1, update_input(1, None, None, Some("Done"))).unwrap();
    assert_eq!(t.title, "Test title 2");
    assert_eq!(t.description, "Test description 2");
    assert_eq!(t.status, "Done");
}

#[test]
fn second_update_applies_after_first() {
    let (mut db, _) = setup_db();
    update(&mut db, 0, update_input(0, Some("First"), Some("First text"), None)).unwrap();
    let t = update(&mut db, 0, update_input(0, Some("Second"), None, Some("In-Progress"))).unwrap();
    assert_eq!(t.title, "Second");
    assert_eq!(t.description, "First text");
    assert_eq!(t.status, "In-Progress");
}

#[test]
fn update_is_not_atomic_across_fields() {
    let (mut db, _) = setup_db();
    let err = update(&mut db, 0, update_input(0, Some("Kept"), Some(""), Some("Done"))).unwrap_err();
    assert_eq!(err, ApiError::Description(DescriptionError::Empty));
    assert_eq!(err.message(), "The description cannot be empty");
    let t = get(&db, 0).unwrap();
    assert_eq!(t.title, "Kept");
    assert_eq!(t.description, "Test description");
    assert_eq!(t.status, "To-Do");
}

#[test]
fn update_unknown_id_is_not_found() {
    let (mut db, _) = setup_db();
    let err = update(&mut db, 7, update_input(7, Some("X"), None, None)).unwrap_err();
    assert_eq!(err, ApiError::NotFound(7));
    assert_eq!(err.status_code(), 404);
}

#[test]
fn update_rejects_long_title() {
    let (mut db, _) = setup_db();
    let long = "x".repeat(51);
    let err = update(&mut db, 0, update_input(0, Some(&long), None, None)).unwrap_err();
    assert_eq!(err, ApiError::Title(TitleError::TooLong));
    assert_eq!(err.message(), "The title cannot be longer than 50 bytes");
    assert_eq!(get(&db, 0).unwrap().title, "Test title");
}

#[test]
fn create_rejects_long_description() {
    let mut db = TicketStore::new();
    let long = "y".repeat(501);
    let err = create(&mut db, create_input("Title", &long)).unwrap_err();
    assert_eq!(err, ApiError::Description(DescriptionError::TooLong));
    assert_eq!(err.status_code(), 400);
    assert_eq!(list(&db).len(), 0);
}

#[test]
fn list_never_shows_later_tickets() {
    let (mut db, _) = setup_db();
    let before = list(&db);
    create(&mut db, create_input("Later", "Created after the listing")).unwrap();
    assert_eq!(before.len(), 2);
    assert!(before.iter().all(|t| t.id < 2));
    assert!(before.windows(2).all(|w| w[0].id < w[1].id));
    assert_eq!(list(&db).len(), 3);
}

#[test]
fn end_to_end_scenario() {
    let mut db = TicketStore::new();
    let created = create(&mut db, create_input("Fix bug", "Crash on startup")).unwrap();
    assert_eq!(created.id, 0);
    assert_eq!(created.title, "Fix bug");
    assert_eq!(created.description, "Crash on startup");
    assert_eq!(created.status, "To-Do");

    let updated = update(&mut db, 0, update_input(0, None, None, Some("In-Progress"))).unwrap();
    assert_eq!(updated.title, "Fix bug");
    assert_eq!(updated.description, "Crash on startup");
    assert_eq!(updated.status, "In-Progress");

    let missing = get(&db, 999).unwrap_err();
    assert_eq!(missing.status_code(), 404);
    assert_eq!(ErrorResponse::from_error(&missing).message, "Ticket not found");

    let invalid = create(&mut db, create_input("", "x")).unwrap_err();
    assert_eq!(invalid.status_code(), 400);
    assert_eq!(invalid.message(), "The title cannot be empty");
}

#[test]
fn title_limit_counts_bytes() {
    assert!(TicketTitle::new("a".repeat(50)).is_ok());
    assert_eq!(TicketTitle::new("a".repeat(51)).unwrap_err(), TitleError::TooLong);
    // 26 characters of two bytes each
    assert_eq!(TicketTitle::new("é".repeat(26)).unwrap_err(), TitleError::TooLong);
    assert!(TicketTitle::new("é".repeat(25)).is_ok());
}

#[test]
fn description_limit_counts_bytes() {
    assert!(TicketDescription::new("d".repeat(500)).is_ok());
    assert_eq!(TicketDescription::new("d".repeat(501)).unwrap_err(), DescriptionError::TooLong);
    assert_eq!(TicketDescription::new(String::new()).unwrap_err(), DescriptionError::Empty);
}

#[test]
fn status_tokens_round_trip() {
    for s in [Status::ToDo, Status::InProgress, Status::Done] {
        assert_eq!(Status::parse(&s.token().to_string()), Some(s));
    }
    assert_eq!(Status::ToDo.token(), "To-Do");
    assert_eq!(Status::InProgress.token(), "In-Progress");
    assert_eq!(Status::Done.token(), "Done");
    assert_eq!(Status::parse(&"done".to_string()), None);
}

#[test]
fn worker_inserts_and_gets() {
    let mut db = TicketStore::new();
    let id = match handle_command(&mut db, Command::Insert(draft("Queued", "Via the worker"))) {
        Reply::Inserted(id) => id,
        Reply::Found(_) => panic!("wrong reply"),
    };
    assert_eq!(id.value(), 0);
    match handle_command(&mut db, Command::Get(id)) {
        Reply::Found(Some(t)) => {
            assert_eq!(t.title.value(), "Queued");
            assert_eq!(t.status, Status::ToDo);
        }
        _ => panic!("wrong reply"),
    }
    match handle_command(&mut db, Command::Get(TicketId::new(5))) {
        Reply::Found(None) => {}
        _ => panic!("wrong reply"),
    }
}
