use freelance_flow::digits::{i32_to_string, two_digit_string, u64_to_string};
use freelance_flow::migrate::{make_end_timestamp, make_start_timestamp, migrate_data};
use freelance_flow::models::Client;
use freelance_flow::old_models::{OldClient, OldData, OldProject, OldTimeEntry};
use freelance_flow::store::{initialize_db, Store};

fn ready_store() -> Store {
    let mut store = Store::new();
    initialize_db(&mut store);
    store
}

fn empty_legacy() -> OldData {
    OldData { clients: vec![], projects: vec![], time_entries: vec![] }
}

#[test]
fn decimal_rendering_is_exact() {
    assert_eq!(u64_to_string(0), "0");
    assert_eq!(u64_to_string(7), "7");
    assert_eq!(u64_to_string(1907), "1907");
    assert_eq!(i32_to_string(42), "42");
    assert_eq!(i32_to_string(-42), "-42");
    assert_eq!(i32_to_string(i32::MIN), "-2147483648");
    assert_eq!(two_digit_string(3), "03");
    assert_eq!(two_digit_string(30), "30");
    assert_eq!(two_digit_string(120), "120");
}

#[test]
fn legacy_hours_become_explicit_timestamps() {
    // 1.5 hours on 2024-01-01: start at midnight, end at 01:30.
    assert_eq!(
        make_start_timestamp(&"2024-01-01".to_string()),
        "2024-01-01T00:00:00.000Z"
    );
    assert_eq!(
        make_end_timestamp(&"2024-01-01".to_string(), 1500),
        "2024-01-01T01:30:00.000Z"
    );
}

#[test]
fn fractional_minutes_round_half_up() {
    // 0.1825 hours = 10.95 minutes rounds to 11.
    assert_eq!(
        make_end_timestamp(&"2024-03-05".to_string(), 182),
        "2024-03-05T00:11:00.000Z"
    );
    // 2.0 hours lands exactly.
    assert_eq!(
        make_end_timestamp(&"2024-03-05".to_string(), 2000),
        "2024-03-05T02:00:00.000Z"
    );
}

#[test]
fn migrated_entities_appear_with_string_ids() {
    let mut store = ready_store();
    let legacy = OldData {
        clients: vec![OldClient {
            id: 7,
            name: "Ada".to_string(),
            email: "ada@example.com".to_string(),
        }],
        projects: vec![OldProject {
            id: 3,
            name: "Engine".to_string(),
            client: "Ada".to_string(),
            rate: Some(120_000),
        }],
        time_entries: vec![OldTimeEntry {
            id: 11,
            project_id: 3,
            hours_milli: 1500,
            date: "2024-01-01".to_string(),
        }],
    };
    migrate_data(&mut store, &legacy);

    let clients = store.list_clients();
    assert_eq!(clients.len(), 1);
    assert_eq!(clients[0].id, "7");
    assert_eq!(clients[0].email.as_deref(), Some("ada@example.com"));

    let projects = store.list_projects();
    assert_eq!(projects.len(), 1);
    assert_eq!(projects[0].id, "3");
    assert_eq!(projects[0].client_id, "7");

    let entries = store.list_time_entries();
    assert_eq!(entries.len(), 1);
    assert_eq!(entries[0].id, "11");
    assert_eq!(entries[0].project_id, "3");
    assert_eq!(entries[0].start_time, "2024-01-01T00:00:00.000Z");
    assert_eq!(entries[0].end_time.as_deref(), Some("2024-01-01T01:30:00.000Z"));
}

#[test]
fn colliding_client_id_leaves_the_existing_row_unchanged() {
    let mut store = ready_store();
    store
        .add_client(Client {
            id: "7".to_string(),
            name: "Kept".to_string(),
            email: Some("kept@example.com".to_string()),
        })
        .unwrap();
    let mut legacy = empty_legacy();
    legacy.clients.push(OldClient {
        id: 7,
        name: "Incoming".to_string(),
        email: "incoming@example.com".to_string(),
    });
    migrate_data(&mut store, &legacy);
    let clients = store.list_clients();
    assert_eq!(clients.len(), 1);
    assert_eq!(clients[0].name, "Kept");
    assert_eq!(clients[0].email.as_deref(), Some("kept@example.com"));
}

#[test]
fn project_with_unknown_client_name_is_skipped_silently() {
    let mut store = ready_store();
    let mut legacy = empty_legacy();
    legacy.projects.push(OldProject {
        id: 1,
        name: "Orphan".to_string(),
        client: "Nobody".to_string(),
        rate: None,
    });
    migrate_data(&mut store, &legacy);
    assert!(store.list_projects().is_empty());
}

#[test]
fn projects_resolve_against_clients_present_after_insertion() {
    // The pre-existing client wins the id collision, and its name — not the
    // incoming row's — is what the project lookup sees.
    let mut store = ready_store();
    store
        .add_client(Client { id: "1".to_string(), name: "Existing".to_string(), email: None })
        .unwrap();
    let legacy = OldData {
        clients: vec![OldClient {
            id: 1,
            name: "Incoming".to_string(),
            email: String::new(),
        }],
        projects: vec![
            OldProject {
                id: 5,
                name: "Bound to existing".to_string(),
                client: "Existing".to_string(),
                rate: None,
            },
            OldProject {
                id: 6,
                name: "Bound to incoming".to_string(),
                client: "Incoming".to_string(),
                rate: None,
            },
        ],
        time_entries: vec![],
    };
    migrate_data(&mut store, &legacy);
    let projects = store.list_projects();
    assert_eq!(projects.len(), 1);
    assert_eq!(projects[0].id, "5");
    assert_eq!(projects[0].client_id, "1");
}

#[test]
fn when_clients_share_a_name_the_one_stored_last_wins() {
    let mut store = ready_store();
    let legacy = OldData {
        clients: vec![
            OldClient { id: 1, name: "Twin".to_string(), email: String::new() },
            OldClient { id: 2, name: "Twin".to_string(), email: String::new() },
        ],
        projects: vec![OldProject {
            id: 9,
            name: "Which twin?".to_string(),
            client: "Twin".to_string(),
            rate: None,
        }],
        time_entries: vec![],
    };
    migrate_data(&mut store, &legacy);
    let projects = store.list_projects();
    assert_eq!(projects.len(), 1);
    assert_eq!(projects[0].client_id, "2");
}

#[test]
fn colliding_time_entry_id_is_ignored() {
    let mut store = ready_store();
    let legacy = OldData {
        clients: vec![],
        projects: vec![],
        time_entries: vec![
            OldTimeEntry {
                id: 4,
                project_id: 1,
                hours_milli: 1000,
                date: "2024-01-01".to_string(),
            },
            OldTimeEntry {
                id: 4,
                project_id: 2,
                hours_milli: 2000,
                date: "2024-02-02".to_string(),
            },
        ],
    };
    migrate_data(&mut store, &legacy);
    let entries = store.list_time_entries();
    assert_eq!(entries.len(), 1);
    assert_eq!(entries[0].project_id, "1");
    assert_eq!(entries[0].start_time, "2024-01-01T00:00:00.000Z");
}
