use freelance_flow::models::{Client, CurrencySettings, Expense, Invoice, Project,
    RecurringInvoice, TaxSettings, TimeEntry, UserProfile};
use freelance_flow::store::{initialize_db, Store};
use freelance_flow::Error;

fn client(id: &str, name: &str) -> Client {
    Client { id: id.to_string(), name: name.to_string(), email: None }
}

fn ready_store() -> Store {
    let mut store = Store::new();
    initialize_db(&mut store);
    store
}

#[test]
fn schema_creation_is_idempotent_and_loses_no_data() {
    let mut store = ready_store();
    store.add_client(client("c1", "Ada")).unwrap();
    initialize_db(&mut store);
    initialize_db(&mut store);
    let clients = store.list_clients();
    assert_eq!(clients.len(), 1);
    assert_eq!(clients[0], client("c1", "Ada"));
}

#[test]
fn add_and_list_clients() {
    let mut store = ready_store();
    store.add_client(client("c1", "Ada")).unwrap();
    store
        .add_client(Client {
            id: "c2".to_string(),
            name: "Grace".to_string(),
            email: Some("grace@example.com".to_string()),
        })
        .unwrap();
    let clients = store.list_clients();
    assert_eq!(clients.len(), 2);
    assert_eq!(clients[0].id, "c1");
    assert_eq!(clients[1].email.as_deref(), Some("grace@example.com"));
}

#[test]
fn add_client_with_taken_id_is_a_conflict() {
    let mut store = ready_store();
    store.add_client(client("c1", "Ada")).unwrap();
    let r = store.add_client(client("c1", "Someone Else"));
    assert!(matches!(r, Err(Error::Conflict)));
    let clients = store.list_clients();
    assert_eq!(clients.len(), 1);
    assert_eq!(clients[0].name, "Ada");
}

#[test]
fn update_client_replaces_fields_and_ignores_missing_id() {
    let mut store = ready_store();
    store.add_client(client("c1", "Ada")).unwrap();
    store.update_client(Client {
        id: "c1".to_string(),
        name: "Ada Lovelace".to_string(),
        email: Some("ada@example.com".to_string()),
    });
    store.update_client(client("missing", "Nobody"));
    let clients = store.list_clients();
    assert_eq!(clients.len(), 1);
    assert_eq!(clients[0].name, "Ada Lovelace");
}

#[test]
fn delete_client_removes_row_and_ignores_missing_id() {
    let mut store = ready_store();
    store.add_client(client("c1", "Ada")).unwrap();
    store.add_client(client("c2", "Grace")).unwrap();
    store.delete_client(&"c1".to_string());
    store.delete_client(&"missing".to_string());
    let clients = store.list_clients();
    assert_eq!(clients.len(), 1);
    assert_eq!(clients[0].id, "c2");
}

#[test]
fn deleting_a_client_keeps_its_projects() {
    // Referential integrity is advisory: no cascade on delete.
    let mut store = ready_store();
    store.add_client(client("c1", "Ada")).unwrap();
    store
        .add_project(Project {
            id: "p1".to_string(),
            name: "Engine".to_string(),
            client_id: "c1".to_string(),
            rate: Some(120_000),
        })
        .unwrap();
    store.delete_client(&"c1".to_string());
    let projects = store.list_projects();
    assert_eq!(projects.len(), 1);
    assert_eq!(projects[0].client_id, "c1");
}

#[test]
fn project_crud_round() {
    let mut store = ready_store();
    let p = Project {
        id: "p1".to_string(),
        name: "Engine".to_string(),
        client_id: "c1".to_string(),
        rate: None,
    };
    store.add_project(p).unwrap();
    let r = store.add_project(Project {
        id: "p1".to_string(),
        name: "Duplicate".to_string(),
        client_id: "c9".to_string(),
        rate: None,
    });
    assert!(matches!(r, Err(Error::Conflict)));
    store.update_project(Project {
        id: "p1".to_string(),
        name: "Engine v2".to_string(),
        client_id: "c1".to_string(),
        rate: Some(95_500),
    });
    assert_eq!(store.list_projects()[0].rate, Some(95_500));
    store.delete_project(&"p1".to_string());
    assert!(store.list_projects().is_empty());
}

#[test]
fn time_entry_crud_round() {
    let mut store = ready_store();
    let e = TimeEntry {
        id: "t1".to_string(),
        project_id: "p1".to_string(),
        start_time: "2024-01-01T09:00:00.000Z".to_string(),
        end_time: None,
    };
    store.add_time_entry(e).unwrap();
    store.update_time_entry(TimeEntry {
        id: "t1".to_string(),
        project_id: "p1".to_string(),
        start_time: "2024-01-01T09:00:00.000Z".to_string(),
        end_time: Some("2024-01-01T10:30:00.000Z".to_string()),
    });
    let entries = store.list_time_entries();
    assert_eq!(entries[0].end_time.as_deref(), Some("2024-01-01T10:30:00.000Z"));
    store.delete_time_entry(&"t1".to_string());
    assert!(store.list_time_entries().is_empty());
}

#[test]
fn invoice_and_expense_and_recurring_crud() {
    let mut store = ready_store();
    store
        .add_invoice(Invoice {
            id: "i1".to_string(),
            client_name: "Ada".to_string(),
            issue_date: "2024-01-01".to_string(),
            due_date: "2024-02-01".to_string(),
            amount: 1_500_000,
            status: "open".to_string(),
            currency: "EUR".to_string(),
        })
        .unwrap();
    store
        .add_expense(Expense {
            id: "e1".to_string(),
            project_id: "p1".to_string(),
            description: "Rail ticket".to_string(),
            amount: 59_900,
            date: "2024-01-05".to_string(),
            is_billed: false,
            is_billable: true,
        })
        .unwrap();
    store
        .add_recurring_invoice(RecurringInvoice {
            id: "r1".to_string(),
            client_name: "Ada".to_string(),
            frequency: "monthly".to_string(),
            next_due_date: "2024-02-01".to_string(),
            amount: 800_000,
            currency: "EUR".to_string(),
            status: "active".to_string(),
        })
        .unwrap();
    assert_eq!(store.list_invoices().len(), 1);
    assert_eq!(store.list_expenses().len(), 1);
    assert_eq!(store.list_recurring_invoices().len(), 1);
    store.delete_invoice(&"i1".to_string());
    store.delete_expense(&"e1".to_string());
    store.delete_recurring_invoice(&"r1".to_string());
    assert!(store.list_invoices().is_empty());
    assert!(store.list_expenses().is_empty());
    assert!(store.list_recurring_invoices().is_empty());
}

#[test]
fn singleton_get_before_set_returns_defaults_and_never_fails() {
    let store = ready_store();
    let tax = store.get_tax_settings();
    assert_eq!(tax, TaxSettings { rate: 0, internal_cost_rate: 0 });
    let profile = store.get_user_profile();
    assert_eq!(
        profile,
        UserProfile {
            company_name: String::new(),
            company_email: String::new(),
            company_address: String::new(),
            logo: None,
        }
    );
    let currency = store.get_currency_settings();
    assert_eq!(
        currency,
        CurrencySettings { default_currency: String::new(), invoice_language: String::new() }
    );
}

#[test]
fn singleton_set_replaces_the_one_row() {
    let mut store = ready_store();
    store.set_tax_settings(TaxSettings { rate: 19_000, internal_cost_rate: 45_000 });
    store.set_tax_settings(TaxSettings { rate: 7_000, internal_cost_rate: 45_000 });
    assert_eq!(store.get_tax_settings(), TaxSettings { rate: 7_000, internal_cost_rate: 45_000 });
    store.set_user_profile(UserProfile {
        company_name: "Flow GmbH".to_string(),
        company_email: "mail@flow.example".to_string(),
        company_address: "1 Main St".to_string(),
        logo: Some(vec![0xff, 0xd8]),
    });
    assert_eq!(store.get_user_profile().logo, Some(vec![0xff, 0xd8]));
    store.set_currency_settings(CurrencySettings {
        default_currency: "USD".to_string(),
        invoice_language: "en".to_string(),
    });
    assert_eq!(store.get_currency_settings().default_currency, "USD");
}

#[test]
fn trial_start_date_is_written_once() {
    let mut store = ready_store();
    assert_eq!(store.get_trial_start_date(), None);
    store.set_trial_start_date("2024-01-01".to_string()).unwrap();
    assert_eq!(store.get_trial_start_date().as_deref(), Some("2024-01-01"));
    let r = store.set_trial_start_date("2024-06-01".to_string());
    assert!(matches!(r, Err(Error::Conflict)));
    assert_eq!(store.get_trial_start_date().as_deref(), Some("2024-01-01"));
}
