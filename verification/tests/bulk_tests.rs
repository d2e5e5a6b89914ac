use freelance_flow::bulk::{load_all_data, save_all_data};
use freelance_flow::models::{AppData, Client, CurrencySettings, Expense, Invoice, Project,
    RecurringInvoice, TaxSettings, TimeEntry, UserProfile};
use freelance_flow::store::{initialize_db, Store};
use freelance_flow::Error;

fn ready_store() -> Store {
    let mut store = Store::new();
    initialize_db(&mut store);
    store
}

fn sample_aggregate() -> AppData {
    AppData {
        clients: vec![
            Client { id: "c1".to_string(), name: "Ada".to_string(), email: None },
            Client {
                id: "c2".to_string(),
                name: "Grace".to_string(),
                email: Some("grace@example.com".to_string()),
            },
        ],
        projects: vec![Project {
            id: "p1".to_string(),
            name: "Engine".to_string(),
            client_id: "c1".to_string(),
            rate: Some(120_000),
        }],
        time_entries: vec![TimeEntry {
            id: "t1".to_string(),
            project_id: "p1".to_string(),
            start_time: "2024-01-01T09:00:00.000Z".to_string(),
            end_time: Some("2024-01-01T11:00:00.000Z".to_string()),
        }],
        invoices: vec![Invoice {
            id: "i1".to_string(),
            client_name: "Ada".to_string(),
            issue_date: "2024-01-01".to_string(),
            due_date: "2024-02-01".to_string(),
            amount: 1_500_000,
            status: "open".to_string(),
            currency: "EUR".to_string(),
        }],
        expenses: vec![Expense {
            id: "e1".to_string(),
            project_id: "p1".to_string(),
            description: "Rail ticket".to_string(),
            amount: 59_900,
            date: "2024-01-05".to_string(),
            is_billed: false,
            is_billable: true,
        }],
        user_profile: UserProfile {
            company_name: "Flow GmbH".to_string(),
            company_email: "mail@flow.example".to_string(),
            company_address: "1 Main St".to_string(),
            logo: Some(vec![1, 2, 3]),
        },
        recurring_invoices: vec![RecurringInvoice {
            id: "r1".to_string(),
            client_name: "Ada".to_string(),
            frequency: "monthly".to_string(),
            next_due_date: "2024-02-01".to_string(),
            amount: 800_000,
            currency: "EUR".to_string(),
            status: "active".to_string(),
        }],
        tax_settings: TaxSettings { rate: 19_000, internal_cost_rate: 45_000 },
        currency_settings: CurrencySettings {
            default_currency: "EUR".to_string(),
            invoice_language: "de".to_string(),
        },
    }
}

#[test]
fn save_then_load_round_trips_the_aggregate() {
    let mut store = ready_store();
    save_all_data(&mut store, sample_aggregate()).unwrap();
    let loaded = load_all_data(&store);
    assert_eq!(loaded, sample_aggregate());
}

#[test]
fn save_replaces_previous_contents_entirely() {
    let mut store = ready_store();
    store
        .add_client(Client { id: "stale".to_string(), name: "Old".to_string(), email: None })
        .unwrap();
    save_all_data(&mut store, sample_aggregate()).unwrap();
    let loaded = load_all_data(&store);
    assert_eq!(loaded.clients.len(), 2);
    assert!(loaded.clients.iter().all(|c| c.id != "stale"));
}

#[test]
fn interrupted_save_rolls_back_to_the_pre_call_state() {
    // The second client row reuses the first one's id, so writing it fails
    // mid-save; the whole operation must leave the store untouched.
    let mut store = ready_store();
    save_all_data(&mut store, sample_aggregate()).unwrap();
    let before = load_all_data(&store);

    let mut broken = sample_aggregate();
    broken.clients = vec![
        Client { id: "dup".to_string(), name: "First".to_string(), email: None },
        Client { id: "dup".to_string(), name: "Second".to_string(), email: None },
    ];
    broken.projects.push(Project {
        id: "p-new".to_string(),
        name: "Should not appear".to_string(),
        client_id: "dup".to_string(),
        rate: None,
    });
    let r = save_all_data(&mut store, broken);
    assert!(matches!(r, Err(Error::Conflict)));
    assert_eq!(load_all_data(&store), before);
}

#[test]
fn load_on_a_fresh_store_yields_defaults() {
    let store = ready_store();
    let loaded = load_all_data(&store);
    assert!(loaded.clients.is_empty());
    assert!(loaded.projects.is_empty());
    assert!(loaded.time_entries.is_empty());
    assert!(loaded.invoices.is_empty());
    assert!(loaded.expenses.is_empty());
    assert!(loaded.recurring_invoices.is_empty());
    assert_eq!(loaded.tax_settings, TaxSettings { rate: 0, internal_cost_rate: 0 });
    assert_eq!(loaded.user_profile.company_name, "");
    assert_eq!(loaded.user_profile.logo, None);
    assert_eq!(loaded.currency_settings.default_currency, "");
}
