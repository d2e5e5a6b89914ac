//! The relational store: the ten tables of the application, their
//! well-formedness invariant, schema creation, per-entity CRUD, the
//! singleton settings, and the trial-start row.
//!
//! The store models the persisted database file; the layer around the
//! library mirrors it row for row into the file-backed engine.

use vstd::prelude::*;
use vstd::string::StringExecFns;

use crate::error::Error;
use crate::models::{
    default_currency_settings, default_tax_settings, default_user_profile, AppData, Client,
    ClientView, CurrencySettings, CurrencySettingsView, Expense, ExpenseView, Invoice, InvoiceView,
    Project, ProjectView, RecurringInvoice, RecurringInvoiceView, TaxSettings, TimeEntry,
    TimeEntryView, UserProfile, UserProfileView,
};
use crate::records::{
    add_record, delete_record, has_id, insert_or_ignore_record, insert_or_ignore_spec,
    lemma_unique_push, lemma_unique_update, lemma_without_id_unique, list_records, opt_view,
    seq_views, unique_ids, update_id, update_record, without_id, Record,
};

verus! {

/// The mathematical model of the store: the set of created tables, the rows
/// of each id-keyed table in storage order, the value of each singleton, and
/// the trial-start row.
#[verifier::ext_equal]
pub struct StoreV {
    pub tables: Seq<Seq<char>>,
    pub clients: Seq<ClientView>,
    pub projects: Seq<ProjectView>,
    pub time_entries: Seq<TimeEntryView>,
    pub invoices: Seq<InvoiceView>,
    pub expenses: Seq<ExpenseView>,
    pub recurring_invoices: Seq<RecurringInvoiceView>,
    pub user_profile: UserProfileView,
    pub tax_settings: TaxSettings,
    pub currency_settings: CurrencySettingsView,
    pub trial_start_date: Option<Seq<char>>,
}

/// The in-memory relational store.
pub struct Store {
    pub(crate) tables: Vec<String>,
    pub(crate) clients: Vec<Client>,
    pub(crate) projects: Vec<Project>,
    pub(crate) time_entries: Vec<TimeEntry>,
    pub(crate) invoices: Vec<Invoice>,
    pub(crate) expenses: Vec<Expense>,
    pub(crate) recurring_invoices: Vec<RecurringInvoice>,
    pub(crate) user_profile: UserProfile,
    pub(crate) tax_settings: TaxSettings,
    pub(crate) currency_settings: CurrencySettings,
    pub(crate) trial_start_date: Option<String>,
}

impl View for Store {
    type V = StoreV;

    closed spec fn view(&self) -> StoreV {
        StoreV {
            tables: seq_views(self.tables@),
            clients: seq_views(self.clients@),
            projects: seq_views(self.projects@),
            time_entries: seq_views(self.time_entries@),
            invoices: seq_views(self.invoices@),
            expenses: seq_views(self.expenses@),
            recurring_invoices: seq_views(self.recurring_invoices@),
            user_profile: self.user_profile@,
            tax_settings: self.tax_settings,
            currency_settings: self.currency_settings@,
            trial_start_date: opt_view(self.trial_start_date),
        }
    }
}

/// The store's data invariant: within each id-keyed table the identities are
/// pairwise distinct (they are primary keys).
pub open spec fn store_wf(s: StoreV) -> bool {
    &&& unique_ids::<Client>(s.clients)
    &&& unique_ids::<Project>(s.projects)
    &&& unique_ids::<TimeEntry>(s.time_entries)
    &&& unique_ids::<Invoice>(s.invoices)
    &&& unique_ids::<Expense>(s.expenses)
    &&& unique_ids::<RecurringInvoice>(s.recurring_invoices)
}

/// The tables that schema creation guarantees.
pub open spec fn required_tables() -> Seq<Seq<char>> {
    seq![
        "clients"@,
        "projects"@,
        "time_entries"@,
        "invoices"@,
        "expenses"@,
        "user_profile"@,
        "recurring_invoices"@,
        "tax_settings"@,
        "currency_settings"@,
        "trial_info"@,
    ]
}

/// Every required table has been created.
pub open spec fn schema_ready(s: StoreV) -> bool {
    forall|k: int|
        0 <= k < required_tables().len() ==> has_id::<String>(
            s.tables,
            #[trigger] required_tables()[k],
        )
}

/// The table list after creating each named table only if absent.
pub open spec fn add_tables(tables: Seq<Seq<char>>, names: Seq<Seq<char>>) -> Seq<Seq<char>>
    decreases names.len(),
{
    if names.len() == 0 {
        tables
    } else {
        insert_or_ignore_spec::<String>(add_tables(tables, names.drop_last()), names.last())
    }
}

/// The store after schema creation: the required tables exist, everything
/// else is untouched.
pub open spec fn with_schema(s: StoreV) -> StoreV {
    StoreV { tables: add_tables(s.tables, required_tables()), ..s }
}

/// A fresh store: no tables yet, no rows, default singleton values, no
/// trial-start row.
pub open spec fn empty_store() -> StoreV {
    StoreV {
        tables: Seq::<Seq<char>>::empty(),
        clients: Seq::<ClientView>::empty(),
        projects: Seq::<ProjectView>::empty(),
        time_entries: Seq::<TimeEntryView>::empty(),
        invoices: Seq::<InvoiceView>::empty(),
        expenses: Seq::<ExpenseView>::empty(),
        recurring_invoices: Seq::<RecurringInvoiceView>::empty(),
        user_profile: default_user_profile(),
        tax_settings: default_tax_settings(),
        currency_settings: default_currency_settings(),
        trial_start_date: None,
    }
}

proof fn lemma_add_tables_has(tables: Seq<Seq<char>>, names: Seq<Seq<char>>)
    ensures
        forall|k: int|
            0 <= k < names.len() ==> has_id::<String>(add_tables(tables, names), #[trigger] names[k]),
        forall|id: Seq<char>|
            has_id::<String>(tables, id) ==> has_id::<String>(add_tables(tables, names), id),
    decreases names.len(),
{
    if names.len() > 0 {
        let prev = add_tables(tables, names.drop_last());
        lemma_add_tables_has(tables, names.drop_last());
        let res = add_tables(tables, names);
        assert forall|id: Seq<char>| has_id::<String>(prev, id) implies has_id::<String>(
            res,
            id,
        ) by {
            if !has_id::<String>(prev, names.last()) {
                let i = choose|i: int| 0 <= i < prev.len() && String::vid(prev[i]) == id;
                assert(String::vid(prev.push(names.last())[i]) == id);
            }
        }
        assert(has_id::<String>(res, names.last())) by {
            if !has_id::<String>(prev, names.last()) {
                assert(String::vid(prev.push(names.last())[prev.len() as int]) == names.last());
            }
        }
        assert forall|k: int| 0 <= k < names.len() implies has_id::<String>(
            res,
            #[trigger] names[k],
        ) by {
            if k < names.len() - 1 {
                assert(names.drop_last()[k] == names[k]);
            }
        }
    }
}

proof fn lemma_add_tables_noop(tables: Seq<Seq<char>>, names: Seq<Seq<char>>)
    requires
        forall|k: int| 0 <= k < names.len() ==> has_id::<String>(tables, #[trigger] names[k]),
    ensures
        add_tables(tables, names) == tables,
    decreases names.len(),
{
    if names.len() > 0 {
        assert forall|k: int| 0 <= k < names.drop_last().len() implies has_id::<String>(
            tables,
            #[trigger] names.drop_last()[k],
        ) by {
            assert(names.drop_last()[k] == names[k]);
        }
        lemma_add_tables_noop(tables, names.drop_last());
        assert(names.last() == names[names.len() - 1]);
    }
}

/// On a fresh store, after schema creation and before any write, every
/// singleton reads as its zero-value default and no trial start is
/// recorded: reading a singleton never fails for absence.
pub proof fn lemma_fresh_singletons_default()
    ensures
        with_schema(empty_store()).user_profile == default_user_profile(),
        with_schema(empty_store()).tax_settings == default_tax_settings(),
        with_schema(empty_store()).currency_settings == default_currency_settings(),
        with_schema(empty_store()).trial_start_date is None,
{
}

/// Schema creation is idempotent: creating the tables a second time yields
/// the same table set as creating them once, and touches no data.
pub proof fn lemma_schema_creation_idempotent(s: StoreV)
    ensures
        with_schema(with_schema(s)) == with_schema(s),
{
    lemma_add_tables_has(s.tables, required_tables());
    lemma_add_tables_noop(with_schema(s).tables, required_tables());
    assert(with_schema(with_schema(s)) =~= with_schema(s));
}

/// Ensures all required tables exist; creates each only if absent, never
/// drops or alters one, and never touches data. Idempotent; safe to run on
/// every startup.
pub fn initialize_db(store: &mut Store)
    ensures
        final(store)@ == with_schema(old(store)@),
        schema_ready(final(store)@),
        store_wf(final(store)@) == store_wf(old(store)@),
{
    let mut names: Vec<String> = Vec::new();
    names.push(String::from_str("clients"));
    names.push(String::from_str("projects"));
    names.push(String::from_str("time_entries"));
    names.push(String::from_str("invoices"));
    names.push(String::from_str("expenses"));
    names.push(String::from_str("user_profile"));
    names.push(String::from_str("recurring_invoices"));
    names.push(String::from_str("tax_settings"));
    names.push(String::from_str("currency_settings"));
    names.push(String::from_str("trial_info"));
    proof {
        assert(seq_views(names@) =~= required_tables());
    }
    let mut i: usize = 0;
    while i < names.len()
        invariant
            seq_views(names@) == required_tables(),
            names@.len() == required_tables().len(),
            i <= names@.len(),
            store@.tables == add_tables(old(store)@.tables, required_tables().take(i as int)),
            store@ == (StoreV { tables: store@.tables, ..old(store)@ }),
        decreases names@.len() - i,
    {
        let name = names[i].clone();
        proof {
            assert(seq_views(names@)[i as int] == names@[i as int]@);
        }
        insert_or_ignore_record(&mut store.tables, name);
        proof {
            let req = required_tables();
            let next = req.take(i + 1);
            assert(next.drop_last() =~= req.take(i as int));
            assert(next.last() == req[i as int]);
            assert(store@ =~= (StoreV { tables: store@.tables, ..old(store)@ }));
        }
        i += 1;
    }
    proof {
        assert(required_tables().take(required_tables().len() as int) =~= required_tables());
        assert(store@ =~= with_schema(old(store)@));
        lemma_add_tables_has(old(store)@.tables, required_tables());
    }
}

impl Store {
    /// A fresh, empty store: what opening a database file for the first
    /// time yields, before any table is created.
    pub fn new() -> (r: Store)
        ensures
            r@ == empty_store(),
            store_wf(r@),
            !schema_ready(r@),
    {
        let store = Store {
            tables: Vec::new(),
            clients: Vec::new(),
            projects: Vec::new(),
            time_entries: Vec::new(),
            invoices: Vec::new(),
            expenses: Vec::new(),
            recurring_invoices: Vec::new(),
            user_profile: UserProfile {
                company_name: String::new(),
                company_email: String::new(),
                company_address: String::new(),
                logo: None,
            },
            tax_settings: TaxSettings { rate: 0, internal_cost_rate: 0 },
            currency_settings: CurrencySettings {
                default_currency: String::new(),
                invoice_language: String::new(),
            },
            trial_start_date: None,
        };
        proof {
            assert(store@ =~= empty_store());
            assert(!has_id::<String>(empty_store().tables, required_tables()[0]));
        }
        store
    }

    /// The clients, in storage order.
    pub fn list_clients(&self) -> (r: Vec<Client>)
        ensures
            seq_views(r@) == self@.clients,
    {
        list_records(&self.clients)
    }

    /// Inserts the client; fails with `Conflict` when its id is taken.
    pub fn add_client(&mut self, client: Client) -> (r: Result<(), Error>)
        requires
            store_wf(old(self)@),
            schema_ready(old(self)@),
        ensures
            store_wf(final(self)@),
            match r {
                Ok(_) => !has_id::<Client>(old(self)@.clients, client@.id) && final(self)@ == (
                    StoreV { clients: old(self)@.clients.push(client@), ..old(self)@ }
                ),
                Err(e) => e == Error::Conflict && has_id::<Client>(old(self)@.clients, client@.id)
                    && final(self)@ == old(self)@,
            },
    {
        let ghost v = client@;
        let r = add_record(&mut self.clients, client);
        proof {
            if r is Ok {
                lemma_unique_push::<Client>(old(self)@.clients, v);
                assert(self@ =~= (StoreV { clients: old(self)@.clients.push(v), ..old(self)@ }));
            } else {
                assert(self@ =~= old(self)@);
            }
        }
        r
    }

    /// Replaces the fields of the client with the given row's id; silently
    /// affects zero rows when the id is absent.
    pub fn update_client(&mut self, client: Client)
        requires
            store_wf(old(self)@),
            schema_ready(old(self)@),
        ensures
            store_wf(final(self)@),
            final(self)@ == (StoreV {
                clients: update_id::<Client>(old(self)@.clients, client@),
                ..old(self)@
            }),
    {
        let ghost v = client@;
        update_record(&mut self.clients, client);
        proof {
            lemma_unique_update::<Client>(old(self)@.clients, v);
            assert(self@ =~= (StoreV {
                clients: update_id::<Client>(old(self)@.clients, v),
                ..old(self)@
            }));
        }
    }

    /// Removes the client with the given id; silently affects zero rows when
    /// the id is absent.
    pub fn delete_client(&mut self, id: &String)
        requires
            store_wf(old(self)@),
            schema_ready(old(self)@),
        ensures
            store_wf(final(self)@),
            final(self)@ == (StoreV {
                clients: without_id::<Client>(old(self)@.clients, id@),
                ..old(self)@
            }),
    {
        delete_record(&mut self.clients, id);
        proof {
            lemma_without_id_unique::<Client>(old(self)@.clients, id@);
            assert(self@ =~= (StoreV {
                clients: without_id::<Client>(old(self)@.clients, id@),
                ..old(self)@
            }));
        }
    }

    /// The projects, in storage order.
    pub fn list_projects(&self) -> (r: Vec<Project>)
        ensures
            seq_views(r@) == self@.projects,
    {
        list_records(&self.projects)
    }

    /// Inserts the project; fails with `Conflict` when its id is taken.
    pub fn add_project(&mut self, project: Project) -> (r: Result<(), Error>)
        requires
            store_wf(old(self)@),
            schema_ready(old(self)@),
        ensures
            store_wf(final(self)@),
            match r {
                Ok(_) => !has_id::<Project>(old(self)@.projects, project@.id) && final(self)@ == (
                    StoreV { projects: old(self)@.projects.push(project@), ..old(self)@ }
                ),
                Err(e) => e == Error::Conflict && has_id::<Project>(
                    old(self)@.projects,
                    project@.id,
                ) && final(self)@ == old(self)@,
            },
    {
        let ghost v = project@;
        let r = add_record(&mut self.projects, project);
        proof {
            if r is Ok {
                lemma_unique_push::<Project>(old(self)@.projects, v);
                assert(self@ =~= (StoreV { projects: old(self)@.projects.push(v), ..old(self)@ }));
            } else {
                assert(self@ =~= old(self)@);
            }
        }
        r
    }

    /// Replaces the fields of the project with the given row's id; silently
    /// affects zero rows when the id is absent.
    pub fn update_project(&mut self, project: Project)
        requires
            store_wf(old(self)@),
            schema_ready(old(self)@),
        ensures
            store_wf(final(self)@),
            final(self)@ == (StoreV {
                projects: update_id::<Project>(old(self)@.projects, project@),
                ..old(self)@
            }),
    {
        let ghost v = project@;
        update_record(&mut self.projects, project);
        proof {
            lemma_unique_update::<Project>(old(self)@.projects, v);
            assert(self@ =~= (StoreV {
                projects: update_id::<Project>(old(self)@.projects, v),
                ..old(self)@
            }));
        }
    }

    /// Removes the project with the given id; silently affects zero rows
    /// when the id is absent.
    pub fn delete_project(&mut self, id: &String)
        requires
            store_wf(old(self)@),
            schema_ready(old(self)@),
        ensures
            store_wf(final(self)@),
            final(self)@ == (StoreV {
                projects: without_id::<Project>(old(self)@.projects, id@),
                ..old(self)@
            }),
    {
        delete_record(&mut self.projects, id);
        proof {
            lemma_without_id_unique::<Project>(old(self)@.projects, id@);
            assert(self@ =~= (StoreV {
                projects: without_id::<Project>(old(self)@.projects, id@),
                ..old(self)@
            }));
        }
    }

    /// The time entries, in storage order.
    pub fn list_time_entries(&self) -> (r: Vec<TimeEntry>)
        ensures
            seq_views(r@) == self@.time_entries,
    {
        list_records(&self.time_entries)
    }

    /// Inserts the time entry; fails with `Conflict` when its id is taken.
    pub fn add_time_entry(&mut self, entry: TimeEntry) -> (r: Result<(), Error>)
        requires
            store_wf(old(self)@),
            schema_ready(old(self)@),
        ensures
            store_wf(final(self)@),
            match r {
                Ok(_) => !has_id::<TimeEntry>(old(self)@.time_entries, entry@.id) && final(self)@
                    == (StoreV {
                    time_entries: old(self)@.time_entries.push(entry@),
                    ..old(self)@
                }),
                Err(e) => e == Error::Conflict && has_id::<TimeEntry>(
                    old(self)@.time_entries,
                    entry@.id,
                ) && final(self)@ == old(self)@,
            },
    {
        let ghost v = entry@;
        let r = add_record(&mut self.time_entries, entry);
        proof {
            if r is Ok {
                lemma_unique_push::<TimeEntry>(old(self)@.time_entries, v);
                assert(self@ =~= (StoreV {
                    time_entries: old(self)@.time_entries.push(v),
                    ..old(self)@
                }));
            } else {
                assert(self@ =~= old(self)@);
            }
        }
        r
    }

    /// Replaces the fields of the time entry with the given row's id;
    /// silently affects zero rows when the id is absent.
    pub fn update_time_entry(&mut self, entry: TimeEntry)
        requires
            store_wf(old(self)@),
            schema_ready(old(self)@),
        ensures
            store_wf(final(self)@),
            final(self)@ == (StoreV {
                time_entries: update_id::<TimeEntry>(old(self)@.time_entries, entry@),
                ..old(self)@
            }),
    {
        let ghost v = entry@;
        update_record(&mut self.time_entries, entry);
        proof {
            lemma_unique_update::<TimeEntry>(old(self)@.time_entries, v);
            assert(self@ =~= (StoreV {
                time_entries: update_id::<TimeEntry>(old(self)@.time_entries, v),
                ..old(self)@
            }));
        }
    }

    /// Removes the time entry with the given id; silently affects zero rows
    /// when the id is absent.
    pub fn delete_time_entry(&mut self, id: &String)
        requires
            store_wf(old(self)@),
            schema_ready(old(self)@),
        ensures
            store_wf(final(self)@),
            final(self)@ == (StoreV {
                time_entries: without_id::<TimeEntry>(old(self)@.time_entries, id@),
                ..old(self)@
            }),
    {
        delete_record(&mut self.time_entries, id);
        proof {
            lemma_without_id_unique::<TimeEntry>(old(self)@.time_entries, id@);
            assert(self@ =~= (StoreV {
                time_entries: without_id::<TimeEntry>(old(self)@.time_entries, id@),
                ..old(self)@
            }));
        }
    }

    /// The invoices, in storage order.
    pub fn list_invoices(&self) -> (r: Vec<Invoice>)
        ensures
            seq_views(r@) == self@.invoices,
    {
        list_records(&self.invoices)
    }

    /// Inserts the invoice; fails with `Conflict` when its id is taken.
    pub fn add_invoice(&mut self, invoice: Invoice) -> (r: Result<(), Error>)
        requires
            store_wf(old(self)@),
            schema_ready(old(self)@),
        ensures
            store_wf(final(self)@),
            match r {
                Ok(_) => !has_id::<Invoice>(old(self)@.invoices, invoice@.id) && final(self)@ == (
                    StoreV { invoices: old(self)@.invoices.push(invoice@), ..old(self)@ }
                ),
                Err(e) => e == Error::Conflict && has_id::<Invoice>(
                    old(self)@.invoices,
                    invoice@.id,
                ) && final(self)@ == old(self)@,
            },
    {
        let ghost v = invoice@;
        let r = add_record(&mut self.invoices, invoice);
        proof {
            if r is Ok {
                lemma_unique_push::<Invoice>(old(self)@.invoices, v);
                assert(self@ =~= (StoreV { invoices: old(self)@.invoices.push(v), ..old(self)@ }));
            } else {
                assert(self@ =~= old(self)@);
            }
        }
        r
    }

    /// Replaces the fields of the invoice with the given row's id; silently
    /// affects zero rows when the id is absent.
    pub fn update_invoice(&mut self, invoice: Invoice)
        requires
            store_wf(old(self)@),
            schema_ready(old(self)@),
        ensures
            store_wf(final(self)@),
            final(self)@ == (StoreV {
                invoices: update_id::<Invoice>(old(self)@.invoices, invoice@),
                ..old(self)@
            }),
    {
        let ghost v = invoice@;
        update_record(&mut self.invoices, invoice);
        proof {
            lemma_unique_update::<Invoice>(old(self)@.invoices, v);
            assert(self@ =~= (StoreV {
                invoices: update_id::<Invoice>(old(self)@.invoices, v),
                ..old(self)@
            }));
        }
    }

    /// Removes the invoice with the given id; silently affects zero rows
    /// when the id is absent.
    pub fn delete_invoice(&mut self, id: &String)
        requires
            store_wf(old(self)@),
            schema_ready(old(self)@),
        ensures
            store_wf(final(self)@),
            final(self)@ == (StoreV {
                invoices: without_id::<Invoice>(old(self)@.invoices, id@),
                ..old(self)@
            }),
    {
        delete_record(&mut self.invoices, id);
        proof {
            lemma_without_id_unique::<Invoice>(old(self)@.invoices, id@);
            assert(self@ =~= (StoreV {
                invoices: without_id::<Invoice>(old(self)@.invoices, id@),
                ..old(self)@
            }));
        }
    }

    /// The expenses, in storage order.
    pub fn list_expenses(&self) -> (r: Vec<Expense>)
        ensures
            seq_views(r@) == self@.expenses,
    {
        list_records(&self.expenses)
    }

    /// Inserts the expense; fails with `Conflict` when its id is taken.
    pub fn add_expense(&mut self, expense: Expense) -> (r: Result<(), Error>)
        requires
            store_wf(old(self)@),
            schema_ready(old(self)@),
        ensures
            store_wf(final(self)@),
            match r {
                Ok(_) => !has_id::<Expense>(old(self)@.expenses, expense@.id) && final(self)@ == (
                    StoreV { expenses: old(self)@.expenses.push(expense@), ..old(self)@ }
                ),
                Err(e) => e == Error::Conflict && has_id::<Expense>(
                    old(self)@.expenses,
                    expense@.id,
                ) && final(self)@ == old(self)@,
            },
    {
        let ghost v = expense@;
        let r = add_record(&mut self.expenses, expense);
        proof {
            if r is Ok {
                lemma_unique_push::<Expense>(old(self)@.expenses, v);
                assert(self@ =~= (StoreV { expenses: old(self)@.expenses.push(v), ..old(self)@ }));
            } else {
                assert(self@ =~= old(self)@);
            }
        }
        r
    }

    /// Replaces the fields of the expense with the given row's id; silently
    /// affects zero rows when the id is absent.
    pub fn update_expense(&mut self, expense: Expense)
        requires
            store_wf(old(self)@),
            schema_ready(old(self)@),
        ensures
            store_wf(final(self)@),
            final(self)@ == (StoreV {
                expenses: update_id::<Expense>(old(self)@.expenses, expense@),
                ..old(self)@
            }),
    {
        let ghost v = expense@;
        update_record(&mut self.expenses, expense);
        proof {
            lemma_unique_update::<Expense>(old(self)@.expenses, v);
            assert(self@ =~= (StoreV {
                expenses: update_id::<Expense>(old(self)@.expenses, v),
                ..old(self)@
            }));
        }
    }

    /// Removes the expense with the given id; silently affects zero rows
    /// when the id is absent.
    pub fn delete_expense(&mut self, id: &String)
        requires
            store_wf(old(self)@),
            schema_ready(old(self)@),
        ensures
            store_wf(final(self)@),
            final(self)@ == (StoreV {
                expenses: without_id::<Expense>(old(self)@.expenses, id@),
                ..old(self)@
            }),
    {
        delete_record(&mut self.expenses, id);
        proof {
            lemma_without_id_unique::<Expense>(old(self)@.expenses, id@);
            assert(self@ =~= (StoreV {
                expenses: without_id::<Expense>(old(self)@.expenses, id@),
                ..old(self)@
            }));
        }
    }

    /// The recurring invoices, in storage order.
    pub fn list_recurring_invoices(&self) -> (r: Vec<RecurringInvoice>)
        ensures
            seq_views(r@) == self@.recurring_invoices,
    {
        list_records(&self.recurring_invoices)
    }

    /// Inserts the recurring invoice; fails with `Conflict` when its id is
    /// taken.
    pub fn add_recurring_invoice(&mut self, invoice: RecurringInvoice) -> (r: Result<(), Error>)
        requires
            store_wf(old(self)@),
            schema_ready(old(self)@),
        ensures
            store_wf(final(self)@),
            match r {
                Ok(_) => !has_id::<RecurringInvoice>(old(self)@.recurring_invoices, invoice@.id)
                    && final(self)@ == (StoreV {
                    recurring_invoices: old(self)@.recurring_invoices.push(invoice@),
                    ..old(self)@
                }),
                Err(e) => e == Error::Conflict && has_id::<RecurringInvoice>(
                    old(self)@.recurring_invoices,
                    invoice@.id,
                ) && final(self)@ == old(self)@,
            },
    {
        let ghost v = invoice@;
        let r = add_record(&mut self.recurring_invoices, invoice);
        proof {
            if r is Ok {
                lemma_unique_push::<RecurringInvoice>(old(self)@.recurring_invoices, v);
                assert(self@ =~= (StoreV {
                    recurring_invoices: old(self)@.recurring_invoices.push(v),
                    ..old(self)@
                }));
            } else {
                assert(self@ =~= old(self)@);
            }
        }
        r
    }

    /// Replaces the fields of the recurring invoice with the given row's id;
    /// silently affects zero rows when the id is absent.
    pub fn update_recurring_invoice(&mut self, invoice: RecurringInvoice)
        requires
            store_wf(old(self)@),
            schema_ready(old(self)@),
        ensures
            store_wf(final(self)@),
            final(self)@ == (StoreV {
                recurring_invoices: update_id::<RecurringInvoice>(
                    old(self)@.recurring_invoices,
                    invoice@,
                ),
                ..old(self)@
            }),
    {
        let ghost v = invoice@;
        update_record(&mut self.recurring_invoices, invoice);
        proof {
            lemma_unique_update::<RecurringInvoice>(old(self)@.recurring_invoices, v);
            assert(self@ =~= (StoreV {
                recurring_invoices: update_id::<RecurringInvoice>(old(self)@.recurring_invoices, v),
                ..old(self)@
            }));
        }
    }

    /// Removes the recurring invoice with the given id; silently affects
    /// zero rows when the id is absent.
    pub fn delete_recurring_invoice(&mut self, id: &String)
        requires
            store_wf(old(self)@),
            schema_ready(old(self)@),
        ensures
            store_wf(final(self)@),
            final(self)@ == (StoreV {
                recurring_invoices: without_id::<RecurringInvoice>(
                    old(self)@.recurring_invoices,
                    id@,
                ),
                ..old(self)@
            }),
    {
        delete_record(&mut self.recurring_invoices, id);
        proof {
            lemma_without_id_unique::<RecurringInvoice>(old(self)@.recurring_invoices, id@);
            assert(self@ =~= (StoreV {
                recurring_invoices: without_id::<RecurringInvoice>(
                    old(self)@.recurring_invoices,
                    id@,
                ),
                ..old(self)@
            }));
        }
    }

    /// The user profile; the default (empty) profile before any was stored.
    /// Never fails for absence.
    pub fn get_user_profile(&self) -> (r: UserProfile)
        ensures
            r@ == self@.user_profile,
    {
        self.user_profile.dup()
    }

    /// Replaces the one logical user-profile row.
    pub fn set_user_profile(&mut self, profile: UserProfile)
        requires
            schema_ready(old(self)@),
        ensures
            final(self)@ == (StoreV { user_profile: profile@, ..old(self)@ }),
    {
        let ghost v = profile@;
        self.user_profile = profile;
        proof {
            assert(self@ =~= (StoreV { user_profile: v, ..old(self)@ }));
        }
    }

    /// The tax settings; the zero-value defaults before any were stored.
    /// Never fails for absence.
    pub fn get_tax_settings(&self) -> (r: TaxSettings)
        ensures
            r == self@.tax_settings,
    {
        self.tax_settings
    }

    /// Replaces the one logical tax-settings row.
    pub fn set_tax_settings(&mut self, settings: TaxSettings)
        requires
            schema_ready(old(self)@),
        ensures
            final(self)@ == (StoreV { tax_settings: settings, ..old(self)@ }),
    {
        self.tax_settings = settings;
        proof {
            assert(self@ =~= (StoreV { tax_settings: settings, ..old(self)@ }));
        }
    }

    /// The currency settings; the default (empty) values before any were
    /// stored. Never fails for absence.
    pub fn get_currency_settings(&self) -> (r: CurrencySettings)
        ensures
            r@ == self@.currency_settings,
    {
        self.currency_settings.dup()
    }

    /// Replaces the one logical currency-settings row.
    pub fn set_currency_settings(&mut self, settings: CurrencySettings)
        requires
            schema_ready(old(self)@),
        ensures
            final(self)@ == (StoreV { currency_settings: settings@, ..old(self)@ }),
    {
        let ghost v = settings@;
        self.currency_settings = settings;
        proof {
            assert(self@ =~= (StoreV { currency_settings: v, ..old(self)@ }));
        }
    }

    /// The recorded trial start date, absent until first recorded.
    pub fn get_trial_start_date(&self) -> (r: Option<String>)
        ensures
            opt_view(r) == self@.trial_start_date,
    {
        match &self.trial_start_date {
            Some(s) => Some(s.clone()),
            None => None,
        }
    }

    /// Inserts the client unless its id is taken, in which case the existing
    /// row is left untouched.
    pub(crate) fn import_client(&mut self, client: Client)
        ensures
            final(self)@ == (StoreV {
                clients: insert_or_ignore_spec::<Client>(old(self)@.clients, client@),
                ..old(self)@
            }),
    {
        let ghost v = client@;
        insert_or_ignore_record(&mut self.clients, client);
        proof {
            assert(self@ =~= (StoreV {
                clients: insert_or_ignore_spec::<Client>(old(self)@.clients, v),
                ..old(self)@
            }));
        }
    }

    /// Inserts the project unless its id is taken, in which case the
    /// existing row is left untouched.
    pub(crate) fn import_project(&mut self, project: Project)
        ensures
            final(self)@ == (StoreV {
                projects: insert_or_ignore_spec::<Project>(old(self)@.projects, project@),
                ..old(self)@
            }),
    {
        let ghost v = project@;
        insert_or_ignore_record(&mut self.projects, project);
        proof {
            assert(self@ =~= (StoreV {
                projects: insert_or_ignore_spec::<Project>(old(self)@.projects, v),
                ..old(self)@
            }));
        }
    }

    /// Inserts the time entry unless its id is taken, in which case the
    /// existing row is left untouched.
    pub(crate) fn import_time_entry(&mut self, entry: TimeEntry)
        ensures
            final(self)@ == (StoreV {
                time_entries: insert_or_ignore_spec::<TimeEntry>(old(self)@.time_entries, entry@),
                ..old(self)@
            }),
    {
        let ghost v = entry@;
        insert_or_ignore_record(&mut self.time_entries, entry);
        proof {
            assert(self@ =~= (StoreV {
                time_entries: insert_or_ignore_spec::<TimeEntry>(old(self)@.time_entries, v),
                ..old(self)@
            }));
        }
    }

    /// Replaces every table's contents and every singleton with the
    /// aggregate's, leaving the created-tables list and the trial row alone.
    pub(crate) fn replace_contents(&mut self, data: AppData)
        ensures
            final(self)@ == (StoreV {
                clients: data@.clients,
                projects: data@.projects,
                time_entries: data@.time_entries,
                invoices: data@.invoices,
                expenses: data@.expenses,
                recurring_invoices: data@.recurring_invoices,
                user_profile: data@.user_profile,
                tax_settings: data@.tax_settings,
                currency_settings: data@.currency_settings,
                ..old(self)@
            }),
    {
        let ghost d = data@;
        let AppData {
            clients,
            projects,
            time_entries,
            invoices,
            expenses,
            user_profile,
            recurring_invoices,
            tax_settings,
            currency_settings,
        } = data;
        self.clients = clients;
        self.projects = projects;
        self.time_entries = time_entries;
        self.invoices = invoices;
        self.expenses = expenses;
        self.user_profile = user_profile;
        self.recurring_invoices = recurring_invoices;
        self.tax_settings = tax_settings;
        self.currency_settings = currency_settings;
        proof {
            assert(self@ =~= (StoreV {
                clients: d.clients,
                projects: d.projects,
                time_entries: d.time_entries,
                invoices: d.invoices,
                expenses: d.expenses,
                recurring_invoices: d.recurring_invoices,
                user_profile: d.user_profile,
                tax_settings: d.tax_settings,
                currency_settings: d.currency_settings,
                ..old(self)@
            }));
        }
    }

    /// Records the trial start date; fails with `Conflict` when one was
    /// already recorded.
    pub fn set_trial_start_date(&mut self, start_date: String) -> (r: Result<(), Error>)
        requires
            schema_ready(old(self)@),
        ensures
            match r {
                Ok(_) => old(self)@.trial_start_date is None && final(self)@ == (StoreV {
                    trial_start_date: Some(start_date@),
                    ..old(self)@
                }),
                Err(e) => e == Error::Conflict && old(self)@.trial_start_date is Some
                    && final(self)@ == old(self)@,
            },
    {
        if self.trial_start_date.is_some() {
            Err(Error::Conflict)
        } else {
            let ghost v = start_date@;
            self.trial_start_date = Some(start_date);
            proof {
                assert(self@ =~= (StoreV { trial_start_date: Some(v), ..old(self)@ }));
            }
            Ok(())
        }
    }
}

} // verus!
