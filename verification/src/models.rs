//! The entity kinds of the store, their mathematical views, and the
//! aggregate that bulk snapshot operations exchange.
//!
//! Monetary amounts and rates are fixed-point integers in thousandths of a
//! currency unit; the layer around the library converts to and from whatever
//! numeric type it displays.

use vstd::prelude::*;

use crate::records::{opt_view, seq_views, Record};

verus! {

/// The view of an optional byte buffer.
pub open spec fn opt_bytes_view(o: Option<Vec<u8>>) -> Option<Seq<u8>> {
    match o {
        Some(v) => Some(v@),
        None => None,
    }
}

fn clone_string(s: &String) -> (r: String)
    ensures
        r@ == s@,
{
    s.clone()
}

fn clone_opt_string(o: &Option<String>) -> (r: Option<String>)
    ensures
        opt_view(r) == opt_view(*o),
{
    match o {
        Some(s) => Some(s.clone()),
        None => None,
    }
}

fn clone_opt_bytes(o: &Option<Vec<u8>>) -> (r: Option<Vec<u8>>)
    ensures
        opt_bytes_view(r) == opt_bytes_view(*o),
{
    match o {
        Some(v) => {
            let mut out: Vec<u8> = Vec::new();
            let mut i: usize = 0;
            while i < v.len()
                invariant
                    i <= v@.len(),
                    out@ == v@.take(i as int),
                decreases v@.len() - i,
            {
                out.push(v[i]);
                proof {
                    assert(out@ =~= v@.take(i + 1));
                }
                i += 1;
            }
            proof {
                assert(out@ =~= v@);
            }
            Some(out)
        },
        None => None,
    }
}

#[derive(Debug, PartialEq)]
pub struct Client {
    pub id: String,
    pub name: String,
    pub email: Option<String>,
}

pub struct ClientView {
    pub id: Seq<char>,
    pub name: Seq<char>,
    pub email: Option<Seq<char>>,
}

impl View for Client {
    type V = ClientView;

    open spec fn view(&self) -> ClientView {
        ClientView { id: self.id@, name: self.name@, email: opt_view(self.email) }
    }
}

impl Record for Client {
    open spec fn vid(v: ClientView) -> Seq<char> {
        v.id
    }

    fn id_ref(&self) -> &String {
        &self.id
    }

    fn dup(&self) -> Client {
        Client {
            id: clone_string(&self.id),
            name: clone_string(&self.name),
            email: clone_opt_string(&self.email),
        }
    }
}

#[derive(Debug, PartialEq)]
pub struct Project {
    pub id: String,
    pub name: String,
    pub client_id: String,
    /// Hourly rate in thousandths of a currency unit.
    pub rate: Option<i64>,
}

pub struct ProjectView {
    pub id: Seq<char>,
    pub name: Seq<char>,
    pub client_id: Seq<char>,
    pub rate: Option<i64>,
}

impl View for Project {
    type V = ProjectView;

    open spec fn view(&self) -> ProjectView {
        ProjectView {
            id: self.id@,
            name: self.name@,
            client_id: self.client_id@,
            rate: self.rate,
        }
    }
}

impl Record for Project {
    open spec fn vid(v: ProjectView) -> Seq<char> {
        v.id
    }

    fn id_ref(&self) -> &String {
        &self.id
    }

    fn dup(&self) -> Project {
        Project {
            id: clone_string(&self.id),
            name: clone_string(&self.name),
            client_id: clone_string(&self.client_id),
            rate: self.rate,
        }
    }
}

#[derive(Debug, PartialEq)]
pub struct TimeEntry {
    pub id: String,
    pub project_id: String,
    pub start_time: String,
    pub end_time: Option<String>,
}

pub struct TimeEntryView {
    pub id: Seq<char>,
    pub project_id: Seq<char>,
    pub start_time: Seq<char>,
    pub end_time: Option<Seq<char>>,
}

impl View for TimeEntry {
    type V = TimeEntryView;

    open spec fn view(&self) -> TimeEntryView {
        TimeEntryView {
            id: self.id@,
            project_id: self.project_id@,
            start_time: self.start_time@,
            end_time: opt_view(self.end_time),
        }
    }
}

impl Record for TimeEntry {
    open spec fn vid(v: TimeEntryView) -> Seq<char> {
        v.id
    }

    fn id_ref(&self) -> &String {
        &self.id
    }

    fn dup(&self) -> TimeEntry {
        TimeEntry {
            id: clone_string(&self.id),
            project_id: clone_string(&self.project_id),
            start_time: clone_string(&self.start_time),
            end_time: clone_opt_string(&self.end_time),
        }
    }
}

#[derive(Debug, PartialEq)]
pub struct Invoice {
    pub id: String,
    pub client_name: String,
    pub issue_date: String,
    pub due_date: String,
    /// Invoiced amount in thousandths of a currency unit.
    pub amount: i64,
    pub status: String,
    pub currency: String,
}

pub struct InvoiceView {
    pub id: Seq<char>,
    pub client_name: Seq<char>,
    pub issue_date: Seq<char>,
    pub due_date: Seq<char>,
    pub amount: i64,
    pub status: Seq<char>,
    pub currency: Seq<char>,
}

impl View for Invoice {
    type V = InvoiceView;

    open spec fn view(&self) -> InvoiceView {
        InvoiceView {
            id: self.id@,
            client_name: self.client_name@,
            issue_date: self.issue_date@,
            due_date: self.due_date@,
            amount: self.amount,
            status: self.status@,
            currency: self.currency@,
        }
    }
}

impl Record for Invoice {
    open spec fn vid(v: InvoiceView) -> Seq<char> {
        v.id
    }

    fn id_ref(&self) -> &String {
        &self.id
    }

    fn dup(&self) -> Invoice {
        Invoice {
            id: clone_string(&self.id),
            client_name: clone_string(&self.client_name),
            issue_date: clone_string(&self.issue_date),
            due_date: clone_string(&self.due_date),
            amount: self.amount,
            status: clone_string(&self.status),
            currency: clone_string(&self.currency),
        }
    }
}

#[derive(Debug, PartialEq)]
pub struct Expense {
    pub id: String,
    pub project_id: String,
    pub description: String,
    /// Expense amount in thousandths of a currency unit.
    pub amount: i64,
    pub date: String,
    pub is_billed: bool,
    pub is_billable: bool,
}

pub struct ExpenseView {
    pub id: Seq<char>,
    pub project_id: Seq<char>,
    pub description: Seq<char>,
    pub amount: i64,
    pub date: Seq<char>,
    pub is_billed: bool,
    pub is_billable: bool,
}

impl View for Expense {
    type V = ExpenseView;

    open spec fn view(&self) -> ExpenseView {
        ExpenseView {
            id: self.id@,
            project_id: self.project_id@,
            description: self.description@,
            amount: self.amount,
            date: self.date@,
            is_billed: self.is_billed,
            is_billable: self.is_billable,
        }
    }
}

impl Record for Expense {
    open spec fn vid(v: ExpenseView) -> Seq<char> {
        v.id
    }

    fn id_ref(&self) -> &String {
        &self.id
    }

    fn dup(&self) -> Expense {
        Expense {
            id: clone_string(&self.id),
            project_id: clone_string(&self.project_id),
            description: clone_string(&self.description),
            amount: self.amount,
            date: clone_string(&self.date),
            is_billed: self.is_billed,
            is_billable: self.is_billable,
        }
    }
}

#[derive(Debug, PartialEq)]
pub struct RecurringInvoice {
    pub id: String,
    pub client_name: String,
    pub frequency: String,
    pub next_due_date: String,
    /// Recurring amount in thousandths of a currency unit.
    pub amount: i64,
    pub currency: String,
    pub status: String,
}

pub struct RecurringInvoiceView {
    pub id: Seq<char>,
    pub client_name: Seq<char>,
    pub frequency: Seq<char>,
    pub next_due_date: Seq<char>,
    pub amount: i64,
    pub currency: Seq<char>,
    pub status: Seq<char>,
}

impl View for RecurringInvoice {
    type V = RecurringInvoiceView;

    open spec fn view(&self) -> RecurringInvoiceView {
        RecurringInvoiceView {
            id: self.id@,
            client_name: self.client_name@,
            frequency: self.frequency@,
            next_due_date: self.next_due_date@,
            amount: self.amount,
            currency: self.currency@,
            status: self.status@,
        }
    }
}

impl Record for RecurringInvoice {
    open spec fn vid(v: RecurringInvoiceView) -> Seq<char> {
        v.id
    }

    fn id_ref(&self) -> &String {
        &self.id
    }

    fn dup(&self) -> RecurringInvoice {
        RecurringInvoice {
            id: clone_string(&self.id),
            client_name: clone_string(&self.client_name),
            frequency: clone_string(&self.frequency),
            next_due_date: clone_string(&self.next_due_date),
            amount: self.amount,
            currency: clone_string(&self.currency),
            status: clone_string(&self.status),
        }
    }
}

#[derive(Debug, PartialEq)]
pub struct UserProfile {
    pub company_name: String,
    pub company_email: String,
    pub company_address: String,
    pub logo: Option<Vec<u8>>,
}

pub struct UserProfileView {
    pub company_name: Seq<char>,
    pub company_email: Seq<char>,
    pub company_address: Seq<char>,
    pub logo: Option<Seq<u8>>,
}

impl View for UserProfile {
    type V = UserProfileView;

    open spec fn view(&self) -> UserProfileView {
        UserProfileView {
            company_name: self.company_name@,
            company_email: self.company_email@,
            company_address: self.company_address@,
            logo: opt_bytes_view(self.logo),
        }
    }
}

impl UserProfile {
    /// An owned copy, equal at the view level.
    pub fn dup(&self) -> (r: UserProfile)
        ensures
            r@ == self@,
    {
        UserProfile {
            company_name: clone_string(&self.company_name),
            company_email: clone_string(&self.company_email),
            company_address: clone_string(&self.company_address),
            logo: clone_opt_bytes(&self.logo),
        }
    }
}

/// The default profile has empty fields and no logo.
pub open spec fn default_user_profile() -> UserProfileView {
    UserProfileView {
        company_name: Seq::empty(),
        company_email: Seq::empty(),
        company_address: Seq::empty(),
        logo: None,
    }
}

#[derive(Debug, PartialEq, Clone, Copy)]
pub struct TaxSettings {
    /// Tax rate in thousandths of a percentage point.
    pub rate: i64,
    /// Internal cost rate in thousandths of a currency unit.
    pub internal_cost_rate: i64,
}

/// The default tax settings are all zero.
pub open spec fn default_tax_settings() -> TaxSettings {
    TaxSettings { rate: 0, internal_cost_rate: 0 }
}

#[derive(Debug, PartialEq)]
pub struct CurrencySettings {
    pub default_currency: String,
    pub invoice_language: String,
}

pub struct CurrencySettingsView {
    pub default_currency: Seq<char>,
    pub invoice_language: Seq<char>,
}

impl View for CurrencySettings {
    type V = CurrencySettingsView;

    open spec fn view(&self) -> CurrencySettingsView {
        CurrencySettingsView {
            default_currency: self.default_currency@,
            invoice_language: self.invoice_language@,
        }
    }
}

impl CurrencySettings {
    /// An owned copy, equal at the view level.
    pub fn dup(&self) -> (r: CurrencySettings)
        ensures
            r@ == self@,
    {
        CurrencySettings {
            default_currency: clone_string(&self.default_currency),
            invoice_language: clone_string(&self.invoice_language),
        }
    }
}

/// The default currency settings have empty fields.
pub open spec fn default_currency_settings() -> CurrencySettingsView {
    CurrencySettingsView { default_currency: Seq::empty(), invoice_language: Seq::empty() }
}

/// The entire state of the application: every entity collection plus every
/// singleton setting, the unit of bulk load and save.
#[derive(Debug, PartialEq)]
pub struct AppData {
    pub clients: Vec<Client>,
    pub projects: Vec<Project>,
    pub time_entries: Vec<TimeEntry>,
    pub invoices: Vec<Invoice>,
    pub expenses: Vec<Expense>,
    pub user_profile: UserProfile,
    pub recurring_invoices: Vec<RecurringInvoice>,
    pub tax_settings: TaxSettings,
    pub currency_settings: CurrencySettings,
}

#[verifier::ext_equal]
pub struct AppDataView {
    pub clients: Seq<ClientView>,
    pub projects: Seq<ProjectView>,
    pub time_entries: Seq<TimeEntryView>,
    pub invoices: Seq<InvoiceView>,
    pub expenses: Seq<ExpenseView>,
    pub user_profile: UserProfileView,
    pub recurring_invoices: Seq<RecurringInvoiceView>,
    pub tax_settings: TaxSettings,
    pub currency_settings: CurrencySettingsView,
}

impl View for AppData {
    type V = AppDataView;

    open spec fn view(&self) -> AppDataView {
        AppDataView {
            clients: seq_views(self.clients@),
            projects: seq_views(self.projects@),
            time_entries: seq_views(self.time_entries@),
            invoices: seq_views(self.invoices@),
            expenses: seq_views(self.expenses@),
            user_profile: self.user_profile@,
            recurring_invoices: seq_views(self.recurring_invoices@),
            tax_settings: self.tax_settings,
            currency_settings: self.currency_settings@,
        }
    }
}

} // verus!
