//! The bulk snapshot service: whole-dataset read and whole-dataset
//! all-or-nothing replace. Raw file export and import act on the persisted
//! bytes themselves and live in the layer around the library.

use vstd::prelude::*;

use crate::error::Error;
use crate::models::{AppData, AppDataView, Client, Expense, Invoice, Project, RecurringInvoice,
    TimeEntry};
use crate::records::{unique_check, unique_ids};
use crate::store::{schema_ready, store_wf, Store, StoreV};

verus! {

/// The aggregate's own invariant: within each id-keyed collection the
/// identities are pairwise distinct.
pub open spec fn aggregate_wf(a: AppDataView) -> bool {
    &&& unique_ids::<Client>(a.clients)
    &&& unique_ids::<Project>(a.projects)
    &&& unique_ids::<TimeEntry>(a.time_entries)
    &&& unique_ids::<Invoice>(a.invoices)
    &&& unique_ids::<Expense>(a.expenses)
    &&& unique_ids::<RecurringInvoice>(a.recurring_invoices)
}

/// What a whole-dataset read yields: every table's rows in storage order and
/// every singleton's value (a singleton never written still reads as its
/// default value, which is what the store holds for it).
pub open spec fn load_all_spec(s: StoreV) -> AppDataView {
    AppDataView {
        clients: s.clients,
        projects: s.projects,
        time_entries: s.time_entries,
        invoices: s.invoices,
        expenses: s.expenses,
        user_profile: s.user_profile,
        recurring_invoices: s.recurring_invoices,
        tax_settings: s.tax_settings,
        currency_settings: s.currency_settings,
    }
}

/// What a successful whole-dataset replace leaves behind: exactly the
/// aggregate's rows for the id-keyed tables, exactly one row per singleton,
/// with the created-tables list and the trial row untouched.
pub open spec fn save_all_spec(s: StoreV, a: AppDataView) -> StoreV {
    StoreV {
        clients: a.clients,
        projects: a.projects,
        time_entries: a.time_entries,
        invoices: a.invoices,
        expenses: a.expenses,
        user_profile: a.user_profile,
        recurring_invoices: a.recurring_invoices,
        tax_settings: a.tax_settings,
        currency_settings: a.currency_settings,
        ..s
    }
}

/// Reads every table fully into one aggregate. Missing singleton rows yield
/// default values rather than failing.
pub fn load_all_data(store: &Store) -> (r: AppData)
    ensures
        r@ == load_all_spec(store@),
{
    let r = AppData {
        clients: store.list_clients(),
        projects: store.list_projects(),
        time_entries: store.list_time_entries(),
        invoices: store.list_invoices(),
        expenses: store.list_expenses(),
        user_profile: store.get_user_profile(),
        recurring_invoices: store.list_recurring_invoices(),
        tax_settings: store.get_tax_settings(),
        currency_settings: store.get_currency_settings(),
    };
    proof {
        assert(r@ =~= load_all_spec(store@));
    }
    r
}

/// Replaces the entire contents of every table with the aggregate's, as a
/// single all-or-nothing operation. When any row cannot be written — an
/// identity appearing twice within one collection would violate a primary
/// key — the whole operation rolls back: it fails with `Conflict` and the
/// store is left exactly as it was.
pub fn save_all_data(store: &mut Store, data: AppData) -> (r: Result<(), Error>)
    requires
        store_wf(old(store)@),
        schema_ready(old(store)@),
    ensures
        store_wf(final(store)@),
        match r {
            Ok(_) => aggregate_wf(data@) && final(store)@ == save_all_spec(old(store)@, data@),
            Err(e) => e == Error::Conflict && !aggregate_wf(data@) && final(store)@ == old(
                store,
            )@,
        },
{
    let all_unique = unique_check(&data.clients) && unique_check(&data.projects) && unique_check(
        &data.time_entries,
    ) && unique_check(&data.invoices) && unique_check(&data.expenses) && unique_check(
        &data.recurring_invoices,
    );
    if !all_unique {
        return Err(Error::Conflict);
    }
    let ghost d = data@;
    store.replace_contents(data);
    proof {
        assert(store@ =~= save_all_spec(old(store)@, d));
    }
    Ok(())
}

/// Round trip: saving an aggregate and then loading yields an aggregate
/// equal to the one saved, whatever the store held before.
pub proof fn lemma_save_load_round_trip(s: StoreV, a: AppDataView)
    ensures
        load_all_spec(save_all_spec(s, a)) == a,
{
    assert(load_all_spec(save_all_spec(s, a)) =~= a);
}

} // verus!
