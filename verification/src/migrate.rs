//! One-shot migration of the legacy flat snapshot into the relational
//! schema.
//!
//! Legacy rows are inserted with insert-or-ignore semantics: a row whose id
//! already exists is left untouched, never merged or overwritten. Legacy
//! projects are resolved to clients by name and skipped silently when no
//! client matches. Legacy time entries carry a day plus a fractional-hours
//! duration; the migration turns that pair into explicit start and end
//! timestamps.

use vstd::prelude::*;
use vstd::string::StringExecFns;

use crate::digits::{i32_to_string, int_str, two_digit_str, two_digit_string};
use crate::models::{Client, ClientView, Project, ProjectView, TimeEntry, TimeEntryView};
use crate::old_models::{OldClient, OldData, OldProject, OldTimeEntry};
use crate::records::{insert_or_ignore_spec, lemma_unique_insert_or_ignore, opt_view, seq_views,
    unique_ids};
use crate::store::{schema_ready, store_wf, Store, StoreV};

verus! {

/// The legacy entry's day at midnight: the migrated start timestamp.
pub open spec fn start_timestamp(date: Seq<char>) -> Seq<char> {
    date + "T00:00:00.000Z"@
}

/// Whole hours of a legacy duration given in thousandths of an hour.
pub open spec fn whole_hours(hours_milli: u64) -> int {
    hours_milli as int / 1000
}

/// The fractional hour scaled to minutes and rounded half away from zero
/// (the fraction is nonnegative, so this is rounding half up). Lossy for
/// fractions that do not land on whole minutes.
pub open spec fn spilled_minutes(hours_milli: u64) -> int {
    (hours_milli as int % 1000 * 60 + 500) / 1000
}

/// Midnight plus the floored hours and rounded minutes: the migrated end
/// timestamp.
pub open spec fn end_timestamp(date: Seq<char>, hours_milli: u64) -> Seq<char> {
    date + "T"@ + two_digit_str(whole_hours(hours_milli) as nat) + ":"@ + two_digit_str(
        spilled_minutes(hours_milli) as nat,
    ) + ":00.000Z"@
}

/// Builds the start timestamp of a legacy entry's day.
pub fn make_start_timestamp(date: &String) -> (r: String)
    ensures
        r@ == start_timestamp(date@),
{
    let mut r = date.clone();
    r.append("T00:00:00.000Z");
    r
}

/// Builds the end timestamp of a legacy entry from its day and its duration
/// in thousandths of an hour.
pub fn make_end_timestamp(date: &String, hours_milli: u64) -> (r: String)
    ensures
        r@ == end_timestamp(date@, hours_milli),
{
    let hours: u64 = hours_milli / 1000;
    let rem: u64 = hours_milli % 1000;
    let minutes: u64 = (rem * 60 + 500) / 1000;
    let mut r = date.clone();
    r.append("T");
    let hh = two_digit_string(hours);
    r.append(hh.as_str());
    r.append(":");
    let mm = two_digit_string(minutes);
    r.append(mm.as_str());
    r.append(":00.000Z");
    proof {
        assert(r@ =~= end_timestamp(date@, hours_milli));
    }
    r
}

/// A legacy client carried into the current schema: the integer id becomes
/// its decimal string and the email is kept.
pub open spec fn client_from_old(c: OldClient) -> ClientView {
    ClientView { id: int_str(c.id as int), name: c.name@, email: Some(c.email@) }
}

/// A legacy project carried into the current schema, bound to the resolved
/// client id.
pub open spec fn project_from_old(p: OldProject, client_id: Seq<char>) -> ProjectView {
    ProjectView { id: int_str(p.id as int), name: p.name@, client_id: client_id, rate: p.rate }
}

/// A legacy time entry carried into the current schema, its duration turned
/// into explicit timestamps.
pub open spec fn entry_from_old(e: OldTimeEntry) -> TimeEntryView {
    TimeEntryView {
        id: int_str(e.id as int),
        project_id: int_str(e.project_id as int),
        start_time: start_timestamp(e.date@),
        end_time: Some(end_timestamp(e.date@, e.hours_milli)),
    }
}

/// The id of the client stored last among those with the given name: when
/// several clients share a name, the one stored last wins, mirroring a
/// lookup table filled in storage order.
pub open spec fn client_id_for_name(clients: Seq<ClientView>, name: Seq<char>) -> Option<
    Seq<char>,
>
    decreases clients.len(),
{
    if clients.len() == 0 {
        None
    } else if clients.last().name == name {
        Some(clients.last().id)
    } else {
        client_id_for_name(clients.drop_last(), name)
    }
}

/// The clients after inserting each legacy client in order, ignoring id
/// collisions.
pub open spec fn import_clients(rows: Seq<ClientView>, olds: Seq<OldClient>) -> Seq<ClientView>
    decreases olds.len(),
{
    if olds.len() == 0 {
        rows
    } else {
        insert_or_ignore_spec::<Client>(
            import_clients(rows, olds.drop_last()),
            client_from_old(olds.last()),
        )
    }
}

/// The projects after inserting, in order, each legacy project whose client
/// name resolves, ignoring id collisions; a project whose client name has no
/// match is skipped silently.
pub open spec fn import_projects(
    rows: Seq<ProjectView>,
    clients: Seq<ClientView>,
    olds: Seq<OldProject>,
) -> Seq<ProjectView>
    decreases olds.len(),
{
    if olds.len() == 0 {
        rows
    } else {
        let prev = import_projects(rows, clients, olds.drop_last());
        match client_id_for_name(clients, olds.last().client@) {
            Some(cid) => insert_or_ignore_spec::<Project>(
                prev,
                project_from_old(olds.last(), cid),
            ),
            None => prev,
        }
    }
}

/// The time entries after inserting each legacy entry in order, ignoring id
/// collisions.
pub open spec fn import_entries(
    rows: Seq<TimeEntryView>,
    olds: Seq<OldTimeEntry>,
) -> Seq<TimeEntryView>
    decreases olds.len(),
{
    if olds.len() == 0 {
        rows
    } else {
        insert_or_ignore_spec::<TimeEntry>(
            import_entries(rows, olds.drop_last()),
            entry_from_old(olds.last()),
        )
    }
}

/// The whole store after the migration: clients first, then projects
/// resolved against the clients present after insertion, then time entries.
pub open spec fn migrate_spec(s: StoreV, od: OldData) -> StoreV {
    let cs = import_clients(s.clients, od.clients@);
    StoreV {
        clients: cs,
        projects: import_projects(s.projects, cs, od.projects@),
        time_entries: import_entries(s.time_entries, od.time_entries@),
        ..s
    }
}

proof fn lemma_import_clients_wf(rows: Seq<ClientView>, olds: Seq<OldClient>)
    requires
        unique_ids::<Client>(rows),
    ensures
        unique_ids::<Client>(import_clients(rows, olds)),
    decreases olds.len(),
{
    if olds.len() > 0 {
        lemma_import_clients_wf(rows, olds.drop_last());
        lemma_unique_insert_or_ignore::<Client>(
            import_clients(rows, olds.drop_last()),
            client_from_old(olds.last()),
        );
    }
}

proof fn lemma_import_projects_wf(
    rows: Seq<ProjectView>,
    clients: Seq<ClientView>,
    olds: Seq<OldProject>,
)
    requires
        unique_ids::<Project>(rows),
    ensures
        unique_ids::<Project>(import_projects(rows, clients, olds)),
    decreases olds.len(),
{
    if olds.len() > 0 {
        lemma_import_projects_wf(rows, clients, olds.drop_last());
        match client_id_for_name(clients, olds.last().client@) {
            Some(cid) => {
                lemma_unique_insert_or_ignore::<Project>(
                    import_projects(rows, clients, olds.drop_last()),
                    project_from_old(olds.last(), cid),
                );
            },
            None => {},
        }
    }
}

proof fn lemma_import_entries_wf(rows: Seq<TimeEntryView>, olds: Seq<OldTimeEntry>)
    requires
        unique_ids::<TimeEntry>(rows),
    ensures
        unique_ids::<TimeEntry>(import_entries(rows, olds)),
    decreases olds.len(),
{
    if olds.len() > 0 {
        lemma_import_entries_wf(rows, olds.drop_last());
        lemma_unique_insert_or_ignore::<TimeEntry>(
            import_entries(rows, olds.drop_last()),
            entry_from_old(olds.last()),
        );
    }
}

proof fn lemma_import_clients_prefix(rows: Seq<ClientView>, olds: Seq<OldClient>)
    ensures
        import_clients(rows, olds).len() >= rows.len(),
        forall|i: int| 0 <= i < rows.len() ==> import_clients(rows, olds)[i] == rows[i],
    decreases olds.len(),
{
    if olds.len() > 0 {
        lemma_import_clients_prefix(rows, olds.drop_last());
    }
}

proof fn lemma_import_projects_prefix(
    rows: Seq<ProjectView>,
    clients: Seq<ClientView>,
    olds: Seq<OldProject>,
)
    ensures
        import_projects(rows, clients, olds).len() >= rows.len(),
        forall|i: int| 0 <= i < rows.len() ==> import_projects(rows, clients, olds)[i] == rows[i],
    decreases olds.len(),
{
    if olds.len() > 0 {
        lemma_import_projects_prefix(rows, clients, olds.drop_last());
    }
}

proof fn lemma_import_entries_prefix(rows: Seq<TimeEntryView>, olds: Seq<OldTimeEntry>)
    ensures
        import_entries(rows, olds).len() >= rows.len(),
        forall|i: int| 0 <= i < rows.len() ==> import_entries(rows, olds)[i] == rows[i],
    decreases olds.len(),
{
    if olds.len() > 0 {
        lemma_import_entries_prefix(rows, olds.drop_last());
    }
}

/// Insert-or-ignore is a first-writer-wins policy: the migration never
/// merges into or overwrites a row that is already stored — whatever the
/// legacy document holds, every pre-existing row of every table survives
/// unchanged, at its place in storage order; migrated rows only follow.
pub proof fn lemma_migration_preserves_existing_rows(s: StoreV, od: OldData)
    ensures
        forall|i: int|
            0 <= i < s.clients.len() ==> #[trigger] migrate_spec(s, od).clients[i] == s.clients[i],
        forall|i: int|
            0 <= i < s.projects.len() ==> #[trigger] migrate_spec(s, od).projects[i]
                == s.projects[i],
        forall|i: int|
            0 <= i < s.time_entries.len() ==> #[trigger] migrate_spec(s, od).time_entries[i]
                == s.time_entries[i],
        migrate_spec(s, od).clients.len() >= s.clients.len(),
        migrate_spec(s, od).projects.len() >= s.projects.len(),
        migrate_spec(s, od).time_entries.len() >= s.time_entries.len(),
{
    let cs = import_clients(s.clients, od.clients@);
    lemma_import_clients_prefix(s.clients, od.clients@);
    lemma_import_projects_prefix(s.projects, cs, od.projects@);
    lemma_import_entries_prefix(s.time_entries, od.time_entries@);
}

/// The id of the client stored last among those with the given name.
fn client_id_by_name(clients: &Vec<Client>, name: &String) -> (r: Option<String>)
    ensures
        opt_view(r) == client_id_for_name(seq_views(clients@), name@),
{
    let mut i: usize = clients.len();
    proof {
        assert(seq_views(clients@).take(clients@.len() as int) =~= seq_views(clients@));
    }
    while i > 0
        invariant
            i <= clients@.len(),
            client_id_for_name(seq_views(clients@), name@) == client_id_for_name(
                seq_views(clients@).take(i as int),
                name@,
            ),
        decreases i,
    {
        i -= 1;
        let c = &clients[i];
        proof {
            let full = seq_views(clients@);
            let next = full.take(i + 1);
            assert(next.drop_last() =~= full.take(i as int));
            assert(next.last() == full[i as int]);
            assert(full[i as int] == clients@[i as int]@);
        }
        if c.name == *name {
            proof {
                assert(client_id_for_name(seq_views(clients@).take(i + 1), name@) == Some(c.id@));
            }
            return Some(c.id.clone());
        }
    }
    proof {
        assert(seq_views(clients@).take(0) =~= Seq::<ClientView>::empty());
    }
    None
}

/// Migrates the parsed legacy snapshot into the store.
///
/// Each legacy client is inserted unless its id already exists, in which
/// case the existing row's fields are left unchanged. A name-to-id lookup is
/// then built over the clients actually present after insertion; each legacy
/// project resolves its client by name through it and is inserted
/// insert-or-ignore, or skipped silently when the name has no match. Each
/// legacy time entry's day and fractional-hours duration become explicit
/// start and end timestamps, inserted insert-or-ignore.
pub fn migrate_data(store: &mut Store, old_data: &OldData)
    requires
        store_wf(old(store)@),
        schema_ready(old(store)@),
    ensures
        store_wf(final(store)@),
        final(store)@ == migrate_spec(old(store)@, *old_data),
{
    let ghost cs = import_clients(old(store)@.clients, old_data.clients@);
    let mut k: usize = 0;
    while k < old_data.clients.len()
        invariant
            k <= old_data.clients@.len(),
            store@ == (StoreV {
                clients: import_clients(old(store)@.clients, old_data.clients@.take(k as int)),
                ..old(store)@
            }),
        decreases old_data.clients@.len() - k,
    {
        let oc = &old_data.clients[k];
        let client = Client {
            id: i32_to_string(oc.id),
            name: oc.name.clone(),
            email: Some(oc.email.clone()),
        };
        proof {
            assert(client@ == client_from_old(old_data.clients@[k as int]));
        }
        store.import_client(client);
        proof {
            let olds = old_data.clients@;
            let next = olds.take(k + 1);
            assert(next.drop_last() =~= olds.take(k as int));
            assert(next.last() == olds[k as int]);
            assert(store@ =~= (StoreV {
                clients: import_clients(old(store)@.clients, next),
                ..old(store)@
            }));
        }
        k += 1;
    }
    proof {
        assert(old_data.clients@.take(old_data.clients@.len() as int) =~= old_data.clients@);
    }
    // The name lookup is built once, over the clients present after
    // insertion, exactly as the project phase sees them.
    let client_rows = store.list_clients();
    let mut k: usize = 0;
    while k < old_data.projects.len()
        invariant
            k <= old_data.projects@.len(),
            cs == import_clients(old(store)@.clients, old_data.clients@),
            seq_views(client_rows@) == cs,
            store@ == (StoreV {
                clients: cs,
                projects: import_projects(
                    old(store)@.projects,
                    cs,
                    old_data.projects@.take(k as int),
                ),
                ..old(store)@
            }),
        decreases old_data.projects@.len() - k,
    {
        let op = &old_data.projects[k];
        let resolved = client_id_by_name(&client_rows, &op.client);
        match resolved {
            Some(cid) => {
                let ghost cidv = cid@;
                let project = Project {
                    id: i32_to_string(op.id),
                    name: op.name.clone(),
                    client_id: cid,
                    rate: op.rate,
                };
                proof {
                    assert(project@ == project_from_old(old_data.projects@[k as int], cidv));
                }
                store.import_project(project);
            },
            None => {},
        }
        proof {
            let olds = old_data.projects@;
            let next = olds.take(k + 1);
            assert(next.drop_last() =~= olds.take(k as int));
            assert(next.last() == olds[k as int]);
            assert(store@ =~= (StoreV {
                clients: cs,
                projects: import_projects(old(store)@.projects, cs, next),
                ..old(store)@
            }));
        }
        k += 1;
    }
    proof {
        assert(old_data.projects@.take(old_data.projects@.len() as int) =~= old_data.projects@);
    }
    let mut k: usize = 0;
    while k < old_data.time_entries.len()
        invariant
            k <= old_data.time_entries@.len(),
            cs == import_clients(old(store)@.clients, old_data.clients@),
            store@ == (StoreV {
                clients: cs,
                projects: import_projects(old(store)@.projects, cs, old_data.projects@),
                time_entries: import_entries(
                    old(store)@.time_entries,
                    old_data.time_entries@.take(k as int),
                ),
                ..old(store)@
            }),
        decreases old_data.time_entries@.len() - k,
    {
        let oe = &old_data.time_entries[k];
        let entry = TimeEntry {
            id: i32_to_string(oe.id),
            project_id: i32_to_string(oe.project_id),
            start_time: make_start_timestamp(&oe.date),
            end_time: Some(make_end_timestamp(&oe.date, oe.hours_milli)),
        };
        proof {
            assert(entry@ == entry_from_old(old_data.time_entries@[k as int]));
        }
        store.import_time_entry(entry);
        proof {
            let olds = old_data.time_entries@;
            let next = olds.take(k + 1);
            assert(next.drop_last() =~= olds.take(k as int));
            assert(next.last() == olds[k as int]);
            assert(store@ =~= (StoreV {
                clients: cs,
                projects: import_projects(old(store)@.projects, cs, old_data.projects@),
                time_entries: import_entries(old(store)@.time_entries, next),
                ..old(store)@
            }));
        }
        k += 1;
    }
    proof {
        assert(old_data.time_entries@.take(old_data.time_entries@.len() as int)
            =~= old_data.time_entries@);
        assert(store@ =~= migrate_spec(old(store)@, *old_data));
        lemma_import_clients_wf(old(store)@.clients, old_data.clients@);
        lemma_import_projects_wf(old(store)@.projects, cs, old_data.projects@);
        lemma_import_entries_wf(old(store)@.time_entries, old_data.time_entries@);
    }
}

} // verus!
