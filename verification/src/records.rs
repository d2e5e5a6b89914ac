//! Generic machinery for id-keyed tables: a `Record` trait for rows that
//! carry a caller-supplied string identity, sequence-level specifications of
//! the table operations, and verified executable helpers over `Vec` tables.

use vstd::prelude::*;

use crate::error::Error;

verus! {

/// A row of an id-keyed table. The view of a row is its mathematical model;
/// `vid` extracts the identity from that model.
pub trait Record: View + Sized {
    /// The identity of a row, at the view level.
    spec fn vid(v: Self::V) -> Seq<char>;

    /// The caller-supplied identity of this row.
    fn id_ref(&self) -> (r: &String)
        ensures
            r@ == Self::vid(self@),
    ;

    /// An owned copy of this row, equal at the view level.
    fn dup(&self) -> (r: Self)
        ensures
            r@ == self@,
    ;
}

/// A bare string names itself: a table of names (such as the list of created
/// tables) is id-keyed by the name.
impl Record for String {
    open spec fn vid(v: Seq<char>) -> Seq<char> {
        v
    }

    fn id_ref(&self) -> &String {
        self
    }

    fn dup(&self) -> String {
        self.clone()
    }
}

/// The views of the rows of a table, in storage order.
pub open spec fn seq_views<T: View>(rows: Seq<T>) -> Seq<T::V> {
    Seq::new(rows.len(), |i: int| rows[i]@)
}

/// The view of an optional string.
pub open spec fn opt_view(o: Option<String>) -> Option<Seq<char>> {
    match o {
        Some(s) => Some(s@),
        None => None,
    }
}

/// Whether some row of the table has the given identity.
pub open spec fn has_id<T: Record>(rows: Seq<T::V>, id: Seq<char>) -> bool {
    exists|i: int| 0 <= i < rows.len() && #[trigger] T::vid(rows[i]) == id
}

/// Whether the identities of the table's rows are pairwise distinct.
pub open spec fn unique_ids<T: Record>(rows: Seq<T::V>) -> bool {
    forall|i: int, j: int|
        #![trigger T::vid(rows[i]), T::vid(rows[j])]
        0 <= i < j < rows.len() ==> T::vid(rows[i]) != T::vid(rows[j])
}

/// The table after an insert that is ignored when the identity is taken.
pub open spec fn insert_or_ignore_spec<T: Record>(rows: Seq<T::V>, v: T::V) -> Seq<T::V> {
    if has_id::<T>(rows, T::vid(v)) {
        rows
    } else {
        rows.push(v)
    }
}

/// The table with every row of the given identity replaced by `v`.
pub open spec fn update_id<T: Record>(rows: Seq<T::V>, v: T::V) -> Seq<T::V> {
    Seq::new(rows.len(), |i: int| if T::vid(rows[i]) == T::vid(v) { v } else { rows[i] })
}

/// The table with every row of the given identity removed, order kept.
pub open spec fn without_id<T: Record>(rows: Seq<T::V>, id: Seq<char>) -> Seq<T::V>
    decreases rows.len(),
{
    if rows.len() == 0 {
        rows
    } else {
        let rest = without_id::<T>(rows.drop_last(), id);
        if T::vid(rows.last()) == id {
            rest
        } else {
            rest.push(rows.last())
        }
    }
}

pub proof fn lemma_seq_views_push<T: View>(rows: Seq<T>, x: T)
    ensures
        seq_views(rows.push(x)) == seq_views(rows).push(x@),
{
    assert(seq_views(rows.push(x)) =~= seq_views(rows).push(x@));
}

/// A fresh identity keeps a table's identities pairwise distinct.
pub proof fn lemma_unique_push<T: Record>(rows: Seq<T::V>, v: T::V)
    requires
        unique_ids::<T>(rows),
        !has_id::<T>(rows, T::vid(v)),
    ensures
        unique_ids::<T>(rows.push(v)),
{
    let post = rows.push(v);
    assert forall|i: int, j: int|
        #![trigger T::vid(post[i]), T::vid(post[j])]
        0 <= i < j < post.len() implies T::vid(post[i]) != T::vid(post[j]) by {
        if j < rows.len() {
            assert(T::vid(rows[i]) != T::vid(rows[j]));
        } else {
            assert(post[j] == v);
            assert(T::vid(post[i]) == T::vid(rows[i]));
        }
    }
}

/// Replacing rows in place by identity keeps the identities distinct.
pub proof fn lemma_unique_update<T: Record>(rows: Seq<T::V>, v: T::V)
    requires
        unique_ids::<T>(rows),
    ensures
        unique_ids::<T>(update_id::<T>(rows, v)),
{
    let post = update_id::<T>(rows, v);
    assert forall|i: int, j: int|
        #![trigger T::vid(post[i]), T::vid(post[j])]
        0 <= i < j < post.len() implies T::vid(post[i]) != T::vid(post[j]) by {
        assert(T::vid(rows[i]) != T::vid(rows[j]));
        assert(T::vid(post[i]) == if T::vid(rows[i]) == T::vid(v) { T::vid(v) } else {
            T::vid(rows[i])
        });
        assert(T::vid(post[j]) == if T::vid(rows[j]) == T::vid(v) { T::vid(v) } else {
            T::vid(rows[j])
        });
    }
}

/// An ignored or fresh insert keeps a table's identities pairwise distinct.
pub proof fn lemma_unique_insert_or_ignore<T: Record>(rows: Seq<T::V>, v: T::V)
    requires
        unique_ids::<T>(rows),
    ensures
        unique_ids::<T>(insert_or_ignore_spec::<T>(rows, v)),
{
    if !has_id::<T>(rows, T::vid(v)) {
        lemma_unique_push::<T>(rows, v);
    }
}

/// Every row of `without_id(rows, id)` is a row of `rows`.
pub proof fn lemma_without_id_membership<T: Record>(rows: Seq<T::V>, id: Seq<char>, k: int)
    requires
        0 <= k < without_id::<T>(rows, id).len(),
    ensures
        exists|j: int|
            0 <= j < rows.len() && rows[j] == #[trigger] without_id::<T>(rows, id)[k],
    decreases rows.len(),
{
    let res = without_id::<T>(rows, id);
    if rows.len() > 0 {
        let rest = without_id::<T>(rows.drop_last(), id);
        if k < rest.len() {
            lemma_without_id_membership::<T>(rows.drop_last(), id, k);
            let j = choose|j: int| 0 <= j < rows.drop_last().len() && rows.drop_last()[j] == rest[k];
            assert(rows[j] == res[k]);
        } else {
            assert(res[k] == rows.last());
            assert(rows[rows.len() - 1] == res[k]);
        }
    }
}

/// Removing an identity keeps the remaining identities distinct, and the
/// removed identity is gone.
pub proof fn lemma_without_id_unique<T: Record>(rows: Seq<T::V>, id: Seq<char>)
    requires
        unique_ids::<T>(rows),
    ensures
        unique_ids::<T>(without_id::<T>(rows, id)),
        !has_id::<T>(without_id::<T>(rows, id), id),
    decreases rows.len(),
{
    let res = without_id::<T>(rows, id);
    if rows.len() > 0 {
        let prefix = rows.drop_last();
        let rest = without_id::<T>(prefix, id);
        assert(unique_ids::<T>(prefix)) by {
            assert forall|i: int, j: int|
                #![trigger T::vid(prefix[i]), T::vid(prefix[j])]
                0 <= i < j < prefix.len() implies T::vid(prefix[i]) != T::vid(prefix[j]) by {
                assert(T::vid(rows[i]) != T::vid(rows[j]));
            }
        }
        lemma_without_id_unique::<T>(prefix, id);
        if T::vid(rows.last()) != id {
            // `rest` holds rows of `prefix`, whose identities all differ from
            // the last row's identity.
            assert forall|k: int| 0 <= k < rest.len() implies #[trigger] T::vid(rest[k])
                != T::vid(rows.last()) by {
                lemma_without_id_membership::<T>(prefix, id, k);
                let j = choose|j: int| 0 <= j < prefix.len() && prefix[j] == rest[k];
                assert(T::vid(rows[j]) != T::vid(rows[rows.len() - 1]));
            }
            lemma_unique_push::<T>(rest, rows.last());
            assert forall|k: int| 0 <= k < res.len() implies #[trigger] T::vid(res[k]) != id by {
                if k < rest.len() {
                    assert(T::vid(rest[k]) != id);
                }
            }
        }
    }
}

/// Whether some row of the table has the given identity.
pub fn contains_record<T: Record>(rows: &Vec<T>, id: &String) -> (r: bool)
    ensures
        r == has_id::<T>(seq_views(rows@), id@),
{
    let mut i: usize = 0;
    while i < rows.len()
        invariant
            i <= rows@.len(),
            forall|j: int| 0 <= j < i ==> T::vid(#[trigger] seq_views(rows@)[j]) != id@,
        decreases rows@.len() - i,
    {
        let row = &rows[i];
        if *row.id_ref() == *id {
            assert(T::vid(seq_views(rows@)[i as int]) == id@);
            return true;
        }
        i += 1;
    }
    false
}

/// An owned copy of the table, equal at the view level.
pub fn list_records<T: Record>(rows: &Vec<T>) -> (r: Vec<T>)
    ensures
        seq_views(r@) == seq_views(rows@),
{
    let mut out: Vec<T> = Vec::new();
    let mut i: usize = 0;
    while i < rows.len()
        invariant
            i <= rows@.len(),
            out@.len() == i,
            forall|j: int| 0 <= j < i ==> #[trigger] seq_views(out@)[j] == seq_views(rows@)[j],
        decreases rows@.len() - i,
    {
        let ghost pre = out@;
        let row = &rows[i];
        out.push(row.dup());
        proof {
            assert forall|j: int| 0 <= j < i + 1 implies #[trigger] seq_views(out@)[j]
                == seq_views(rows@)[j] by {
                assert(seq_views(out@)[j] == out@[j]@);
                assert(seq_views(rows@)[j] == rows@[j]@);
                if j < i {
                    assert(out@[j] == pre[j]);
                    assert(seq_views(pre)[j] == pre[j]@);
                }
            }
        }
        i += 1;
    }
    assert(seq_views(out@) =~= seq_views(rows@));
    out
}

/// Appends the row; fails with `Conflict` when its identity is taken.
pub fn add_record<T: Record>(rows: &mut Vec<T>, item: T) -> (r: Result<(), Error>)
    ensures
        match r {
            Ok(_) => !has_id::<T>(seq_views(old(rows)@), T::vid(item@)) && seq_views(
                final(rows)@,
            ) == seq_views(old(rows)@).push(item@),
            Err(e) => e == Error::Conflict && has_id::<T>(seq_views(old(rows)@), T::vid(item@))
                && *final(rows) == *old(rows),
        },
{
    if contains_record(rows, item.id_ref()) {
        Err(Error::Conflict)
    } else {
        proof {
            lemma_seq_views_push(rows@, item);
        }
        rows.push(item);
        Ok(())
    }
}

/// Appends the row unless its identity is taken, in which case the existing
/// row is left untouched (insert-or-ignore).
pub fn insert_or_ignore_record<T: Record>(rows: &mut Vec<T>, item: T)
    ensures
        seq_views(final(rows)@) == insert_or_ignore_spec::<T>(seq_views(old(rows)@), item@),
{
    if !contains_record(rows, item.id_ref()) {
        proof {
            lemma_seq_views_push(rows@, item);
        }
        rows.push(item);
    }
}

/// Replaces every row whose identity matches the given row's; affects zero
/// rows when the identity is absent.
pub fn update_record<T: Record>(rows: &mut Vec<T>, item: T)
    ensures
        seq_views(final(rows)@) == update_id::<T>(seq_views(old(rows)@), item@),
{
    let ghost base = seq_views(old(rows)@);
    let mut i: usize = 0;
    while i < rows.len()
        invariant
            base == seq_views(old(rows)@),
            i <= rows@.len(),
            rows@.len() == old(rows)@.len(),
            forall|j: int| i <= j < rows@.len() ==> rows@[j] == old(rows)@[j],
            forall|j: int|
                0 <= j < i ==> #[trigger] seq_views(rows@)[j] == update_id::<T>(base, item@)[j],
        decreases rows@.len() - i,
    {
        let ghost top = rows@;
        let matches_id = *rows[i].id_ref() == *item.id_ref();
        proof {
            assert(seq_views(top)[i as int] == top[i as int]@);
            assert(seq_views(old(rows)@)[i as int] == old(rows)@[i as int]@);
            assert(matches_id == (T::vid(base[i as int]) == T::vid(item@)));
        }
        if matches_id {
            let replacement = item.dup();
            rows.set(i, replacement);
        }
        proof {
            assert forall|j: int| 0 <= j < i + 1 implies #[trigger] seq_views(rows@)[j]
                == update_id::<T>(base, item@)[j] by {
                assert(seq_views(rows@)[j] == rows@[j]@);
                if j < i {
                    assert(rows@[j] == top[j]);
                    assert(seq_views(top)[j] == update_id::<T>(base, item@)[j]);
                    assert(seq_views(top)[j] == top[j]@);
                } else {
                    if T::vid(base[i as int]) == T::vid(item@) {
                        assert(rows@[i as int]@ == item@);
                    } else {
                        assert(rows@[i as int] == old(rows)@[i as int]);
                    }
                }
            }
        }
        i += 1;
    }
    assert(seq_views(rows@) =~= update_id::<T>(seq_views(old(rows)@), item@));
}

/// Removes every row with the given identity; affects zero rows when the
/// identity is absent.
pub fn delete_record<T: Record>(rows: &mut Vec<T>, id: &String)
    ensures
        seq_views(final(rows)@) == without_id::<T>(seq_views(old(rows)@), id@),
{
    let mut out: Vec<T> = Vec::new();
    let mut i: usize = 0;
    while i < rows.len()
        invariant
            i <= rows@.len(),
            seq_views(out@) == without_id::<T>(seq_views(rows@).take(i as int), id@),
        decreases rows@.len() - i,
    {
        let ghost pre = seq_views(out@);
        let ghost prefix = seq_views(rows@).take(i as int);
        let row = &rows[i];
        let keep = *row.id_ref() != *id;
        if keep {
            out.push(row.dup());
        }
        proof {
            let next = seq_views(rows@).take(i + 1);
            assert(next.drop_last() =~= prefix);
            assert(next.last() == seq_views(rows@)[i as int]);
            if keep {
                assert(seq_views(out@) =~= pre.push(seq_views(rows@)[i as int]));
            }
        }
        i += 1;
    }
    assert(seq_views(rows@).take(rows@.len() as int) =~= seq_views(rows@));
    *rows = out;
}

/// Whether the table's identities are pairwise distinct.
pub fn unique_check<T: Record>(rows: &Vec<T>) -> (r: bool)
    ensures
        r == unique_ids::<T>(seq_views(rows@)),
{
    let mut i: usize = 0;
    while i < rows.len()
        invariant
            i <= rows@.len(),
            forall|p: int, q: int|
                #![trigger T::vid(seq_views(rows@)[p]), T::vid(seq_views(rows@)[q])]
                0 <= p < q < i ==> T::vid(seq_views(rows@)[p]) != T::vid(seq_views(rows@)[q]),
        decreases rows@.len() - i,
    {
        let mut j: usize = 0;
        while j < i
            invariant
                j <= i < rows@.len(),
                forall|q: int|
                    0 <= q < j ==> T::vid(#[trigger] seq_views(rows@)[q]) != T::vid(
                        seq_views(rows@)[i as int],
                    ),
            decreases i - j,
        {
            if *rows[j].id_ref() == *rows[i].id_ref() {
                proof {
                    assert(seq_views(rows@)[j as int] == rows@[j as int]@);
                    assert(seq_views(rows@)[i as int] == rows@[i as int]@);
                    assert(T::vid(seq_views(rows@)[j as int]) == T::vid(
                        seq_views(rows@)[i as int],
                    ));
                }
                return false;
            }
            j += 1;
        }
        i += 1;
    }
    true
}

} // verus!
