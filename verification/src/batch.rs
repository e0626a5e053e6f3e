//! The batch importer's decisions: gathering per-file results into all
//! successes or the first failure, committing a batch into the item table
//! all-or-nothing, and flag updates over the table.

use vstd::prelude::*;

use crate::media::{ImportError, Item};
use crate::prepare::PreparedItem;
use crate::text::str_eq;
use vstd::pervasive::VecAdditionalExecFns;

verus! {

/// Every preparation in the batch succeeded.
pub open spec fn all_ok(results: Seq<Result<PreparedItem, ImportError>>) -> bool {
    forall|i: int| 0 <= i < results.len() ==> results[i] is Ok
}

/// `e` is the first failure in the batch: everything before it succeeded.
pub open spec fn first_failure_is(
    results: Seq<Result<PreparedItem, ImportError>>,
    e: ImportError,
) -> bool {
    exists|i: int|
        0 <= i < results.len() && #[trigger] results[i] == Result::<PreparedItem, ImportError>::Err(
            e,
        ) && (forall|j: int| 0 <= j < i ==> results[j] is Ok)
}

/// A position that fails after an all-successful prefix is the batch's
/// first failure.
proof fn lemma_first_failure_witness(
    results: Seq<Result<PreparedItem, ImportError>>,
    i: int,
    e: ImportError,
)
    requires
        0 <= i < results.len(),
        results[i] == Result::<PreparedItem, ImportError>::Err(e),
        forall|j: int| 0 <= j < i ==> results[j] is Ok,
    ensures
        first_failure_is(results, e),
{
}

/// Gathers a batch of preparation results: all of them, in order, when
/// every one succeeded, or the first failure alone — no partial list ever
/// comes back.
pub fn collect_batch(results: Vec<Result<PreparedItem, ImportError>>) -> (r: Result<
    Vec<PreparedItem>,
    ImportError,
>)
    ensures
        match r {
            Ok(items) => all_ok(results@) && items@.len() == results@.len() && (forall|i: int|
                0 <= i < results@.len() ==> results@[i] == Result::<PreparedItem, ImportError>::Ok(
                    items@[i],
                )),
            Err(e) => first_failure_is(results@, e),
        },
{
    let ghost orig = results@;
    let mut rest = results;
    let mut items: Vec<PreparedItem> = Vec::new();
    let mut failure: Option<ImportError> = Option::None;
    while rest.len() > 0
        invariant
            rest@.len() <= orig.len(),
            rest@ == orig.subrange(orig.len() - rest@.len(), orig.len() as int),
            failure is None ==> items@.len() + rest@.len() == orig.len() && (forall|j: int|
                0 <= j < items@.len() ==> orig[j] == Result::<PreparedItem, ImportError>::Ok(
                    items@[j],
                )),
            failure matches Some(e) ==> first_failure_is(orig, e),
        decreases rest@.len(),
    {
        let ghost done = orig.len() - rest@.len();
        let next = rest.remove(0);
        proof {
            assert(orig.subrange(done, orig.len() as int)[0] == orig[done]);
            assert(next == orig[done]);
            assert(rest@ =~= orig.subrange(done + 1, orig.len() as int));
        }
        match next {
            Ok(p) => {
                if failure.is_none() {
                    items.push(p);
                }
            },
            Err(e) => {
                if failure.is_none() {
                    proof {
                        lemma_first_failure_witness(orig, done, e);
                    }
                    failure = Option::Some(e);
                }
            },
        }
    }
    match failure {
        Option::None => {
            proof {
                assert(orig =~= orig.subrange(0, items@.len() as int));
            }
            Ok(items)
        },
        Option::Some(e) => Err(e),
    }
}

/// Persists a batch into the item table all-or-nothing: when every
/// preparation succeeded, exactly the prepared records are appended, in
/// batch order; when any failed, the first failure comes back and the
/// table holds precisely what it held before — zero rows from the batch.
pub fn commit_batch(table: &mut Vec<Item>, results: Vec<Result<PreparedItem, ImportError>>) -> (r:
    Result<usize, ImportError>)
    ensures
        match r {
            Ok(n) => all_ok(results@) && n == results@.len() && final(table)@.len() == old(
                table,
            )@.len() + n && final(table)@.subrange(0, old(table)@.len() as int) == old(table)@ && (
            forall|i: int|
                0 <= i < n ==> (#[trigger] results@[i] matches Ok(p) && final(table)@[old(
                    table,
                )@.len() + i] == p.item)),
            Err(e) => first_failure_is(results@, e) && final(table)@ == old(table)@,
        },
{
    let ghost results0 = results@;
    let prepared = match collect_batch(results) {
        Ok(items) => items,
        Err(e) => {
            return Err(e);
        },
    };
    let n = prepared.len();
    let ghost base = table@;
    let mut rest = prepared;
    let mut done: usize = 0;
    while rest.len() > 0
        invariant
            done + rest@.len() == n,
            n == results0.len(),
            forall|i: int|
                0 <= i < n ==> results0[i] is Ok,
            forall|i: int|
                done <= i < n ==> (#[trigger] results0[i] matches Ok(p) && rest@[i - done]
                    == p),
            table@.len() == base.len() + done,
            table@.subrange(0, base.len() as int) == base,
            forall|i: int|
                0 <= i < done ==> (#[trigger] results0[i] matches Ok(p) && table@[base.len()
                    + i] == p.item),
        decreases rest@.len(),
    {
        let next = rest.remove(0);
        table.push(next.item);
        proof {
            assert(table@.subrange(0, base.len() as int) =~= base);
        }
        done = done + 1;
    }
    Ok(n)
}

/// True when some id in the list reads the same as `id`.
pub open spec fn ids_contain(ids: Seq<String>, id: Seq<char>) -> bool {
    exists|k: int| 0 <= k < ids.len() && ids[k]@ == id
}

/// Scans the id list for `id`.
fn ids_contain_exec(ids: &Vec<String>, id: &str) -> (r: bool)
    ensures
        r == ids_contain(ids@, id@),
{
    let mut k: usize = 0;
    while k < ids.len()
        invariant
            k <= ids@.len(),
            forall|j: int| 0 <= j < k ==> ids@[j]@ != id@,
        decreases ids@.len() - k,
    {
        if str_eq(ids[k].as_str(), id) {
            return true;
        }
        k = k + 1;
    }
    false
}

/// The same item with its favorite flag forced to `value`.
pub open spec fn with_favorite(item: Item, value: bool) -> Item {
    Item { is_favorite: value, ..item }
}

/// Rebuilds an item with the favorite flag forced to `value`.
fn set_favorite_flag(row: &Item, value: bool) -> (r: Item)
    ensures
        r == with_favorite(*row, value),
{
    Item {
        id: row.id.clone(),
        original_name: row.original_name.clone(),
        file_type: row.file_type.clone(),
        file_size: row.file_size,
        width: row.width,
        height: row.height,
        checksum: row.checksum.clone(),
        is_favorite: value,
        is_screenshot: row.is_screenshot,
        is_screen_recording: row.is_screen_recording,
        live_video: match &row.live_video {
            Option::Some(v) => Option::Some(v.clone()),
            Option::None => Option::None,
        },
        created_at: row.created_at.clone(),
    }
}

/// Sets the favorite flag on every item whose id is in the list, leaving
/// every other row — and every other field — untouched.
pub fn set_items_favorite(table: &mut Vec<Item>, item_ids: &Vec<String>, value: bool)
    ensures
        final(table)@.len() == old(table)@.len(),
        forall|i: int|
            0 <= i < old(table)@.len() ==> final(table)@[i] == (if ids_contain(
                item_ids@,
                old(table)@[i].id@,
            ) {
                with_favorite(old(table)@[i], value)
            } else {
                old(table)@[i]
            }),
{
    let ghost base = table@;
    let n = table.len();
    let mut i: usize = 0;
    while i < n
        invariant
            n == base.len(),
            i <= n,
            table@.len() == base.len(),
            forall|j: int| i <= j < n ==> table@[j] == base[j],
            forall|j: int|
                0 <= j < i ==> table@[j] == (if ids_contain(item_ids@, base[j].id@) {
                    with_favorite(base[j], value)
                } else {
                    base[j]
                }),
        decreases n - i,
    {
        if ids_contain_exec(item_ids, table[i].id.as_str()) {
            let updated = set_favorite_flag(&table[i], value);
            table.set(i, updated);
        }
        i = i + 1;
    }
}

} // verus!
