//! The delivery list and its selected row, and how live deliveries enter the list.
use vstd::prelude::*;

use crate::api::{DeliveryListItem, PublicDeliveryId};

verus! {

/// The rows of a list whose public delivery ID differs from `id`, in order.
pub open spec fn without_id(rows: Seq<DeliveryListItem>, id: Seq<char>) -> Seq<DeliveryListItem>
    decreases rows.len(),
{
    if rows.len() == 0 {
        Seq::empty()
    } else {
        let rest = without_id(rows.drop_last(), id);
        if rows.last().id_text() == id {
            rest
        } else {
            rest.push(rows.last())
        }
    }
}

/// Index of the first row at or after `from` whose ID is `id`, or the list length.
pub open spec fn first_pos_from(rows: Seq<DeliveryListItem>, id: Seq<char>, from: int) -> int
    decreases rows.len() - from,
{
    if from < 0 || from >= rows.len() {
        rows.len() as int
    } else if rows[from].id_text() == id {
        from
    } else {
        first_pos_from(rows, id, from + 1)
    }
}

/// The selection fits the list: a row is selected exactly when the list is not empty, and
/// the selected index is inside the list.
pub open spec fn selection_fits(rows: Seq<DeliveryListItem>, selected: Option<usize>) -> bool {
    &&& (selected is None <==> rows.len() == 0)
    &&& selected matches Some(i) ==> i < rows.len()
}

/// Inserting a live delivery: it goes to the top, any older row with its ID is dropped, and
/// the selection follows the previously selected delivery ID (the top row when nothing was
/// selected).
pub open spec fn insert_step(
    rows: Seq<DeliveryListItem>,
    selected: Option<usize>,
    item: DeliveryListItem,
) -> (Seq<DeliveryListItem>, Option<usize>) {
    let new_rows = seq![item] + without_id(rows, item.id_text());
    let new_selected = match selected {
        Some(i) => Some(first_pos_from(new_rows, rows[i as int].id_text(), 0) as usize),
        None => Some(0usize),
    };
    (new_rows, new_selected)
}

/// Inserting several live deliveries, one after another in arrival order.
pub open spec fn insert_all(
    rows: Seq<DeliveryListItem>,
    selected: Option<usize>,
    items: Seq<DeliveryListItem>,
) -> (Seq<DeliveryListItem>, Option<usize>)
    decreases items.len(),
{
    if items.len() == 0 {
        (rows, selected)
    } else {
        let (r, s) = insert_all(rows, selected, items.drop_last());
        insert_step(r, s, items.last())
    }
}

/// Every row of `without_id(rows, id)` has an ID other than `id`, and every such row of
/// `rows` survives.
pub proof fn lemma_without_id(rows: Seq<DeliveryListItem>, id: Seq<char>)
    ensures
        forall|k: int| 0 <= k < without_id(rows, id).len() ==> (#[trigger] without_id(rows, id)[k]).id_text() != id,
        forall|k: int|
            0 <= k < rows.len() && (#[trigger] rows[k]).id_text() != id ==> exists|m: int|
                0 <= m < without_id(rows, id).len() && without_id(rows, id)[m] == rows[k],
        without_id(rows, id).len() <= rows.len(),
    decreases rows.len(),
{
    if rows.len() > 0 {
        let init = rows.drop_last();
        lemma_without_id(init, id);
        let w = without_id(rows, id);
        let wi = without_id(init, id);
        assert forall|k: int| 0 <= k < rows.len() && (#[trigger] rows[k]).id_text() != id implies exists|m: int|
            0 <= m < w.len() && w[m] == rows[k] by {
            if k < rows.len() - 1 {
                assert(init[k] == rows[k]);
                let m = choose|m: int| 0 <= m < wi.len() && wi[m] == init[k];
                assert(w[m] == wi[m]);
            } else {
                assert(w[wi.len() as int] == rows.last());
            }
        }
    }
}

/// `first_pos_from` finds the first row with the ID when one exists at or after `from`.
pub proof fn lemma_first_pos(rows: Seq<DeliveryListItem>, id: Seq<char>, from: int, k: int)
    requires
        0 <= from <= k < rows.len(),
        rows[k].id_text() == id,
    ensures
        from <= first_pos_from(rows, id, from) <= k,
        rows[first_pos_from(rows, id, from)].id_text() == id,
        forall|q: int| from <= q < first_pos_from(rows, id, from) ==> (#[trigger] rows[q]).id_text() != id,
    decreases k - from,
{
    if rows[from].id_text() != id {
        lemma_first_pos(rows, id, from + 1, k);
    }
}

/// Inserting keeps the selection fitting the list.
pub proof fn lemma_insert_step_fits(
    rows: Seq<DeliveryListItem>,
    selected: Option<usize>,
    item: DeliveryListItem,
)
    requires
        selection_fits(rows, selected),
    ensures
        selection_fits(insert_step(rows, selected, item).0, insert_step(rows, selected, item).1),
        insert_step(rows, selected, item).0.len() >= 1,
        insert_step(rows, selected, item).0[0] == item,
{
    let new_rows = seq![item] + without_id(rows, item.id_text());
    lemma_without_id(rows, item.id_text());
    assert(new_rows[0] == item);
    if let Some(i) = selected {
        let sid = rows[i as int].id_text();
        if sid == item.id_text() {
            lemma_first_pos(new_rows, sid, 0, 0);
        } else {
            let w = without_id(rows, item.id_text());
            let m = choose|m: int| 0 <= m < w.len() && w[m] == rows[i as int];
            assert(new_rows[m + 1] == w[m]);
            lemma_first_pos(new_rows, sid, 0, m + 1);
        }
    }
}

/// Inserting several deliveries keeps the selection fitting the list.
pub proof fn lemma_insert_all_fits(
    rows: Seq<DeliveryListItem>,
    selected: Option<usize>,
    items: Seq<DeliveryListItem>,
)
    requires
        selection_fits(rows, selected),
    ensures
        selection_fits(insert_all(rows, selected, items).0, insert_all(rows, selected, items).1),
        items.len() > 0 ==> insert_all(rows, selected, items).0.len() > 0,
    decreases items.len(),
{
    if items.len() > 0 {
        lemma_insert_all_fits(rows, selected, items.drop_last());
        let (r, s) = insert_all(rows, selected, items.drop_last());
        lemma_insert_step_fits(r, s, items.last());
    }
}

/// A live delivery goes on top of the list and is then the only row with its public delivery
/// ID; every row with another ID stays in the list, and the selection stays on the delivery
/// that was selected, unless that is the one replaced.
pub proof fn law_live_delivery_goes_on_top(
    rows: Seq<DeliveryListItem>,
    selected: Option<usize>,
    item: DeliveryListItem,
)
    requires
        selection_fits(rows, selected),
        rows.len() < usize::MAX,
    ensures
        ({
            let (new_rows, new_selected) = insert_step(rows, selected, item);
            &&& new_rows[0] == item
            &&& forall|k: int| 1 <= k < new_rows.len() ==> (#[trigger] new_rows[k]).id_text() != item.id_text()
            &&& forall|k: int|
                0 <= k < rows.len() && (#[trigger] rows[k]).id_text() != item.id_text() ==> exists|m: int|
                    0 <= m < new_rows.len() && new_rows[m] == rows[k]
            &&& selection_fits(new_rows, new_selected)
            &&& selected matches Some(i) ==> new_rows[new_selected->0 as int].id_text()
                == rows[i as int].id_text()
        }),
{
    let new_rows = seq![item] + without_id(rows, item.id_text());
    let w = without_id(rows, item.id_text());
    lemma_without_id(rows, item.id_text());
    lemma_insert_step_fits(rows, selected, item);
    assert forall|k: int| 1 <= k < new_rows.len() implies (#[trigger] new_rows[k]).id_text()
        != item.id_text() by {
        assert(new_rows[k] == w[k - 1]);
    }
    assert forall|k: int|
        0 <= k < rows.len() && (#[trigger] rows[k]).id_text() != item.id_text() implies exists|m: int|
        0 <= m < new_rows.len() && new_rows[m] == rows[k] by {
        let m = choose|m: int| 0 <= m < w.len() && w[m] == rows[k];
        assert(new_rows[m + 1] == w[m]);
    }
    if let Some(i) = selected {
        let sid = rows[i as int].id_text();
        if sid == item.id_text() {
            lemma_first_pos(new_rows, sid, 0, 0);
        } else {
            let m = choose|m: int| 0 <= m < w.len() && w[m] == rows[i as int];
            assert(new_rows[m + 1] == w[m]);
            lemma_first_pos(new_rows, sid, 0, m + 1);
        }
    }
}

/// Inserts a live delivery into the list (see `insert_step`).
pub fn insert_or_replace(
    rows: Vec<DeliveryListItem>,
    selected: Option<usize>,
    item: DeliveryListItem,
) -> (r: (Vec<DeliveryListItem>, Option<usize>))
    requires
        selection_fits(rows@, selected),
    ensures
        (r.0@, r.1) == insert_step(rows@, selected, item),
        selection_fits(r.0@, r.1),
{
    let ghost old_rows = rows@;
    let incoming_id: PublicDeliveryId = item.public_delivery_id().clone();
    let selected_id: Option<PublicDeliveryId> = match selected {
        Some(i) => Some(rows[i].public_delivery_id().clone()),
        None => None,
    };
    let mut out: Vec<DeliveryListItem> = Vec::new();
    out.push(item);
    for row in it: rows
        invariant
            it.seq() == old_rows,
            incoming_id.text() == item.id_text(),
            out@ == seq![item] + without_id(old_rows.take(it.index() as int), incoming_id.text()),
    {
        let ghost idx = it.index() as int;
        proof {
            assert(old_rows.take(idx + 1).drop_last() =~= old_rows.take(idx));
            assert(old_rows.take(idx + 1).last() == old_rows[idx]);
        }
        if !row.public_delivery_id().same_as(&incoming_id) {
            let ghost before = out@;
            out.push(row);
            proof {
                assert(out@ =~= seq![item] + without_id(old_rows.take(idx + 1), incoming_id.text()));
            }
        }
    }
    proof {
        assert(old_rows.take(old_rows.len() as int) =~= old_rows);
        lemma_insert_step_fits(old_rows, selected, item);
    }
    let new_selected = match selected_id {
        Some(sid) => {
            let mut p: usize = 0;
            proof {
                if let Some(i) = selected {
                    assert(sid.text() == old_rows[i as int].id_text());
                }
            }
            while p < out.len() && !out[p].public_delivery_id().same_as(&sid)
                invariant
                    p <= out.len(),
                    first_pos_from(out@, sid.text(), 0) == first_pos_from(out@, sid.text(), p as int),
                decreases out.len() - p,
            {
                p = p + 1;
            }
            Some(p)
        },
        None => Some(0),
    };
    (out, new_selected)
}

} // verus!
