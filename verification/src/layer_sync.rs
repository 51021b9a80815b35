//! Keeping the markers and lines drawn on the map in step with the
//! waypoints and tracks to show, both identified by id.

use vstd::prelude::*;

verus! {

/// What to change on the map.
pub struct LayerSync {
    /// The drawn ids that are no longer to be shown.
    pub remove: Vec<i64>,
    /// The ids to show that are not drawn yet.
    pub add: Vec<i64>,
}

/// The ids of `ids` that do not occur in `other`, in their order.
pub open spec fn missing_from(ids: Seq<i64>, other: Seq<i64>) -> Seq<i64> {
    ids.filter(|id: i64| !other.contains(id))
}

fn contains_id(ids: &Vec<i64>, id: i64) -> (r: bool)
    ensures
        r == ids@.contains(id),
{
    let mut i: usize = 0;
    while i < ids.len()
        invariant
            i <= ids@.len(),
            forall|j: int| 0 <= j < i ==> ids@[j] != id,
        decreases ids@.len() - i,
    {
        if ids[i] == id {
            return true;
        }
        i = i + 1;
    }
    false
}

fn ids_missing_from(ids: &Vec<i64>, other: &Vec<i64>) -> (r: Vec<i64>)
    ensures
        r@ == missing_from(ids@, other@),
{
    let mut r: Vec<i64> = Vec::new();
    let mut i: usize = 0;
    let ghost pred = |id: i64| !other@.contains(id);
    assert(ids@.subrange(0, 0).filter(pred) =~= Seq::<i64>::empty()) by {
        reveal(Seq::filter);
    }
    while i < ids.len()
        invariant
            i <= ids@.len(),
            pred == (|id: i64| !other@.contains(id)),
            r@ == ids@.subrange(0, i as int).filter(pred),
        decreases ids@.len() - i,
    {
        let id = ids[i];
        assert(ids@.subrange(0, i + 1) =~= ids@.subrange(0, i as int).push(id));
        proof {
            ids@.subrange(0, i as int).lemma_filter_push(id, pred);
        }
        if !contains_id(other, id) {
            r.push(id);
        }
        i = i + 1;
    }
    assert(ids@.subrange(0, i as int) =~= ids@);
    r
}

/// What to remove from and add to the map so that, of the ids drawn, those
/// to show remain and the ones missing are drawn.
pub fn plan_layer_sync(drawn: &Vec<i64>, wanted: &Vec<i64>) -> (r: LayerSync)
    ensures
        r.remove@ == missing_from(drawn@, wanted@),
        r.add@ == missing_from(wanted@, drawn@),
{
    LayerSync { remove: ids_missing_from(drawn, wanted), add: ids_missing_from(wanted, drawn) }
}

/// After the changes, the map shows exactly the ids to show: the drawn ones
/// without the removed ones, together with the added ones.
pub proof fn lemma_layer_sync_shows_wanted(drawn: Seq<i64>, wanted: Seq<i64>)
    ensures
        drawn.to_set().difference(missing_from(drawn, wanted).to_set()).union(
            missing_from(wanted, drawn).to_set(),
        ) == wanted.to_set(),
{
    broadcast use vstd::seq_lib::group_filter_ensures;
    broadcast use vstd::seq_lib::group_seq_properties;
    let removed = missing_from(drawn, wanted);
    let added = missing_from(wanted, drawn);
    let shown = drawn.to_set().difference(removed.to_set()).union(added.to_set());
    let p1 = |id: i64| !wanted.contains(id);
    let p2 = |id: i64| !drawn.contains(id);
    assert forall|id: i64| shown.contains(id) <==> wanted.to_set().contains(id) by {
        if wanted.contains(id) {
            if drawn.contains(id) {
                if removed.contains(id) {
                    drawn.lemma_filter_contains_rev(p1, id);
                    let k = choose|k: int| 0 <= k < removed.len() && removed[k] == id;
                    assert(p1(removed[k]));
                }
            } else {
                let k = choose|k: int| 0 <= k < wanted.len() && wanted[k] == id;
                assert(p2(wanted[k]));
                assert(wanted.filter(p2).contains(wanted[k]));
            }
        } else {
            if added.contains(id) {
                wanted.lemma_filter_contains_rev(p2, id);
            }
            if drawn.contains(id) {
                let k = choose|k: int| 0 <= k < drawn.len() && drawn[k] == id;
                assert(p1(drawn[k]));
                assert(drawn.filter(p1).contains(drawn[k]));
            }
        }
    }
    assert(shown =~= wanted.to_set());
}

} // verus!
