//! Facts about sequences.

use vstd::prelude::*;

verus! {

/// A filtered sequence holds exactly the items that pass.
pub proof fn lemma_filter_members<A>(items: Seq<A>, test: spec_fn(A) -> bool)
    ensures
        forall|a: A| #[trigger]
            items.filter(test).contains(a) <==> items.contains(a) && test(a),
        forall|i: int|
            0 <= i < items.filter(test).len() ==> test(#[trigger] items.filter(test)[i])
                && items.contains(items.filter(test)[i]),
    decreases items.len(),
{
    reveal(Seq::filter);
    let all = items.filter(test);
    if items.len() > 0 {
        let front = items.drop_last();
        lemma_filter_members(front, test);
        let kept = front.filter(test);
        assert(items =~= front.push(items.last()));
        assert forall|a: A| #[trigger] all.contains(a) <==> items.contains(a) && test(a) by {
            if all.contains(a) {
                let i = choose|i: int| 0 <= i < all.len() && all[i] == a;
                if i < kept.len() {
                    assert(kept[i] == a);
                    assert(kept.contains(a));
                    let j = choose|j: int| 0 <= j < front.len() && front[j] == a;
                    assert(items[j] == a);
                } else {
                    assert(items[items.len() - 1] == a);
                }
            }
            if items.contains(a) && test(a) {
                let i = choose|i: int| 0 <= i < items.len() && items[i] == a;
                if i < front.len() {
                    assert(front[i] == a);
                    assert(kept.contains(a));
                    let j = choose|j: int| 0 <= j < kept.len() && kept[j] == a;
                    assert(all[j] == a);
                } else {
                    assert(all[all.len() - 1] == a);
                }
            }
        }
        assert forall|i: int| 0 <= i < all.len() implies test(#[trigger] all[i]) && items.contains(
            all[i],
        ) by {
            assert(all.contains(all[i]));
        }
    }
}

/// A filtered sequence holds an item exactly if the sequence does and the item passes.
pub broadcast proof fn lemma_filter_member<A>(items: Seq<A>, test: spec_fn(A) -> bool, a: A)
    ensures
        #[trigger] items.filter(test).contains(a) <==> items.contains(a) && test(a),
{
    lemma_filter_members(items, test);
}

/// A sequence with an item more holds that item and what it held before.
pub broadcast proof fn lemma_push_member<A>(items: Seq<A>, last: A, a: A)
    ensures
        #[trigger] items.push(last).contains(a) <==> items.contains(a) || a == last,
{
    let more = items.push(last);
    if items.contains(a) {
        let i = choose|i: int| 0 <= i < items.len() && items[i] == a;
        assert(more[i] == a);
    }
    if more.contains(a) {
        let i = choose|i: int| 0 <= i < more.len() && more[i] == a;
        if i < items.len() {
            assert(items[i] == a);
        }
    }
    assert(more[items.len() as int] == last);
}

} // verus!
