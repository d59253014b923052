//! What the proofs about the catalog's operations rest on: how filtering and
//! removing act on lists, and how order between neighbours carries over to
//! a whole list.

use crate::db::model::{
    collection_step, collections_wf, has_collection, has_photo, photo_step, photos_wf,
};
use crate::db::types::{CollectionView, PhotoView};
use crate::text::{lemma_text_le_transitive, text_le};
use vstd::prelude::*;

verus! {

/// A sequence whose every element is kept by a filter passes it unchanged.
pub proof fn lemma_filter_keeps_all<A>(s: Seq<A>, pred: spec_fn(A) -> bool)
    requires
        forall|j: int| 0 <= j < s.len() ==> pred(#[trigger] s[j]),
    ensures
        s.filter(pred) == s,
    decreases s.len(),
{
    reveal(Seq::filter);
    if s.len() > 0 {
        let shorter = s.drop_last();
        assert forall|j: int| 0 <= j < shorter.len() implies pred(#[trigger] shorter[j]) by {
            assert(shorter[j] == s[j]);
        }
        lemma_filter_keeps_all(shorter, pred);
        assert(pred(s[s.len() - 1]));
        assert(shorter.push(s.last()) =~= s);
    }
}

/// A filter that drops exactly the element at one position removes that
/// position.
pub proof fn lemma_filter_drops_one<A>(s: Seq<A>, pred: spec_fn(A) -> bool, i: int)
    requires
        0 <= i < s.len(),
        !pred(s[i]),
        forall|j: int| 0 <= j < s.len() && j != i ==> pred(#[trigger] s[j]),
    ensures
        s.filter(pred) == s.remove(i),
    decreases s.len(),
{
    reveal(Seq::filter);
    let shorter = s.drop_last();
    if i == s.len() - 1 {
        assert forall|j: int| 0 <= j < shorter.len() implies pred(#[trigger] shorter[j]) by {
            assert(shorter[j] == s[j]);
        }
        lemma_filter_keeps_all(shorter, pred);
        assert(s.remove(i) =~= shorter);
    } else {
        assert(shorter[i] == s[i]);
        assert forall|j: int| 0 <= j < shorter.len() && j != i implies pred(
            #[trigger] shorter[j],
        ) by {
            assert(shorter[j] == s[j]);
        }
        lemma_filter_drops_one(shorter, pred, i);
        assert(pred(s[s.len() - 1]));
        assert(shorter.remove(i).push(s.last()) =~= s.remove(i));
    }
}

/// What a filter keeps of a sequence without duplicates has none either.
pub proof fn lemma_filter_keeps_distinct<A>(s: Seq<A>, pred: spec_fn(A) -> bool)
    requires
        s.no_duplicates(),
    ensures
        s.filter(pred).no_duplicates(),
    decreases s.len(),
{
    reveal(Seq::filter);
    if s.len() > 0 {
        let shorter = s.drop_last();
        assert(shorter.no_duplicates()) by {
            assert forall|i: int, j: int|
                0 <= i < shorter.len() && 0 <= j < shorter.len() && i != j implies shorter[i]
                != shorter[j] by {
                assert(shorter[i] == s[i] && shorter[j] == s[j]);
            }
        }
        lemma_filter_keeps_distinct(shorter, pred);
        let kept = shorter.filter(pred);
        if pred(s.last()) {
            assert forall|i: int| 0 <= i < kept.len() implies kept[i] != s.last() by {
                if kept[i] == s.last() {
                    assert(kept.contains(s.last()));
                    shorter.lemma_filter_contains_rev(pred, s.last());
                    let j = choose|j: int| 0 <= j < shorter.len() && shorter[j] == s.last();
                    assert(s[j] == s[s.len() - 1]);
                }
            }
        }
    }
}

/// What a filter keeps was in the sequence and passes the filter; and what
/// passes the filter is kept.
pub proof fn lemma_filter_members<A>(s: Seq<A>, pred: spec_fn(A) -> bool)
    ensures
        forall|x: A| #[trigger] s.filter(pred).contains(x) <==> s.contains(x) && pred(x),
{
    assert forall|x: A| #[trigger] s.filter(pred).contains(x) <==> s.contains(x) && pred(x) by {
        if s.filter(pred).contains(x) {
            s.lemma_filter_contains_rev(pred, x);
            let k = choose|k: int| 0 <= k < s.filter(pred).len() && s.filter(pred)[k] == x;
            s.lemma_filter_pred(pred, k);
        }
        if s.contains(x) && pred(x) {
            let j = choose|j: int| 0 <= j < s.len() && s[j] == x;
            s.lemma_filter_contains(pred, j);
        }
    }
}

/// The photos of a consistent list stay consistent when one is removed, and
/// every other photo stays in the list.
pub proof fn lemma_remove_photo(photos: Seq<PhotoView>, last: i64, i: int)
    requires
        photos_wf(photos, last),
        0 <= i < photos.len(),
    ensures
        photos_wf(photos.remove(i), last),
        forall|id: i64|
            has_photo(photos, id) && id != photos[i].id ==> #[trigger] has_photo(
                photos.remove(i),
                id,
            ),
        forall|j: int|
            0 <= j < photos.len() && j != i ==> (#[trigger] photos[j]).id != photos[i].id,
{
    let rest = photos.remove(i);
    photos.remove_ensures(i);
    assert forall|a: int, b: int| 0 <= a < b < rest.len() implies (#[trigger] rest[a]).id < (
    #[trigger] rest[b]).id && rest[a].path != rest[b].path && text_le(
        rest[a].added_at,
        rest[b].added_at,
    ) by {
        let x = if a < i {
            a
        } else {
            a + 1
        };
        let y = if b < i {
            b
        } else {
            b + 1
        };
        assert(rest[a] == photos[x] && rest[b] == photos[y]);
    }
    assert forall|a: int| 0 <= a < rest.len() implies 1 <= (#[trigger] rest[a]).id <= last by {
        let x = if a < i {
            a
        } else {
            a + 1
        };
        assert(rest[a] == photos[x]);
    }
    assert forall|id: i64| has_photo(photos, id) && id != photos[i].id implies #[trigger] has_photo(
        rest,
        id,
    ) by {
        let j = choose|j: int| 0 <= j < photos.len() && (#[trigger] photos[j]).id == id;
        let k = if j < i {
            j
        } else {
            j - 1
        };
        assert(rest[k] == photos[j]);
    }
    assert forall|j: int| 0 <= j < photos.len() && j != i implies (#[trigger] photos[j]).id
        != photos[i].id by {
        if j < i {
            assert(photos[j].id < photos[i].id);
        } else {
            assert(photos[i].id < photos[j].id);
        }
    }
}

/// The collections of a consistent list stay consistent when one is removed,
/// and every other collection stays in the list.
pub proof fn lemma_remove_collection(collections: Seq<CollectionView>, last: i64, i: int)
    requires
        collections_wf(collections, last),
        0 <= i < collections.len(),
    ensures
        collections_wf(collections.remove(i), last),
        forall|id: i64|
            has_collection(collections, id) && id != collections[i].id
                ==> #[trigger] has_collection(collections.remove(i), id),
        forall|j: int|
            0 <= j < collections.len() && j != i ==> (#[trigger] collections[j]).id
                != collections[i].id,
{
    let rest = collections.remove(i);
    collections.remove_ensures(i);
    assert forall|a: int, b: int| 0 <= a < b < rest.len() implies (#[trigger] rest[a]).id < (
    #[trigger] rest[b]).id && rest[a].name != rest[b].name && text_le(
        rest[a].created_at,
        rest[b].created_at,
    ) by {
        let x = if a < i {
            a
        } else {
            a + 1
        };
        let y = if b < i {
            b
        } else {
            b + 1
        };
        assert(rest[a] == collections[x] && rest[b] == collections[y]);
    }
    assert forall|a: int| 0 <= a < rest.len() implies 1 <= (#[trigger] rest[a]).id <= last by {
        let x = if a < i {
            a
        } else {
            a + 1
        };
        assert(rest[a] == collections[x]);
    }
    assert forall|id: i64|
        has_collection(collections, id) && id != collections[i].id implies
        #[trigger] has_collection(rest, id) by {
        let j = choose|j: int| 0 <= j < collections.len() && (#[trigger] collections[j]).id == id;
        let k = if j < i {
            j
        } else {
            j - 1
        };
        assert(rest[k] == collections[j]);
    }
    assert forall|j: int| 0 <= j < collections.len() && j != i implies (
    #[trigger] collections[j]).id != collections[i].id by {
        if j < i {
            assert(collections[j].id < collections[i].id);
        } else {
            assert(collections[i].id < collections[j].id);
        }
    }
}

/// Photos that are in order each with the next are in order all together.
pub proof fn lemma_photo_steps(photos: Seq<PhotoView>, i: int, j: int)
    requires
        forall|a: int| 0 <= a && a + 1 < photos.len() ==> #[trigger] photo_step(photos, a),
        0 <= i < j < photos.len(),
    ensures
        photos[i].id < photos[j].id,
        text_le(photos[i].added_at, photos[j].added_at),
    decreases j - i,
{
    assert(photo_step(photos, j - 1));
    if i < j - 1 {
        lemma_photo_steps(photos, i, j - 1);
        lemma_text_le_transitive(photos[i].added_at, photos[j - 1].added_at, photos[j].added_at);
    }
}

/// Collections that are in order each with the next are in order all together.
pub proof fn lemma_collection_steps(collections: Seq<CollectionView>, i: int, j: int)
    requires
        forall|a: int|
            0 <= a && a + 1 < collections.len() ==> #[trigger] collection_step(collections, a),
        0 <= i < j < collections.len(),
    ensures
        collections[i].id < collections[j].id,
        text_le(collections[i].created_at, collections[j].created_at),
    decreases j - i,
{
    assert(collection_step(collections, j - 1));
    if i < j - 1 {
        lemma_collection_steps(collections, i, j - 1);
        lemma_text_le_transitive(
            collections[i].created_at,
            collections[j - 1].created_at,
            collections[j].created_at,
        );
    }
}

} // verus!
