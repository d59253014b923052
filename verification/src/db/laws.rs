//! What holds of the catalog's operations taken together.

use crate::db::lemmas::{
    lemma_filter_drops_one, lemma_filter_keeps_all, lemma_filter_keeps_distinct,
    lemma_filter_members, lemma_remove_collection, lemma_remove_photo,
};
use crate::db::model::{
    after_add_membership, after_create_collection, after_delete_collection, after_delete_photo,
    after_insert_photo, after_remove_membership, after_update_metadata, catalog_wf,
    collection_other_than, create_collection_outcome, has_collection, has_photo,
    in_other_collection, insert_photo_outcome, member_of, newest_collection_stamp,
    newest_photo_stamp, next_stamp, of_other_photo, other_than, photo_other_than,
    photos_in_collection, restored, snapshot_of, CatalogView, MetadataPatch,
};
use crate::db::types::{CatalogError, PhotoCollection, PhotoView};
use crate::text::{
    lemma_text_le_reflexive, lemma_text_le_total, lemma_text_le_transitive, text_le,
};
use vstd::prelude::*;

verus! {

/// After a photo was inserted, a second photo with the same path is refused
/// as a duplicate, and the two inserts together add exactly one photo.
pub proof fn law_second_insert_of_a_path_is_refused(
    c: CatalogView,
    first: PhotoView,
    second: PhotoView,
    first_time: Seq<char>,
    second_time: Seq<char>,
)
    requires
        insert_photo_outcome(c, first) is Ok,
        second.path == first.path,
    ensures
        insert_photo_outcome(after_insert_photo(c, first, first_time), second) == Err::<
            i64,
            CatalogError,
        >(CatalogError::DuplicatePath),
        after_insert_photo(
            after_insert_photo(c, first, first_time),
            second,
            second_time,
        ).photos.len() == c.photos.len() + 1,
{
    let once = after_insert_photo(c, first, first_time);
    assert(once.photos[c.photos.len() as int].path == second.path);
}

/// The change that gives a rating and nothing else.
pub open spec fn rating_only(rating: i32) -> MetadataPatch {
    MetadataPatch { rating: Some(rating), is_favorite: None, tags: None, description: None }
}

/// A change that gives only a rating leaves every photo as it was but for
/// the rating of the photo with the identity; the list of photos, the newest
/// first, shows that change and no other, and collections and memberships
/// are untouched.
pub proof fn law_rating_change_touches_only_the_rating(c: CatalogView, id: i64, rating: i32)
    ensures
        after_update_metadata(c, id, rating_only(rating)).photos.len() == c.photos.len(),
        forall|k: int|
            0 <= k < c.photos.len() ==> #[trigger] after_update_metadata(
                c,
                id,
                rating_only(rating),
            ).photos[k] == if c.photos[k].id == id {
                PhotoView { rating, ..c.photos[k] }
            } else {
                c.photos[k]
            },
        forall|k: int|
            0 <= k < c.photos.len() ==> #[trigger] after_update_metadata(
                c,
                id,
                rating_only(rating),
            ).photos.reverse()[k] == if c.photos.reverse()[k].id == id {
                PhotoView { rating, ..c.photos.reverse()[k] }
            } else {
                c.photos.reverse()[k]
            },
        after_update_metadata(c, id, rating_only(rating)).collections == c.collections,
        after_update_metadata(c, id, rating_only(rating)).memberships == c.memberships,
{
}

/// Adding a membership a second time changes nothing: the catalog holds as
/// many memberships as after the first time.
pub proof fn law_adding_a_membership_twice_adds_it_once(c: CatalogView, m: PhotoCollection)
    ensures
        after_add_membership(after_add_membership(c, m), m) == after_add_membership(c, m),
        after_add_membership(after_add_membership(c, m), m).memberships.len()
            == after_add_membership(c, m).memberships.len(),
{
    let once = after_add_membership(c, m);
    if once != c {
        assert(once.memberships[c.memberships.len() as int] == m);
        assert(once.memberships.contains(m));
    }
}

/// Removing a membership that the catalog does not hold changes nothing.
pub proof fn law_removing_an_absent_membership_changes_nothing(c: CatalogView, m: PhotoCollection)
    requires
        !c.memberships.contains(m),
    ensures
        after_remove_membership(c, m) == c,
{
    assert forall|j: int| 0 <= j < c.memberships.len() implies other_than(m)(
        #[trigger] c.memberships[j],
    ) by {
        if c.memberships[j] == m {
            assert(c.memberships.contains(m));
        }
    }
    lemma_filter_keeps_all(c.memberships, other_than(m));
}

/// After a membership was removed the catalog does not hold it, and it
/// holds every other membership that it held.
pub proof fn law_removing_a_membership_removes_only_it(c: CatalogView, m: PhotoCollection)
    ensures
        !after_remove_membership(c, m).memberships.contains(m),
        forall|x: PhotoCollection|
            x != m ==> (#[trigger] after_remove_membership(c, m).memberships.contains(x)
                <==> c.memberships.contains(x)),
        after_remove_membership(c, m).photos == c.photos,
        after_remove_membership(c, m).collections == c.collections,
{
    lemma_filter_members(c.memberships, other_than(m));
}

/// Deleting a collection removes the collection and every membership in it,
/// and nothing else: the photos stay, those that were its members too, and
/// so does every membership in another collection.
pub proof fn law_deleting_a_collection_keeps_its_photos(c: CatalogView, id: i64)
    ensures
        after_delete_collection(c, id).photos == c.photos,
        !has_collection(after_delete_collection(c, id).collections, id),
        forall|m: PhotoCollection| #[trigger]
            after_delete_collection(c, id).memberships.contains(m) <==> c.memberships.contains(m)
                && m.collection_id != id,
{
    let after = after_delete_collection(c, id);
    lemma_filter_members(c.memberships, in_other_collection(id));
    assert forall|k: int| 0 <= k < after.collections.len() implies (
    #[trigger] after.collections[k]).id != id by {
        c.collections.lemma_filter_pred(collection_other_than(id), k);
    }
}

/// Deleting a photo removes the photo and every membership of it, and
/// nothing else: the collections stay, and so does every membership of
/// another photo.
pub proof fn law_deleting_a_photo_keeps_the_collections(c: CatalogView, id: i64)
    ensures
        after_delete_photo(c, id).collections == c.collections,
        !has_photo(after_delete_photo(c, id).photos, id),
        forall|m: PhotoCollection| #[trigger]
            after_delete_photo(c, id).memberships.contains(m) <==> c.memberships.contains(m)
                && m.photo_id != id,
{
    let after = after_delete_photo(c, id);
    lemma_filter_members(c.memberships, of_other_photo(id));
    assert forall|k: int| 0 <= k < after.photos.len() implies (#[trigger] after.photos[k]).id
        != id by {
        c.photos.lemma_filter_pred(photo_other_than(id), k);
    }
}

/// The snapshot of a consistent catalog describes a consistent catalog with
/// the same photos, the same collections and the same memberships: nothing
/// is dropped and nothing is added.
pub proof fn law_snapshot_restores_the_catalog(c: CatalogView)
    requires
        catalog_wf(c),
    ensures
        catalog_wf(restored(snapshot_of(c))),
        restored(snapshot_of(c)).photos == c.photos,
        restored(snapshot_of(c)).collections == c.collections,
        restored(snapshot_of(c)).memberships == c.memberships,
{
    let back = restored(snapshot_of(c));
    assert(back.photos =~= c.photos);
    assert(back.collections =~= c.collections);
    if c.photos.len() > 0 {
        assert(back.last_photo_id == c.photos[c.photos.len() - 1].id);
        assert forall|i: int| 0 <= i < c.photos.len() implies (#[trigger] c.photos[i]).id
            <= back.last_photo_id by {
            if i < c.photos.len() - 1 {
                assert(c.photos[i].id < c.photos[c.photos.len() - 1].id);
            }
        }
    }
    if c.collections.len() > 0 {
        assert(back.last_collection_id == c.collections[c.collections.len() - 1].id);
        assert forall|i: int| 0 <= i < c.collections.len() implies (#[trigger] c.collections[i]).id
            <= back.last_collection_id by {
            if i < c.collections.len() - 1 {
                assert(c.collections[i].id < c.collections[c.collections.len() - 1].id);
            }
        }
    }
}

/// The photos of a consistent catalog, listed the newest first, are in the
/// order of their time of ingestion, the latest first, and no two of them
/// share an identity or a path.
pub proof fn law_photos_are_listed_latest_first(c: CatalogView)
    requires
        catalog_wf(c),
    ensures
        forall|i: int, j: int|
            0 <= i < j < c.photos.len() ==> text_le(
                (#[trigger] c.photos.reverse()[j]).added_at,
                (#[trigger] c.photos.reverse()[i]).added_at,
            ) && c.photos.reverse()[j].id < c.photos.reverse()[i].id && c.photos.reverse()[j].path
                != c.photos.reverse()[i].path,
{
    let n = c.photos.len() as int;
    assert forall|i: int, j: int| 0 <= i < j < n implies text_le(
        (#[trigger] c.photos.reverse()[j]).added_at,
        (#[trigger] c.photos.reverse()[i]).added_at,
    ) && c.photos.reverse()[j].id < c.photos.reverse()[i].id && c.photos.reverse()[j].path
        != c.photos.reverse()[i].path by {
        assert(c.photos.reverse()[j] == c.photos[n - 1 - j]);
        assert(c.photos.reverse()[i] == c.photos[n - 1 - i]);
    }
}

/// The collections of a consistent catalog, listed the newest first, are in
/// the order of their time of creation, the latest first, and no two of them
/// share an identity or a name.
pub proof fn law_collections_are_listed_latest_first(c: CatalogView)
    requires
        catalog_wf(c),
    ensures
        forall|i: int, j: int|
            0 <= i < j < c.collections.len() ==> text_le(
                (#[trigger] c.collections.reverse()[j]).created_at,
                (#[trigger] c.collections.reverse()[i]).created_at,
            ) && c.collections.reverse()[j].id < c.collections.reverse()[i].id
                && c.collections.reverse()[j].name != c.collections.reverse()[i].name,
{
    let n = c.collections.len() as int;
    assert forall|i: int, j: int| 0 <= i < j < n implies text_le(
        (#[trigger] c.collections.reverse()[j]).created_at,
        (#[trigger] c.collections.reverse()[i]).created_at,
    ) && c.collections.reverse()[j].id < c.collections.reverse()[i].id
        && c.collections.reverse()[j].name != c.collections.reverse()[i].name by {
        assert(c.collections.reverse()[j] == c.collections[n - 1 - j]);
        assert(c.collections.reverse()[i] == c.collections[n - 1 - i]);
    }
}

/// Inserting a photo keeps a consistent catalog consistent: the new photo
/// has an identity and a path of its own and is the latest.
pub proof fn law_insert_photo_keeps_consistency(c: CatalogView, photo: PhotoView, now: Seq<char>)
    requires
        catalog_wf(c),
    ensures
        catalog_wf(after_insert_photo(c, photo, now)),
{
    let after = after_insert_photo(c, photo, now);
    if insert_photo_outcome(c, photo) is Ok {
        let n = c.photos.len() as int;
        let stamp = next_stamp(newest_photo_stamp(c.photos), now);
        assert forall|i: int| 0 <= i < n implies text_le(
            (#[trigger] c.photos[i]).added_at,
            stamp,
        ) by {
            let last = c.photos.last().added_at;
            lemma_text_le_total(last, now);
            lemma_text_le_reflexive(last);
            if i < n - 1 {
                lemma_text_le_transitive(c.photos[i].added_at, last, stamp);
            }
        }
        assert forall|i: int, j: int| 0 <= i < j < after.photos.len() implies (
        #[trigger] after.photos[i]).id < (#[trigger] after.photos[j]).id && after.photos[i].path
            != after.photos[j].path && text_le(
            after.photos[i].added_at,
            after.photos[j].added_at,
        ) by {
            assert(after.photos[i] == c.photos[i]);
            if j < n {
                assert(after.photos[j] == c.photos[j]);
            }
        }
        assert forall|k: int| 0 <= k < after.memberships.len() implies has_photo(
            after.photos,
            (#[trigger] after.memberships[k]).photo_id,
        ) by {
            let m = c.memberships[k];
            let i = choose|i: int| 0 <= i < n && (#[trigger] c.photos[i]).id == m.photo_id;
            assert(after.photos[i].id == m.photo_id);
        }
    }
}

/// A change of metadata keeps a consistent catalog consistent, and leaves
/// every photo its identity, its path, its file and its time of ingestion:
/// only the rating, the favourite mark, the tags and the description can
/// differ.
pub proof fn law_update_metadata_keeps_consistency(c: CatalogView, id: i64, patch: MetadataPatch)
    requires
        catalog_wf(c),
    ensures
        catalog_wf(after_update_metadata(c, id, patch)),
        after_update_metadata(c, id, patch).photos.len() == c.photos.len(),
        forall|k: int|
            0 <= k < c.photos.len() ==> (#[trigger] after_update_metadata(c, id, patch).photos[k])
                == (PhotoView {
                rating: after_update_metadata(c, id, patch).photos[k].rating,
                is_favorite: after_update_metadata(c, id, patch).photos[k].is_favorite,
                tags: after_update_metadata(c, id, patch).photos[k].tags,
                description: after_update_metadata(c, id, patch).photos[k].description,
                ..c.photos[k]
            }),
{
    let after = after_update_metadata(c, id, patch);
    assert forall|k: int| 0 <= k < after.photos.len() implies (#[trigger] after.photos[k]).id
        == c.photos[k].id && after.photos[k].path == c.photos[k].path && after.photos[k].added_at
        == c.photos[k].added_at by {}
    assert forall|k: int| 0 <= k < after.memberships.len() implies has_photo(
        after.photos,
        (#[trigger] after.memberships[k]).photo_id,
    ) by {
        let m = c.memberships[k];
        let j = choose|j: int| 0 <= j < c.photos.len() && (#[trigger] c.photos[j]).id == m.photo_id;
        assert(after.photos[j].id == m.photo_id);
    }
}

/// Creating a collection keeps a consistent catalog consistent.
pub proof fn law_create_collection_keeps_consistency(
    c: CatalogView,
    name: Seq<char>,
    now: Seq<char>,
)
    requires
        catalog_wf(c),
    ensures
        catalog_wf(after_create_collection(c, name, now)),
{
    let after = after_create_collection(c, name, now);
    if create_collection_outcome(c, name) is Ok {
        let n = c.collections.len() as int;
        let stamp = next_stamp(newest_collection_stamp(c.collections), now);
        assert forall|i: int| 0 <= i < n implies text_le(
            (#[trigger] c.collections[i]).created_at,
            stamp,
        ) by {
            let last = c.collections.last().created_at;
            lemma_text_le_total(last, now);
            lemma_text_le_reflexive(last);
            if i < n - 1 {
                lemma_text_le_transitive(c.collections[i].created_at, last, stamp);
            }
        }
        assert forall|i: int, j: int| 0 <= i < j < after.collections.len() implies (
        #[trigger] after.collections[i]).id < (#[trigger] after.collections[j]).id
            && after.collections[i].name != after.collections[j].name && text_le(
            after.collections[i].created_at,
            after.collections[j].created_at,
        ) by {
            assert(after.collections[i] == c.collections[i]);
            if j < n {
                assert(after.collections[j] == c.collections[j]);
            }
        }
        assert forall|k: int| 0 <= k < after.memberships.len() implies has_collection(
            after.collections,
            (#[trigger] after.memberships[k]).collection_id,
        ) by {
            let m = c.memberships[k];
            let i = choose|i: int|
                0 <= i < n && (#[trigger] c.collections[i]).id == m.collection_id;
            assert(after.collections[i].id == m.collection_id);
        }
    }
}

/// Adding a membership keeps a consistent catalog consistent: no membership
/// is held twice, and each joins a photo and a collection of the catalog.
pub proof fn law_add_membership_keeps_consistency(c: CatalogView, m: PhotoCollection)
    requires
        catalog_wf(c),
    ensures
        catalog_wf(after_add_membership(c, m)),
{
    let after = after_add_membership(c, m);
    if after != c {
        let n = c.memberships.len() as int;
        assert forall|i: int, j: int|
            0 <= i < after.memberships.len() && 0 <= j < after.memberships.len() && i
                != j implies after.memberships[i] != after.memberships[j] by {
            if i < n && j < n {
                assert(c.memberships[i] != c.memberships[j]);
            } else if i < n {
                assert(c.memberships[i] != m);
            } else {
                assert(c.memberships[j] != m);
            }
        }
        assert forall|k: int| 0 <= k < after.memberships.len() implies has_photo(
            after.photos,
            (#[trigger] after.memberships[k]).photo_id,
        ) && has_collection(after.collections, after.memberships[k].collection_id) by {
            if k < n {
                assert(after.memberships[k] == c.memberships[k]);
            }
        }
    }
}

/// Removing a membership keeps a consistent catalog consistent.
pub proof fn law_remove_membership_keeps_consistency(c: CatalogView, m: PhotoCollection)
    requires
        catalog_wf(c),
    ensures
        catalog_wf(after_remove_membership(c, m)),
{
    let after = after_remove_membership(c, m);
    lemma_filter_keeps_distinct(c.memberships, other_than(m));
    lemma_filter_members(c.memberships, other_than(m));
    assert forall|k: int| 0 <= k < after.memberships.len() implies has_photo(
        after.photos,
        (#[trigger] after.memberships[k]).photo_id,
    ) && has_collection(after.collections, after.memberships[k].collection_id) by {
        let x = after.memberships[k];
        assert(c.memberships.filter(other_than(m)).contains(x));
        let j = choose|j: int| 0 <= j < c.memberships.len() && c.memberships[j] == x;
        assert(has_photo(c.photos, c.memberships[j].photo_id));
    }
}

/// Deleting a photo keeps a consistent catalog consistent: no membership
/// of the photo is left behind.
pub proof fn law_delete_photo_keeps_consistency(c: CatalogView, id: i64)
    requires
        catalog_wf(c),
    ensures
        catalog_wf(after_delete_photo(c, id)),
        !has_photo(c.photos, id) ==> after_delete_photo(c, id) == c,
{
    let after = after_delete_photo(c, id);
    if has_photo(c.photos, id) {
        let i = choose|i: int| 0 <= i < c.photos.len() && (#[trigger] c.photos[i]).id == id;
        lemma_remove_photo(c.photos, c.last_photo_id, i);
        lemma_filter_drops_one(c.photos, photo_other_than(id), i);
        lemma_filter_keeps_distinct(c.memberships, of_other_photo(id));
        lemma_filter_members(c.memberships, of_other_photo(id));
        assert forall|k: int| 0 <= k < after.memberships.len() implies has_photo(
            after.photos,
            (#[trigger] after.memberships[k]).photo_id,
        ) && has_collection(after.collections, after.memberships[k].collection_id) by {
            let x = after.memberships[k];
            assert(c.memberships.filter(of_other_photo(id)).contains(x));
            let j = choose|j: int| 0 <= j < c.memberships.len() && c.memberships[j] == x;
            assert(has_photo(c.photos, c.memberships[j].photo_id));
        }
    } else {
        lemma_filter_keeps_all(c.photos, photo_other_than(id));
        assert forall|j: int| 0 <= j < c.memberships.len() implies of_other_photo(id)(
            #[trigger] c.memberships[j],
        ) by {
            assert(has_photo(c.photos, c.memberships[j].photo_id));
        }
        lemma_filter_keeps_all(c.memberships, of_other_photo(id));
    }
}

/// Deleting a collection keeps a consistent catalog consistent: no
/// membership in the collection is left behind.
pub proof fn law_delete_collection_keeps_consistency(c: CatalogView, id: i64)
    requires
        catalog_wf(c),
    ensures
        catalog_wf(after_delete_collection(c, id)),
        !has_collection(c.collections, id) ==> after_delete_collection(c, id) == c,
{
    let after = after_delete_collection(c, id);
    if has_collection(c.collections, id) {
        let i = choose|i: int|
            0 <= i < c.collections.len() && (#[trigger] c.collections[i]).id == id;
        lemma_remove_collection(c.collections, c.last_collection_id, i);
        lemma_filter_drops_one(c.collections, collection_other_than(id), i);
        lemma_filter_keeps_distinct(c.memberships, in_other_collection(id));
        lemma_filter_members(c.memberships, in_other_collection(id));
        assert forall|k: int| 0 <= k < after.memberships.len() implies has_photo(
            after.photos,
            (#[trigger] after.memberships[k]).photo_id,
        ) && has_collection(after.collections, after.memberships[k].collection_id) by {
            let x = after.memberships[k];
            assert(c.memberships.filter(in_other_collection(id)).contains(x));
            let j = choose|j: int| 0 <= j < c.memberships.len() && c.memberships[j] == x;
            assert(has_collection(c.collections, c.memberships[j].collection_id));
        }
    } else {
        lemma_filter_keeps_all(c.collections, collection_other_than(id));
        assert forall|j: int| 0 <= j < c.memberships.len() implies in_other_collection(id)(
            #[trigger] c.memberships[j],
        ) by {
            assert(has_collection(c.collections, c.memberships[j].collection_id));
        }
        lemma_filter_keeps_all(c.memberships, in_other_collection(id));
    }
}

/// The photos listed for a collection are the photos of the catalog that
/// are members of it, each once.
pub proof fn law_a_collection_lists_its_members(c: CatalogView, collection_id: i64)
    ensures
        forall|p: PhotoView| #[trigger]
            photos_in_collection(c, collection_id).contains(p) <==> c.photos.contains(p)
                && c.memberships.contains(PhotoCollection { photo_id: p.id, collection_id }),
        c.photos.no_duplicates() ==> photos_in_collection(c, collection_id).no_duplicates(),
{
    let members = c.photos.filter(member_of(c.memberships, collection_id));
    let listed = photos_in_collection(c, collection_id);
    let n = members.len() as int;
    lemma_filter_members(c.photos, member_of(c.memberships, collection_id));
    assert forall|p: PhotoView| #[trigger] listed.contains(p) <==> members.contains(p) by {
        if listed.contains(p) {
            let k = choose|k: int| 0 <= k < listed.len() && listed[k] == p;
            assert(members[n - 1 - k] == p);
        }
        if members.contains(p) {
            let k = choose|k: int| 0 <= k < members.len() && members[k] == p;
            assert(listed[n - 1 - k] == p);
        }
    }
    if c.photos.no_duplicates() {
        lemma_filter_keeps_distinct(c.photos, member_of(c.memberships, collection_id));
        assert forall|i: int, j: int|
            0 <= i < listed.len() && 0 <= j < listed.len() && i != j implies listed[i]
            != listed[j] by {
            assert(listed[i] == members[n - 1 - i] && listed[j] == members[n - 1 - j]);
        }
    }
}

} // verus!
