//! The catalog as a mathematical value: what makes it consistent, and how
//! each operation changes it.

use crate::db::types::{
    optional_text, BackupView, CatalogError, CollectionView, PhotoCollection, PhotoView,
    SchemaStep, SCHEMA_VERSION,
};
use crate::text::{later_text, text_le};
use vstd::prelude::*;

verus! {

/// The state of a catalog: its photos and collections in the order in which
/// they were added, its memberships, and the last identities given out.
pub struct CatalogView {
    pub photos: Seq<PhotoView>,
    pub collections: Seq<CollectionView>,
    pub memberships: Seq<PhotoCollection>,
    pub last_photo_id: i64,
    pub last_collection_id: i64,
}

/// Whether a photo has the identity.
pub open spec fn has_photo(photos: Seq<PhotoView>, id: i64) -> bool {
    exists|i: int| 0 <= i < photos.len() && (#[trigger] photos[i]).id == id
}

/// Whether a photo has the path.
pub open spec fn has_path(photos: Seq<PhotoView>, path: Seq<char>) -> bool {
    exists|i: int| 0 <= i < photos.len() && (#[trigger] photos[i]).path == path
}

/// Whether a collection has the identity.
pub open spec fn has_collection(collections: Seq<CollectionView>, id: i64) -> bool {
    exists|i: int| 0 <= i < collections.len() && (#[trigger] collections[i]).id == id
}

/// Whether a collection has the name.
pub open spec fn has_name(collections: Seq<CollectionView>, name: Seq<char>) -> bool {
    exists|i: int| 0 <= i < collections.len() && (#[trigger] collections[i]).name == name
}

/// The photos of a consistent catalog: identities are positive, at most the
/// last one given out, and grow with the order of ingestion; no two photos
/// share a path; and the time of ingestion never goes back.
pub open spec fn photos_wf(photos: Seq<PhotoView>, last: i64) -> bool {
    &&& forall|i: int| 0 <= i < photos.len() ==> 1 <= (#[trigger] photos[i]).id <= last
    &&& forall|i: int, j: int|
        0 <= i < j < photos.len() ==> (#[trigger] photos[i]).id < (#[trigger] photos[j]).id
            && photos[i].path != photos[j].path && text_le(photos[i].added_at, photos[j].added_at)
}

/// The collections of a consistent catalog: identities are positive, at most
/// the last one given out, and grow with the order of creation; no two
/// collections share a name; and the time of creation never goes back.
pub open spec fn collections_wf(collections: Seq<CollectionView>, last: i64) -> bool {
    &&& forall|i: int| 0 <= i < collections.len() ==> 1 <= (#[trigger] collections[i]).id <= last
    &&& forall|i: int, j: int|
        0 <= i < j < collections.len() ==> (#[trigger] collections[i]).id < (
        #[trigger] collections[j]).id && collections[i].name != collections[j].name && text_le(
            collections[i].created_at,
            collections[j].created_at,
        )
}

/// The memberships of a consistent catalog: none occurs twice, and each
/// joins a photo and a collection of the catalog.
pub open spec fn memberships_wf(
    memberships: Seq<PhotoCollection>,
    photos: Seq<PhotoView>,
    collections: Seq<CollectionView>,
) -> bool {
    &&& memberships.no_duplicates()
    &&& forall|k: int|
        0 <= k < memberships.len() ==> has_photo(photos, (#[trigger] memberships[k]).photo_id)
            && has_collection(collections, memberships[k].collection_id)
}

/// A consistent catalog.
pub open spec fn catalog_wf(c: CatalogView) -> bool {
    &&& 0 <= c.last_photo_id
    &&& 0 <= c.last_collection_id
    &&& photos_wf(c.photos, c.last_photo_id)
    &&& collections_wf(c.collections, c.last_collection_id)
    &&& memberships_wf(c.memberships, c.photos, c.collections)
}

/// Whether a photo and the next one are in order: identity and time.
pub open spec fn photo_step(photos: Seq<PhotoView>, i: int) -> bool {
    photos[i].id < photos[i + 1].id && text_le(photos[i].added_at, photos[i + 1].added_at)
}

/// Whether a collection and the next one are in order: identity and time.
pub open spec fn collection_step(collections: Seq<CollectionView>, i: int) -> bool {
    collections[i].id < collections[i + 1].id && text_le(
        collections[i].created_at,
        collections[i + 1].created_at,
    )
}

/// The catalog that holds nothing.
pub open spec fn empty_catalog() -> CatalogView {
    CatalogView {
        photos: Seq::empty(),
        collections: Seq::empty(),
        memberships: Seq::empty(),
        last_photo_id: 0,
        last_collection_id: 0,
    }
}

/// The time that the next entry of a list is stamped with: the time given,
/// unless the newest entry bears a later one, which is then kept.
pub open spec fn next_stamp(newest: Option<Seq<char>>, now: Seq<char>) -> Seq<char> {
    match newest {
        Some(stamp) => later_text(stamp, now),
        None => now,
    }
}

/// The time of ingestion of the newest photo.
pub open spec fn newest_photo_stamp(photos: Seq<PhotoView>) -> Option<Seq<char>> {
    if photos.len() == 0 {
        None
    } else {
        Some(photos.last().added_at)
    }
}

/// The time of creation of the newest collection.
pub open spec fn newest_collection_stamp(collections: Seq<CollectionView>) -> Option<Seq<char>> {
    if collections.len() == 0 {
        None
    } else {
        Some(collections.last().created_at)
    }
}

/// What inserting a photo returns: the next identity, unless the path is in
/// the catalog already or no identity is left.
pub open spec fn insert_photo_outcome(c: CatalogView, photo: PhotoView) -> Result<
    i64,
    CatalogError,
> {
    if has_path(c.photos, photo.path) {
        Err(CatalogError::DuplicatePath)
    } else if c.last_photo_id == i64::MAX {
        Err(CatalogError::Exhausted)
    } else {
        Ok((c.last_photo_id + 1) as i64)
    }
}

/// The catalog after inserting a photo: where the insert succeeds the photo
/// is added as the newest, with its identity and time of ingestion assigned;
/// where it fails nothing changes.
pub open spec fn after_insert_photo(
    c: CatalogView,
    photo: PhotoView,
    now: Seq<char>,
) -> CatalogView {
    match insert_photo_outcome(c, photo) {
        Ok(id) => CatalogView {
            photos: c.photos.push(
                PhotoView { id, added_at: next_stamp(newest_photo_stamp(c.photos), now), ..photo },
            ),
            last_photo_id: id,
            ..c
        },
        Err(_) => c,
    }
}

/// A change to the metadata of a photo. Each part is given or not, and only
/// what is given is changed.
pub struct MetadataPatch {
    pub rating: Option<i32>,
    pub is_favorite: Option<bool>,
    pub tags: Option<Seq<char>>,
    pub description: Option<Seq<char>>,
}

/// The change that the parts of a call give.
pub open spec fn patch_of(
    rating: Option<i32>,
    is_favorite: Option<bool>,
    tags: Option<String>,
    description: Option<String>,
) -> MetadataPatch {
    MetadataPatch {
        rating,
        is_favorite,
        tags: optional_text(tags),
        description: optional_text(description),
    }
}

/// Whether a change gives nothing.
pub open spec fn patch_is_empty(patch: MetadataPatch) -> bool {
    patch.rating is None && patch.is_favorite is None && patch.tags is None && patch.description
        is None
}

/// A photo with a change applied: the parts that the change gives replace
/// those of the photo, and everything else stays.
pub open spec fn patched(photo: PhotoView, patch: MetadataPatch) -> PhotoView {
    PhotoView {
        rating: match patch.rating {
            Some(rating) => rating,
            None => photo.rating,
        },
        is_favorite: match patch.is_favorite {
            Some(favorite) => favorite,
            None => photo.is_favorite,
        },
        tags: match patch.tags {
            Some(tags) => tags,
            None => photo.tags,
        },
        description: match patch.description {
            Some(description) => Some(description),
            None => photo.description,
        },
        ..photo
    }
}

/// What a change of metadata returns: a change that gives nothing is always
/// accepted; any other is refused where no photo has the identity.
pub open spec fn update_metadata_outcome(c: CatalogView, id: i64, patch: MetadataPatch) -> Result<
    (),
    CatalogError,
> {
    if patch_is_empty(patch) || has_photo(c.photos, id) {
        Ok(())
    } else {
        Err(CatalogError::NotFound)
    }
}

/// The catalog after a change of metadata: the photo with the identity has
/// the change applied, and nothing else differs.
pub open spec fn after_update_metadata(
    c: CatalogView,
    id: i64,
    patch: MetadataPatch,
) -> CatalogView {
    CatalogView {
        photos: c.photos.map_values(
            |p: PhotoView|
                if p.id == id {
                    patched(p, patch)
                } else {
                    p
                },
        ),
        ..c
    }
}

/// The test that every photo but the one with the identity passes.
pub open spec fn photo_other_than(id: i64) -> spec_fn(PhotoView) -> bool {
    |p: PhotoView| p.id != id
}

/// The test that the memberships of every photo but one pass.
pub open spec fn of_other_photo(id: i64) -> spec_fn(PhotoCollection) -> bool {
    |m: PhotoCollection| m.photo_id != id
}

/// What deleting a photo returns.
pub open spec fn delete_photo_outcome(c: CatalogView, id: i64) -> Result<(), CatalogError> {
    if has_photo(c.photos, id) {
        Ok(())
    } else {
        Err(CatalogError::NotFound)
    }
}

/// The catalog after deleting a photo: the photo is gone, and with it every
/// membership of the photo. Collections stay.
pub open spec fn after_delete_photo(c: CatalogView, id: i64) -> CatalogView {
    CatalogView {
        photos: c.photos.filter(photo_other_than(id)),
        memberships: c.memberships.filter(of_other_photo(id)),
        ..c
    }
}

/// What creating a collection returns: the next identity, unless the name is
/// in the catalog already or no identity is left.
pub open spec fn create_collection_outcome(c: CatalogView, name: Seq<char>) -> Result<
    i64,
    CatalogError,
> {
    if has_name(c.collections, name) {
        Err(CatalogError::DuplicateName)
    } else if c.last_collection_id == i64::MAX {
        Err(CatalogError::Exhausted)
    } else {
        Ok((c.last_collection_id + 1) as i64)
    }
}

/// The catalog after creating a collection: where that succeeds the
/// collection is added as the newest; where it fails nothing changes.
pub open spec fn after_create_collection(
    c: CatalogView,
    name: Seq<char>,
    now: Seq<char>,
) -> CatalogView {
    match create_collection_outcome(c, name) {
        Ok(id) => CatalogView {
            collections: c.collections.push(
                CollectionView {
                    id,
                    name,
                    created_at: next_stamp(newest_collection_stamp(c.collections), now),
                },
            ),
            last_collection_id: id,
            ..c
        },
        Err(_) => c,
    }
}

/// The test that every collection but the one with the identity passes.
pub open spec fn collection_other_than(id: i64) -> spec_fn(CollectionView) -> bool {
    |c: CollectionView| c.id != id
}

/// The test that the memberships in every collection but one pass.
pub open spec fn in_other_collection(id: i64) -> spec_fn(PhotoCollection) -> bool {
    |m: PhotoCollection| m.collection_id != id
}

/// What deleting a collection returns.
pub open spec fn delete_collection_outcome(c: CatalogView, id: i64) -> Result<(), CatalogError> {
    if has_collection(c.collections, id) {
        Ok(())
    } else {
        Err(CatalogError::NotFound)
    }
}

/// The catalog after deleting a collection: the collection is gone, and
/// with it every membership in the collection. Photos stay.
pub open spec fn after_delete_collection(c: CatalogView, id: i64) -> CatalogView {
    CatalogView {
        collections: c.collections.filter(collection_other_than(id)),
        memberships: c.memberships.filter(in_other_collection(id)),
        ..c
    }
}

/// What adding a membership returns: it is refused where the photo or the
/// collection is not in the catalog.
pub open spec fn add_membership_outcome(c: CatalogView, m: PhotoCollection) -> Result<
    (),
    CatalogError,
> {
    if has_photo(c.photos, m.photo_id) && has_collection(c.collections, m.collection_id) {
        Ok(())
    } else {
        Err(CatalogError::NotFound)
    }
}

/// The catalog after adding a membership: it is added unless it is refused
/// or the catalog holds it already.
pub open spec fn after_add_membership(c: CatalogView, m: PhotoCollection) -> CatalogView {
    if add_membership_outcome(c, m) is Ok && !c.memberships.contains(m) {
        CatalogView { memberships: c.memberships.push(m), ..c }
    } else {
        c
    }
}

/// The test that every membership but one passes.
pub open spec fn other_than(m: PhotoCollection) -> spec_fn(PhotoCollection) -> bool {
    |x: PhotoCollection| x != m
}

/// The catalog after removing a membership: every membership but that one.
pub open spec fn after_remove_membership(c: CatalogView, m: PhotoCollection) -> CatalogView {
    CatalogView { memberships: c.memberships.filter(other_than(m)), ..c }
}

/// Whether the photo is a member of the collection.
pub open spec fn is_member(
    memberships: Seq<PhotoCollection>,
    photo_id: i64,
    collection_id: i64,
) -> bool {
    memberships.contains(PhotoCollection { photo_id, collection_id })
}

/// The test that the members of a collection pass.
pub open spec fn member_of(memberships: Seq<PhotoCollection>, collection_id: i64) -> spec_fn(
    PhotoView,
) -> bool {
    |p: PhotoView| is_member(memberships, p.id, collection_id)
}

/// The photos of a collection, the most recently ingested first.
pub open spec fn photos_in_collection(c: CatalogView, collection_id: i64) -> Seq<PhotoView> {
    c.photos.filter(member_of(c.memberships, collection_id)).reverse()
}

/// The snapshot of a catalog: its photos and its collections, the newest
/// first, and its memberships.
pub open spec fn snapshot_of(c: CatalogView) -> BackupView {
    BackupView {
        photos: c.photos.reverse(),
        collections: c.collections.reverse(),
        photo_collections: c.memberships,
    }
}

/// The identity of the newest entry of a snapshot's list, which comes first;
/// zero for an empty list.
pub open spec fn newest_photo_id(photos: Seq<PhotoView>) -> i64 {
    if photos.len() == 0 {
        0
    } else {
        photos.first().id
    }
}

/// The identity of the newest collection of a snapshot's list; zero for an
/// empty list.
pub open spec fn newest_collection_id(collections: Seq<CollectionView>) -> i64 {
    if collections.len() == 0 {
        0
    } else {
        collections.first().id
    }
}

/// The catalog that a snapshot describes: its photos and collections, the
/// oldest first again, and its memberships. The last identities given out
/// are those of the newest photo and the newest collection.
pub open spec fn restored(b: BackupView) -> CatalogView {
    CatalogView {
        photos: b.photos.reverse(),
        collections: b.collections.reverse(),
        memberships: b.photo_collections,
        last_photo_id: newest_photo_id(b.photos),
        last_collection_id: newest_collection_id(b.collections),
    }
}

/// The later of two identities.
pub open spec fn later_id(a: i64, b: i64) -> i64 {
    if a <= b {
        b
    } else {
        a
    }
}

/// The catalog after identities were reserved: the identities up to those
/// given count as given out, and nothing else differs.
pub open spec fn after_reserve_identities(
    c: CatalogView,
    last_photo_id: i64,
    last_collection_id: i64,
) -> CatalogView {
    CatalogView {
        last_photo_id: later_id(c.last_photo_id, last_photo_id),
        last_collection_id: later_id(c.last_collection_id, last_collection_id),
        ..c
    }
}

/// The steps that create the tables and their indexes.
pub open spec fn layout_steps() -> Seq<SchemaStep> {
    seq![
        SchemaStep::CreatePhotosTable,
        SchemaStep::IndexPhotosByRating,
        SchemaStep::IndexPhotosByCaptureDate,
        SchemaStep::IndexPhotosByAddedAt,
        SchemaStep::IndexPhotosByFavorite,
        SchemaStep::CreateCollectionsTable,
        SchemaStep::CreateMembershipsTable,
    ]
}

/// The steps that prepare a store in which the version marker was found, or
/// was not: the version is recorded only where no marker was found.
pub open spec fn schema_steps(marker: Option<i32>) -> Seq<SchemaStep> {
    match marker {
        Some(_) => layout_steps(),
        None => seq![SchemaStep::RecordVersion(SCHEMA_VERSION)] + layout_steps(),
    }
}

} // verus!
