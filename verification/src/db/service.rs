//! The catalog as a value that programs hold and change.

use crate::db::laws::{
    law_add_membership_keeps_consistency, law_create_collection_keeps_consistency,
    law_delete_collection_keeps_consistency, law_delete_photo_keeps_consistency,
    law_insert_photo_keeps_consistency, law_remove_membership_keeps_consistency,
    law_update_metadata_keeps_consistency,
};
use crate::db::lemmas::{
    lemma_collection_steps, lemma_filter_drops_one, lemma_filter_keeps_all, lemma_photo_steps,
    lemma_remove_collection, lemma_remove_photo,
};
use crate::db::model::{
    add_membership_outcome, after_add_membership, after_create_collection, after_delete_collection,
    after_reserve_identities,
    after_delete_photo, after_insert_photo, after_remove_membership, after_update_metadata,
    catalog_wf, collection_other_than, collection_step, collections_wf, create_collection_outcome,
    delete_collection_outcome, delete_photo_outcome, empty_catalog, has_collection, has_name,
    has_path, has_photo, in_other_collection, insert_photo_outcome, member_of, memberships_wf,
    next_stamp, of_other_photo, other_than, patch_of, photo_other_than, photo_step,
    photos_in_collection, photos_wf, restored, schema_steps, snapshot_of, update_metadata_outcome,
    CatalogView,
};
use crate::db::types::{
    collection_views, optional_text, photo_views, Backup, CatalogError, Collection, Photo,
    PhotoCollection, SchemaStep, SCHEMA_VERSION,
};
use crate::path::{chars_of, spells};
use crate::text::{precedes_or_equals, text_le};
use vstd::prelude::*;

verus! {

/// A copy of a text that may be absent.
fn copy_optional_text(text: &Option<String>) -> (r: Option<String>)
    ensures
        optional_text(r) == optional_text(*text),
{
    match text {
        Some(t) => Some(t.clone()),
        None => None,
    }
}

/// A copy of a photo.
fn copy_photo(photo: &Photo) -> (r: Photo)
    ensures
        r@ == photo@,
{
    Photo {
        id: photo.id,
        path: photo.path.clone(),
        filename: photo.filename.clone(),
        file_size: photo.file_size,
        width: photo.width,
        height: photo.height,
        capture_date: copy_optional_text(&photo.capture_date),
        added_at: photo.added_at.clone(),
        rating: photo.rating,
        is_favorite: photo.is_favorite,
        tags: photo.tags.clone(),
        description: copy_optional_text(&photo.description),
        thumbnail_path: copy_optional_text(&photo.thumbnail_path),
    }
}

/// A copy of a collection.
fn copy_collection(collection: &Collection) -> (r: Collection)
    ensures
        r@ == collection@,
{
    Collection {
        id: collection.id,
        name: collection.name.clone(),
        created_at: collection.created_at.clone(),
    }
}

/// The time to stamp the next entry with.
fn stamp_after(newest: Option<&String>, now: &str) -> (stamp: String)
    ensures
        stamp@ == next_stamp(
            match newest {
                Some(s) => Some(s@),
                None => None,
            },
            now@,
        ),
{
    match newest {
        Some(latest) => {
            if precedes_or_equals(latest.as_str(), now) {
                now.to_owned()
            } else {
                latest.clone()
            }
        },
        None => now.to_owned(),
    }
}

/// The memberships of every photo but one.
fn memberships_of_other_photos(memberships: &Vec<PhotoCollection>, id: i64) -> (kept: Vec<
    PhotoCollection,
>)
    ensures
        kept@ == memberships@.filter(of_other_photo(id)),
{
    let mut kept: Vec<PhotoCollection> = Vec::new();
    let mut k: usize = 0;
    proof {
        reveal(Seq::filter);
        assert(memberships@.take(0) =~= Seq::empty());
    }
    while k < memberships.len()
        invariant
            k <= memberships.len(),
            kept@ == memberships@.take(k as int).filter(of_other_photo(id)),
        decreases memberships.len() - k,
    {
        let m = memberships[k];
        proof {
            assert(memberships@.take(k + 1) =~= memberships@.take(k as int).push(m));
            memberships@.take(k as int).lemma_filter_push(m, of_other_photo(id));
        }
        if m.photo_id != id {
            kept.push(m);
        }
        k = k + 1;
    }
    assert(memberships@.take(memberships.len() as int) =~= memberships@);
    kept
}

/// The memberships in every collection but one.
fn memberships_in_other_collections(memberships: &Vec<PhotoCollection>, id: i64) -> (kept: Vec<
    PhotoCollection,
>)
    ensures
        kept@ == memberships@.filter(in_other_collection(id)),
{
    let mut kept: Vec<PhotoCollection> = Vec::new();
    let mut k: usize = 0;
    proof {
        reveal(Seq::filter);
        assert(memberships@.take(0) =~= Seq::empty());
    }
    while k < memberships.len()
        invariant
            k <= memberships.len(),
            kept@ == memberships@.take(k as int).filter(in_other_collection(id)),
        decreases memberships.len() - k,
    {
        let m = memberships[k];
        proof {
            assert(memberships@.take(k + 1) =~= memberships@.take(k as int).push(m));
            memberships@.take(k as int).lemma_filter_push(m, in_other_collection(id));
        }
        if m.collection_id != id {
            kept.push(m);
        }
        k = k + 1;
    }
    assert(memberships@.take(memberships.len() as int) =~= memberships@);
    kept
}

/// The catalog of photos, collections and memberships.
pub struct DatabaseService {
    photos: Vec<Photo>,
    collections: Vec<Collection>,
    memberships: Vec<PhotoCollection>,
    last_photo_id: i64,
    last_collection_id: i64,
}

impl View for DatabaseService {
    type V = CatalogView;

    closed spec fn view(&self) -> CatalogView {
        CatalogView {
            photos: photo_views(self.photos@),
            collections: collection_views(self.collections@),
            memberships: self.memberships@,
            last_photo_id: self.last_photo_id,
            last_collection_id: self.last_collection_id,
        }
    }
}

impl DatabaseService {
    /// Whether the catalog is consistent. Every catalog that this type hands
    /// out is, and every operation keeps it so.
    pub open spec fn wf(&self) -> bool {
        catalog_wf(self@)
    }

    /// An empty catalog.
    pub fn new() -> (db: DatabaseService)
        ensures
            db.wf(),
            db@ == empty_catalog(),
    {
        let db = DatabaseService {
            photos: Vec::new(),
            collections: Vec::new(),
            memberships: Vec::new(),
            last_photo_id: 0,
            last_collection_id: 0,
        };
        assert(db@.photos =~= Seq::empty());
        assert(db@.collections =~= Seq::empty());
        assert(db@.memberships =~= Seq::empty());
        db
    }

    /// The catalog that a snapshot describes. A snapshot that describes no
    /// consistent catalog is refused: one whose photos or collections are not
    /// listed the newest first, each with an identity of its own, a path or
    /// name of its own and a time not later than that of the one before it,
    /// or one that holds a membership twice or a membership of a photo or in
    /// a collection that it does not list.
    pub fn restore(backup: &Backup) -> (r: Result<DatabaseService, CatalogError>)
        ensures
            match r {
                Ok(db) => db.wf() && db@ == restored(backup@),
                Err(e) => e == CatalogError::Inconsistent && !catalog_wf(restored(backup@)),
            },
    {
        let mut photos: Vec<Photo> = Vec::new();
        let photo_count = backup.photos.len();
        let mut i: usize = photo_count;
        while i > 0
            invariant
                i <= photo_count,
                photo_count == backup.photos.len(),
                photos.len() == photo_count - i,
                forall|k: int|
                    0 <= k < photos.len() ==> (#[trigger] photos[k])@ == backup@.photos[photo_count
                        - 1 - k],
            decreases i,
        {
            i = i - 1;
            photos.push(copy_photo(&backup.photos[i]));
        }
        let mut collections: Vec<Collection> = Vec::new();
        let collection_count = backup.collections.len();
        let mut i: usize = collection_count;
        while i > 0
            invariant
                i <= collection_count,
                collection_count == backup.collections.len(),
                collections.len() == collection_count - i,
                forall|k: int|
                    0 <= k < collections.len() ==> (#[trigger] collections[k])@
                        == backup@.collections[collection_count - 1 - k],
            decreases i,
        {
            i = i - 1;
            collections.push(copy_collection(&backup.collections[i]));
        }
        let mut memberships: Vec<PhotoCollection> = Vec::new();
        let mut i: usize = 0;
        while i < backup.photo_collections.len()
            invariant
                i <= backup.photo_collections.len(),
                memberships@ == backup.photo_collections@.take(i as int),
            decreases backup.photo_collections.len() - i,
        {
            memberships.push(backup.photo_collections[i]);
            i = i + 1;
            assert(memberships@ =~= backup.photo_collections@.take(i as int));
        }
        assert(backup.photo_collections@.take(backup.photo_collections.len() as int)
            =~= backup.photo_collections@);
        let last_photo_id: i64 = if photo_count == 0 {
            0
        } else {
            backup.photos[0].id
        };
        let last_collection_id: i64 = if collection_count == 0 {
            0
        } else {
            backup.collections[0].id
        };
        let db = DatabaseService {
            photos,
            collections,
            memberships,
            last_photo_id,
            last_collection_id,
        };
        proof {
            assert(db@.photos =~= backup@.photos.reverse());
            assert(db@.collections =~= backup@.collections.reverse());
            assert(db@ == restored(backup@));
        }
        if db.is_consistent() {
            Ok(db)
        } else {
            Err(CatalogError::Inconsistent)
        }
    }

    /// Counts the identities up to those given as given out, so that none of
    /// them is given to a new photo or a new collection. A catalog restored
    /// from a snapshot knows only the identities that the snapshot holds;
    /// this tells it of those that were given out and deleted since.
    pub fn reserve_identities(&mut self, last_photo_id: i64, last_collection_id: i64)
        requires
            old(self).wf(),
        ensures
            final(self).wf(),
            final(self)@ == after_reserve_identities(old(self)@, last_photo_id, last_collection_id),
    {
        if last_photo_id > self.last_photo_id {
            self.last_photo_id = last_photo_id;
        }
        if last_collection_id > self.last_collection_id {
            self.last_collection_id = last_collection_id;
        }
    }

    /// Whether the catalog is consistent, checked entry by entry.
    pub fn is_consistent(&self) -> (r: bool)
        ensures
            r == self.wf(),
    {
        self.last_photo_id >= 0 && self.last_collection_id >= 0 && self.photos_consistent()
            && self.collections_consistent() && self.memberships_consistent()
    }

    /// The steps that prepare a store for the catalog, given the version
    /// marker that was read from it. A store without a marker has the version
    /// recorded; one with a marker is left as it is but for what is absent.
    pub fn init_schema(marker: Option<i32>) -> (steps: Vec<SchemaStep>)
        ensures
            steps@ == schema_steps(marker),
    {
        let mut steps: Vec<SchemaStep> = Vec::new();
        if marker.is_none() {
            steps.push(SchemaStep::RecordVersion(SCHEMA_VERSION));
        }
        steps.push(SchemaStep::CreatePhotosTable);
        steps.push(SchemaStep::IndexPhotosByRating);
        steps.push(SchemaStep::IndexPhotosByCaptureDate);
        steps.push(SchemaStep::IndexPhotosByAddedAt);
        steps.push(SchemaStep::IndexPhotosByFavorite);
        steps.push(SchemaStep::CreateCollectionsTable);
        steps.push(SchemaStep::CreateMembershipsTable);
        assert(steps@ =~= schema_steps(marker));
        steps
    }

    /// Adds a photo to the catalog and returns the identity given to it. The
    /// identity and the time of ingestion are the catalog's to assign: those
    /// of the record are not looked at, and `now` is the time of the call. A
    /// path that the catalog holds already is refused, and nothing changes.
    pub fn insert_photo(&mut self, photo: &Photo, now: &str) -> (r: Result<i64, CatalogError>)
        requires
            old(self).wf(),
        ensures
            final(self).wf(),
            r == insert_photo_outcome(old(self)@, photo@),
            final(self)@ == after_insert_photo(old(self)@, photo@, now@),
    {
        if self.holds_path(&photo.path) {
            return Err(CatalogError::DuplicatePath);
        }
        if self.last_photo_id == i64::MAX {
            return Err(CatalogError::Exhausted);
        }
        let id: i64 = self.last_photo_id + 1;
        let count = self.photos.len();
        let newest: Option<&String> = if count == 0 {
            None
        } else {
            Some(&self.photos[count - 1].added_at)
        };
        let mut stored = copy_photo(photo);
        stored.id = id;
        stored.added_at = stamp_after(newest, now);
        self.photos.push(stored);
        self.last_photo_id = id;
        proof {
            assert(self@.photos =~= old(self)@.photos.push(stored@));
            law_insert_photo_keeps_consistency(old(self)@, photo@, now@);
        }
        Ok(id)
    }

    /// The photo with the identity.
    pub fn get_photo(&self, id: i64) -> (r: Option<Photo>)
        ensures
            match r {
                Some(photo) => photo.id == id && self@.photos.contains(photo@),
                None => !has_photo(self@.photos, id),
            },
    {
        match self.photo_index(id) {
            Some(i) => Some(copy_photo(&self.photos[i])),
            None => None,
        }
    }

    /// Every photo of the catalog, the most recently ingested first.
    pub fn get_all_photos(&self) -> (photos: Vec<Photo>)
        ensures
            photo_views(photos@) == self@.photos.reverse(),
    {
        let mut photos: Vec<Photo> = Vec::new();
        let count = self.photos.len();
        let mut i: usize = count;
        while i > 0
            invariant
                i <= count,
                count == self.photos.len(),
                photos.len() == count - i,
                forall|k: int|
                    0 <= k < photos.len() ==> (#[trigger] photos[k])@ == self@.photos[count - 1
                        - k],
            decreases i,
        {
            i = i - 1;
            photos.push(copy_photo(&self.photos[i]));
        }
        assert(photo_views(photos@) =~= self@.photos.reverse());
        photos
    }

    /// Changes the metadata of a photo. Only the parts that are given are
    /// changed. A call that gives none changes nothing and succeeds; any
    /// other is refused where no photo has the identity.
    pub fn update_metadata(
        &mut self,
        photo_id: i64,
        rating: Option<i32>,
        is_favorite: Option<bool>,
        tags: Option<String>,
        description: Option<String>,
    ) -> (r: Result<(), CatalogError>)
        requires
            old(self).wf(),
        ensures
            final(self).wf(),
            r == update_metadata_outcome(
                old(self)@,
                photo_id,
                patch_of(rating, is_favorite, tags, description),
            ),
            r is Ok ==> final(self)@ == after_update_metadata(
                old(self)@,
                photo_id,
                patch_of(rating, is_favorite, tags, description),
            ),
            r is Err ==> final(self)@ == old(self)@,
    {
        let ghost patch = patch_of(rating, is_favorite, tags, description);
        let ghost before = self@;
        proof {
            law_update_metadata_keeps_consistency(before, photo_id, patch);
        }
        if rating.is_none() && is_favorite.is_none() && tags.is_none() && description.is_none() {
            assert(after_update_metadata(before, photo_id, patch).photos =~= before.photos);
            return Ok(());
        }
        match self.photo_index(photo_id) {
            None => Err(CatalogError::NotFound),
            Some(i) => {
                let mut updated = copy_photo(&self.photos[i]);
                if let Some(value) = rating {
                    updated.rating = value;
                }
                if let Some(value) = is_favorite {
                    updated.is_favorite = value;
                }
                if let Some(value) = tags {
                    updated.tags = value;
                }
                if let Some(value) = description {
                    updated.description = Some(value);
                }
                self.photos.set(i, updated);
                proof {
                    let changed = after_update_metadata(before, photo_id, patch).photos;
                    assert forall|k: int| 0 <= k < before.photos.len() implies self@.photos[k]
                        == changed[k] by {
                        if k != i {
                            assert(before.photos[k].id != before.photos[i as int].id);
                        }
                    }
                    assert(self@.photos =~= changed);
                }
                Ok(())
            },
        }
    }

    /// Deletes a photo, and with it every membership of the photo. It is
    /// refused where no photo has the identity.
    pub fn delete_photo(&mut self, id: i64) -> (r: Result<(), CatalogError>)
        requires
            old(self).wf(),
        ensures
            final(self).wf(),
            r == delete_photo_outcome(old(self)@, id),
            final(self)@ == after_delete_photo(old(self)@, id),
    {
        proof {
            law_delete_photo_keeps_consistency(old(self)@, id);
        }
        match self.photo_index(id) {
            Some(i) => {
                self.photos.remove(i);
                self.memberships = memberships_of_other_photos(&self.memberships, id);
                proof {
                    let before = old(self)@.photos;
                    lemma_remove_photo(before, old(self)@.last_photo_id, i as int);
                    lemma_filter_drops_one(before, photo_other_than(id), i as int);
                    assert(self@.photos =~= before.remove(i as int));
                }
                Ok(())
            },
            None => Err(CatalogError::NotFound),
        }
    }

    /// Adds a collection to the catalog and returns the identity given to
    /// it; `now` is the time of the call. A name that the catalog holds
    /// already is refused, and nothing changes.
    pub fn create_collection(&mut self, name: &str, now: &str) -> (r: Result<i64, CatalogError>)
        requires
            old(self).wf(),
        ensures
            final(self).wf(),
            r == create_collection_outcome(old(self)@, name@),
            final(self)@ == after_create_collection(old(self)@, name@, now@),
    {
        if self.holds_name(name) {
            return Err(CatalogError::DuplicateName);
        }
        if self.last_collection_id == i64::MAX {
            return Err(CatalogError::Exhausted);
        }
        let id: i64 = self.last_collection_id + 1;
        let count = self.collections.len();
        let newest: Option<&String> = if count == 0 {
            None
        } else {
            Some(&self.collections[count - 1].created_at)
        };
        let created_at = stamp_after(newest, now);
        let created = Collection { id, name: name.to_owned(), created_at };
        self.collections.push(created);
        self.last_collection_id = id;
        proof {
            assert(self@.collections =~= old(self)@.collections.push(created@));
            law_create_collection_keeps_consistency(old(self)@, name@, now@);
        }
        Ok(id)
    }

    /// The collection with the identity.
    pub fn get_collection(&self, id: i64) -> (r: Option<Collection>)
        ensures
            match r {
                Some(collection) => collection.id == id && self@.collections.contains(
                    collection@,
                ),
                None => !has_collection(self@.collections, id),
            },
    {
        match self.collection_index(id) {
            Some(i) => Some(copy_collection(&self.collections[i])),
            None => None,
        }
    }

    /// Every collection of the catalog, the most recently created first.
    pub fn get_all_collections(&self) -> (collections: Vec<Collection>)
        ensures
            collection_views(collections@) == self@.collections.reverse(),
    {
        let mut collections: Vec<Collection> = Vec::new();
        let count = self.collections.len();
        let mut i: usize = count;
        while i > 0
            invariant
                i <= count,
                count == self.collections.len(),
                collections.len() == count - i,
                forall|k: int|
                    0 <= k < collections.len() ==> (#[trigger] collections[k])@
                        == self@.collections[count - 1 - k],
            decreases i,
        {
            i = i - 1;
            collections.push(copy_collection(&self.collections[i]));
        }
        assert(collection_views(collections@) =~= self@.collections.reverse());
        collections
    }

    /// Deletes a collection, and with it every membership in the collection.
    /// The photos that were its members stay in the catalog. It is refused
    /// where no collection has the identity.
    pub fn delete_collection(&mut self, id: i64) -> (r: Result<(), CatalogError>)
        requires
            old(self).wf(),
        ensures
            final(self).wf(),
            r == delete_collection_outcome(old(self)@, id),
            final(self)@ == after_delete_collection(old(self)@, id),
    {
        proof {
            law_delete_collection_keeps_consistency(old(self)@, id);
        }
        match self.collection_index(id) {
            Some(i) => {
                self.collections.remove(i);
                self.memberships = memberships_in_other_collections(&self.memberships, id);
                proof {
                    let before = old(self)@.collections;
                    lemma_remove_collection(before, old(self)@.last_collection_id, i as int);
                    lemma_filter_drops_one(before, collection_other_than(id), i as int);
                    assert(self@.collections =~= before.remove(i as int));
                }
                Ok(())
            },
            None => Err(CatalogError::NotFound),
        }
    }

    /// Makes a photo a member of a collection. Where it is one already
    /// nothing changes; where the photo or the collection is not in the
    /// catalog the call is refused.
    pub fn add_photo_to_collection(&mut self, photo_id: i64, collection_id: i64) -> (r: Result<
        (),
        CatalogError,
    >)
        requires
            old(self).wf(),
        ensures
            final(self).wf(),
            r == add_membership_outcome(old(self)@, PhotoCollection { photo_id, collection_id }),
            final(self)@ == after_add_membership(
                old(self)@,
                PhotoCollection { photo_id, collection_id },
            ),
    {
        let m = PhotoCollection { photo_id, collection_id };
        if self.photo_index(photo_id).is_none() || self.collection_index(collection_id).is_none() {
            return Err(CatalogError::NotFound);
        }
        if self.membership_index(m).is_none() {
            self.memberships.push(m);
        }
        proof {
            law_add_membership_keeps_consistency(old(self)@, m);
        }
        Ok(())
    }

    /// Ends the membership of a photo in a collection. Where there is no
    /// such membership nothing changes.
    pub fn remove_photo_from_collection(&mut self, photo_id: i64, collection_id: i64) -> (r: Result<
        (),
        CatalogError,
    >)
        requires
            old(self).wf(),
        ensures
            final(self).wf(),
            r is Ok,
            final(self)@ == after_remove_membership(
                old(self)@,
                PhotoCollection { photo_id, collection_id },
            ),
    {
        let m = PhotoCollection { photo_id, collection_id };
        let ghost before = self@.memberships;
        match self.membership_index(m) {
            Some(i) => {
                self.memberships.remove(i);
                proof {
                    lemma_filter_drops_one(before, other_than(m), i as int);
                }
            },
            None => {
                proof {
                    assert forall|j: int| 0 <= j < before.len() implies other_than(m)(
                        #[trigger] before[j],
                    ) by {
                        if before[j] == m {
                            assert(before.contains(m));
                        }
                    }
                    lemma_filter_keeps_all(before, other_than(m));
                }
            },
        }
        proof {
            law_remove_membership_keeps_consistency(old(self)@, m);
        }
        Ok(())
    }

    /// The photos that are members of a collection, the most recently
    /// ingested first. A collection that is not in the catalog has none.
    pub fn get_photos_in_collection(&self, collection_id: i64) -> (photos: Vec<Photo>)
        ensures
            photo_views(photos@) == photos_in_collection(self@, collection_id),
    {
        let ghost members = member_of(self@.memberships, collection_id);
        let mut kept: Vec<Photo> = Vec::new();
        let mut i: usize = 0;
        proof {
            reveal(Seq::filter);
            assert(self@.photos.take(0) =~= Seq::empty());
            assert(photo_views(kept@) =~= Seq::empty());
        }
        while i < self.photos.len()
            invariant
                i <= self.photos.len(),
                members == member_of(self@.memberships, collection_id),
                photo_views(kept@) == self@.photos.take(i as int).filter(members),
            decreases self.photos.len() - i,
        {
            let photo = &self.photos[i];
            let m = PhotoCollection { photo_id: photo.id, collection_id };
            proof {
                assert(self@.photos.take(i + 1) =~= self@.photos.take(i as int).push(photo@));
                self@.photos.take(i as int).lemma_filter_push(photo@, members);
            }
            if self.membership_index(m).is_some() {
                kept.push(copy_photo(photo));
                assert(photo_views(kept@) =~= self@.photos.take(i as int).filter(members).push(
                    photo@,
                ));
            }
            i = i + 1;
        }
        assert(self@.photos.take(self.photos.len() as int) =~= self@.photos);
        let ghost found = kept@;
        let mut photos: Vec<Photo> = Vec::new();
        while kept.len() > 0
            invariant
                kept.len() + photos.len() == found.len(),
                kept@ == found.take(kept.len() as int),
                forall|k: int|
                    0 <= k < photos.len() ==> (#[trigger] photos[k]) == found[found.len() - 1 - k],
            decreases kept.len(),
        {
            let photo = kept.pop().unwrap();
            photos.push(photo);
        }
        assert(photo_views(photos@) =~= photo_views(found).reverse());
        photos
    }

    /// A snapshot of everything the catalog holds.
    pub fn export_to_json(&self) -> (backup: Backup)
        ensures
            backup@ == snapshot_of(self@),
    {
        let mut photo_collections: Vec<PhotoCollection> = Vec::new();
        let mut i: usize = 0;
        while i < self.memberships.len()
            invariant
                i <= self.memberships.len(),
                photo_collections@ == self.memberships@.take(i as int),
            decreases self.memberships.len() - i,
        {
            photo_collections.push(self.memberships[i]);
            i = i + 1;
            assert(photo_collections@ =~= self.memberships@.take(i as int));
        }
        assert(self.memberships@.take(self.memberships.len() as int) =~= self.memberships@);
        Backup {
            photos: self.get_all_photos(),
            collections: self.get_all_collections(),
            photo_collections,
        }
    }

    /// Whether a photo of the catalog has the path.
    fn holds_path(&self, path: &String) -> (r: bool)
        ensures
            r == has_path(self@.photos, path@),
    {
        let mut i: usize = 0;
        while i < self.photos.len()
            invariant
                i <= self.photos.len(),
                forall|k: int| 0 <= k < i ==> (#[trigger] self@.photos[k]).path != path@,
            decreases self.photos.len() - i,
        {
            if self.photos[i].path == *path {
                assert(self@.photos[i as int].path == path@);
                return true;
            }
            i = i + 1;
        }
        false
    }

    /// Whether a collection of the catalog has the name.
    fn holds_name(&self, name: &str) -> (r: bool)
        ensures
            r == has_name(self@.collections, name@),
    {
        let mut i: usize = 0;
        while i < self.collections.len()
            invariant
                i <= self.collections.len(),
                forall|k: int| 0 <= k < i ==> (#[trigger] self@.collections[k]).name != name@,
            decreases self.collections.len() - i,
        {
            if spells(&chars_of(self.collections[i].name.as_str()), name) {
                assert(self@.collections[i as int].name == name@);
                return true;
            }
            i = i + 1;
        }
        false
    }

    /// The position of the photo with the identity.
    fn photo_index(&self, id: i64) -> (r: Option<usize>)
        ensures
            match r {
                Some(i) => i < self@.photos.len() && self@.photos[i as int].id == id,
                None => !has_photo(self@.photos, id),
            },
    {
        let mut i: usize = 0;
        while i < self.photos.len()
            invariant
                i <= self.photos.len(),
                forall|k: int| 0 <= k < i ==> (#[trigger] self@.photos[k]).id != id,
            decreases self.photos.len() - i,
        {
            if self.photos[i].id == id {
                assert(self@.photos[i as int].id == id);
                return Some(i);
            }
            i = i + 1;
        }
        None
    }

    /// The position of the collection with the identity.
    fn collection_index(&self, id: i64) -> (r: Option<usize>)
        ensures
            match r {
                Some(i) => i < self@.collections.len() && self@.collections[i as int].id == id,
                None => !has_collection(self@.collections, id),
            },
    {
        let mut i: usize = 0;
        while i < self.collections.len()
            invariant
                i <= self.collections.len(),
                forall|k: int| 0 <= k < i ==> (#[trigger] self@.collections[k]).id != id,
            decreases self.collections.len() - i,
        {
            if self.collections[i].id == id {
                assert(self@.collections[i as int].id == id);
                return Some(i);
            }
            i = i + 1;
        }
        None
    }

    /// The position of a membership.
    fn membership_index(&self, m: PhotoCollection) -> (r: Option<usize>)
        ensures
            match r {
                Some(i) => i < self@.memberships.len() && self@.memberships[i as int] == m,
                None => !self@.memberships.contains(m),
            },
    {
        let mut i: usize = 0;
        while i < self.memberships.len()
            invariant
                i <= self.memberships.len(),
                forall|k: int| 0 <= k < i ==> self@.memberships[k] != m,
            decreases self.memberships.len() - i,
        {
            let found = self.memberships[i];
            if found.photo_id == m.photo_id && found.collection_id == m.collection_id {
                return Some(i);
            }
            i = i + 1;
        }
        None
    }

    /// Whether the photos are consistent.
    fn photos_consistent(&self) -> (r: bool)
        ensures
            r == photos_wf(self@.photos, self@.last_photo_id),
    {
        let ghost photos = self@.photos;
        let count = self.photos.len();
        let mut i: usize = 0;
        while i < count
            invariant
                i <= count,
                count == self.photos.len(),
                photos == self@.photos,
                forall|a: int| 0 <= a < i ==> 1 <= (#[trigger] photos[a]).id <= self@.last_photo_id,
                forall|a: int| 0 <= a < i && a + 1 < count ==> #[trigger] photo_step(photos, a),
                forall|a: int, b: int|
                    0 <= a < i && a < b < count ==> (#[trigger] photos[a]).path != (
                    #[trigger] photos[b]).path,
            decreases count - i,
        {
            let photo = &self.photos[i];
            assert(photo@ == photos[i as int]);
            if photo.id < 1 || photo.id > self.last_photo_id {
                return false;
            }
            if i + 1 < count {
                let next = &self.photos[i + 1];
                assert(next@ == photos[i + 1]);
                if photo.id >= next.id || !precedes_or_equals(
                    photo.added_at.as_str(),
                    next.added_at.as_str(),
                ) {
                    return false;
                }
            }
            let mut j: usize = i + 1;
            while j < count
                invariant
                    i < j <= count,
                    count == self.photos.len(),
                    photos == self@.photos,
                    photo@ == photos[i as int],
                    forall|b: int|
                        i < b < j ==> photos[i as int].path != (#[trigger] photos[b]).path,
                decreases count - j,
            {
                if self.photos[j].path == photo.path {
                    assert(photos[j as int].path == photos[i as int].path);
                    return false;
                }
                j = j + 1;
            }
            i = i + 1;
        }
        proof {
            assert forall|a: int, b: int| 0 <= a < b < photos.len() implies (
            #[trigger] photos[a]).id < (#[trigger] photos[b]).id && photos[a].path
                != photos[b].path && text_le(photos[a].added_at, photos[b].added_at) by {
                lemma_photo_steps(photos, a, b);
            }
        }
        true
    }

    /// Whether the collections are consistent.
    fn collections_consistent(&self) -> (r: bool)
        ensures
            r == collections_wf(self@.collections, self@.last_collection_id),
    {
        let ghost collections = self@.collections;
        let count = self.collections.len();
        let mut i: usize = 0;
        while i < count
            invariant
                i <= count,
                count == self.collections.len(),
                collections == self@.collections,
                forall|a: int|
                    0 <= a < i ==> 1 <= (#[trigger] collections[a]).id <= self@.last_collection_id,
                forall|a: int|
                    0 <= a < i && a + 1 < count ==> #[trigger] collection_step(collections, a),
                forall|a: int, b: int|
                    0 <= a < i && a < b < count ==> (#[trigger] collections[a]).name != (
                    #[trigger] collections[b]).name,
            decreases count - i,
        {
            let collection = &self.collections[i];
            assert(collection@ == collections[i as int]);
            if collection.id < 1 || collection.id > self.last_collection_id {
                return false;
            }
            if i + 1 < count {
                let next = &self.collections[i + 1];
                assert(next@ == collections[i + 1]);
                if collection.id >= next.id || !precedes_or_equals(
                    collection.created_at.as_str(),
                    next.created_at.as_str(),
                ) {
                    return false;
                }
            }
            let mut j: usize = i + 1;
            while j < count
                invariant
                    i < j <= count,
                    count == self.collections.len(),
                    collections == self@.collections,
                    collection@ == collections[i as int],
                    forall|b: int|
                        i < b < j ==> collections[i as int].name != (
                        #[trigger] collections[b]).name,
                decreases count - j,
            {
                if self.collections[j].name == collection.name {
                    assert(collections[j as int].name == collections[i as int].name);
                    return false;
                }
                j = j + 1;
            }
            i = i + 1;
        }
        proof {
            assert forall|a: int, b: int| 0 <= a < b < collections.len() implies (
            #[trigger] collections[a]).id < (#[trigger] collections[b]).id && collections[a].name
                != collections[b].name && text_le(
                collections[a].created_at,
                collections[b].created_at,
            ) by {
                lemma_collection_steps(collections, a, b);
            }
        }
        true
    }

    /// Whether the memberships are consistent.
    fn memberships_consistent(&self) -> (r: bool)
        ensures
            r == memberships_wf(self@.memberships, self@.photos, self@.collections),
    {
        let ghost memberships = self@.memberships;
        let count = self.memberships.len();
        let mut i: usize = 0;
        while i < count
            invariant
                i <= count,
                count == self.memberships.len(),
                memberships == self@.memberships,
                forall|a: int|
                    0 <= a < i ==> has_photo(self@.photos, (#[trigger] memberships[a]).photo_id)
                        && has_collection(self@.collections, memberships[a].collection_id),
                forall|a: int, b: int|
                    0 <= a < i && a < b < count ==> memberships[a] != memberships[b],
            decreases count - i,
        {
            let m = self.memberships[i];
            if self.photo_index(m.photo_id).is_none() || self.collection_index(
                m.collection_id,
            ).is_none() {
                assert(!(has_photo(self@.photos, memberships[i as int].photo_id) && has_collection(
                    self@.collections,
                    memberships[i as int].collection_id,
                )));
                return false;
            }
            let mut j: usize = i + 1;
            while j < count
                invariant
                    i < j <= count,
                    count == self.memberships.len(),
                    memberships == self@.memberships,
                    m == memberships[i as int],
                    forall|b: int| i < b < j ==> memberships[i as int] != memberships[b],
                decreases count - j,
            {
                let other = self.memberships[j];
                if other.photo_id == m.photo_id && other.collection_id == m.collection_id {
                    assert(memberships[i as int] == memberships[j as int]);
                    return false;
                }
                j = j + 1;
            }
            i = i + 1;
        }
        proof {
            assert forall|a: int, b: int|
                0 <= a < memberships.len() && 0 <= b < memberships.len() && a
                    != b implies memberships[a] != memberships[b] by {
                if a < b {
                    assert(memberships[a] != memberships[b]);
                } else {
                    assert(memberships[b] != memberships[a]);
                }
            }
        }
        true
    }
}

} // verus!
