//! The records of the catalog and their mathematical views.

use vstd::prelude::*;

verus! {

/// The version of the persisted layout that this catalog writes.
pub const SCHEMA_VERSION: i32 = 1;

/// One photo of the catalog.
#[derive(Debug, Clone, PartialEq, Eq)]
pub struct Photo {
    pub id: i64,
    pub path: String,
    pub filename: String,
    pub file_size: i64,
    pub width: i32,
    pub height: i32,
    pub capture_date: Option<String>,
    pub added_at: String,
    pub rating: i32,
    pub is_favorite: bool,
    /// The tags, as the text of a list, kept as it was given.
    pub tags: String,
    pub description: Option<String>,
    pub thumbnail_path: Option<String>,
}

/// A photo as mathematical values.
pub struct PhotoView {
    pub id: i64,
    pub path: Seq<char>,
    pub filename: Seq<char>,
    pub file_size: i64,
    pub width: i32,
    pub height: i32,
    pub capture_date: Option<Seq<char>>,
    pub added_at: Seq<char>,
    pub rating: i32,
    pub is_favorite: bool,
    pub tags: Seq<char>,
    pub description: Option<Seq<char>>,
    pub thumbnail_path: Option<Seq<char>>,
}

/// The view of a text that may be absent.
pub open spec fn optional_text(text: Option<String>) -> Option<Seq<char>> {
    match text {
        Some(t) => Some(t@),
        None => None,
    }
}

impl View for Photo {
    type V = PhotoView;

    open spec fn view(&self) -> PhotoView {
        PhotoView {
            id: self.id,
            path: self.path@,
            filename: self.filename@,
            file_size: self.file_size,
            width: self.width,
            height: self.height,
            capture_date: optional_text(self.capture_date),
            added_at: self.added_at@,
            rating: self.rating,
            is_favorite: self.is_favorite,
            tags: self.tags@,
            description: optional_text(self.description),
            thumbnail_path: optional_text(self.thumbnail_path),
        }
    }
}

/// A named group of photos.
#[derive(Debug, Clone, PartialEq, Eq)]
pub struct Collection {
    pub id: i64,
    pub name: String,
    pub created_at: String,
}

/// A collection as mathematical values.
pub struct CollectionView {
    pub id: i64,
    pub name: Seq<char>,
    pub created_at: Seq<char>,
}

impl View for Collection {
    type V = CollectionView;

    open spec fn view(&self) -> CollectionView {
        CollectionView { id: self.id, name: self.name@, created_at: self.created_at@ }
    }
}

/// The membership of a photo in a collection.
#[derive(Debug, Clone, Copy, PartialEq, Eq)]
pub struct PhotoCollection {
    pub photo_id: i64,
    pub collection_id: i64,
}

/// Why the catalog refused an operation.
#[derive(Debug, Clone, Copy, PartialEq, Eq)]
pub enum CatalogError {
    /// No photo, or no collection, has the identity.
    NotFound,
    /// A photo with the path is in the catalog already.
    DuplicatePath,
    /// A collection with the name is in the catalog already.
    DuplicateName,
    /// Every identity has been given out.
    Exhausted,
    /// A snapshot does not describe a consistent catalog.
    Inconsistent,
}

/// The views of a list of photos.
pub open spec fn photo_views(photos: Seq<Photo>) -> Seq<PhotoView> {
    photos.map_values(|p: Photo| p@)
}

/// The views of a list of collections.
pub open spec fn collection_views(collections: Seq<Collection>) -> Seq<CollectionView> {
    collections.map_values(|c: Collection| c@)
}

/// A snapshot of a catalog: everything it holds, for backup and restore.
#[derive(Debug, Clone, PartialEq, Eq)]
pub struct Backup {
    pub photos: Vec<Photo>,
    pub collections: Vec<Collection>,
    pub photo_collections: Vec<PhotoCollection>,
}

/// A snapshot as mathematical values.
pub struct BackupView {
    pub photos: Seq<PhotoView>,
    pub collections: Seq<CollectionView>,
    pub photo_collections: Seq<PhotoCollection>,
}

impl View for Backup {
    type V = BackupView;

    open spec fn view(&self) -> BackupView {
        BackupView {
            photos: photo_views(self.photos@),
            collections: collection_views(self.collections@),
            photo_collections: self.photo_collections@,
        }
    }
}

/// One step of preparing a store for the catalog. Every step creates what is
/// absent and leaves what exists as it is.
#[derive(Debug, Clone, Copy, PartialEq, Eq)]
pub enum SchemaStep {
    /// Record the version of the layout under the marker's key.
    RecordVersion(i32),
    /// Create the table of photos, one row to a path.
    CreatePhotosTable,
    IndexPhotosByRating,
    IndexPhotosByCaptureDate,
    IndexPhotosByAddedAt,
    IndexPhotosByFavorite,
    /// Create the table of collections, one row to a name.
    CreateCollectionsTable,
    /// Create the table of memberships, keyed by photo and collection, whose
    /// rows go when either is deleted.
    CreateMembershipsTable,
}

} // verus!
