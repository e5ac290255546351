//! Resource objects of the OneDrive API: identifiers, field descriptors and error payloads.
//!
//! Resource object structs have field descriptor enums naming every selectable field,
//! which options use to select or expand fields of a response.
use vstd::prelude::*;

verus! {

/// Wrapper for a unique identifier to a `Drive`.
#[derive(Clone, Debug, Eq, Hash, PartialEq)]
pub struct DriveId(pub String);

/// Wrapper for a unique identifier for a `DriveItem`.
#[derive(Clone, Debug, Eq, Hash, PartialEq)]
pub struct ItemId(pub String);

/// Wrapper for a tag representing the state of an item.
///
/// Used for avoid data transmission when a resource is not modified.
/// The tag from `c_tag` is for the content of the item, while the one from
/// `e_tag` is for the entire item (metadata + content).
#[derive(Clone, Debug, Eq, Hash, PartialEq)]
pub struct Tag(pub String);

impl View for DriveId {
    type V = Seq<char>;

    open spec fn view(&self) -> Seq<char> {
        self.0@
    }
}

impl DriveId {
    /// Wrap a string.
    pub fn new(s: String) -> (r: Self)
        ensures
            r@ == s@,
    {
        DriveId(s)
    }

    /// View as str.
    pub fn as_str(&self) -> (r: &str)
        ensures
            r@ == self@,
    {
        self.0.as_str()
    }
}

impl View for ItemId {
    type V = Seq<char>;

    open spec fn view(&self) -> Seq<char> {
        self.0@
    }
}

impl ItemId {
    /// Wrap a string.
    pub fn new(s: String) -> (r: Self)
        ensures
            r@ == s@,
    {
        ItemId(s)
    }

    /// View as str.
    pub fn as_str(&self) -> (r: &str)
        ensures
            r@ == self@,
    {
        self.0.as_str()
    }
}

impl View for Tag {
    type V = Seq<char>;

    open spec fn view(&self) -> Seq<char> {
        self.0@
    }
}

impl Tag {
    /// Wrap a string.
    pub fn new(s: String) -> (r: Self)
        ensures
            r@ == s@,
    {
        Tag(s)
    }

    /// View as str.
    pub fn as_str(&self) -> (r: &str)
        ensures
            r@ == self@,
    {
        self.0.as_str()
    }
}

/// Generalization over the field descriptor enums, used by the options.
pub trait ResourceField {
    /// The raw camelCase name of the field.
    spec fn raw_name_spec(&self) -> Seq<char>;

    /// Get the raw camelCase name of the field.
    fn __raw_name(&self) -> (r: &'static str)
        ensures
            r@ == self.raw_name_spec(),
    ;
}

/// Field descriptors of the `Drive` resource type.
#[derive(Clone, Copy, Debug, Eq, PartialEq)]
#[non_exhaustive]
#[allow(non_camel_case_types)]
pub enum DriveField {
    id,
    created_by,
    created_date_time,
    description,
    drive_type,
    items,
    last_modified_by,
    last_modified_date_time,
    name,
    owner,
    quota,
    root,
    sharepoint_ids,
    special,
    system,
    web_url,
}

/// The raw camelCase name of a field of `Drive`.
pub open spec fn drive_field_name(f: DriveField) -> Seq<char> {
    match f {
        DriveField::id => "id"@,
        DriveField::created_by => "createdBy"@,
        DriveField::created_date_time => "createdDateTime"@,
        DriveField::description => "description"@,
        DriveField::drive_type => "driveType"@,
        DriveField::items => "items"@,
        DriveField::last_modified_by => "lastModifiedBy"@,
        DriveField::last_modified_date_time => "lastModifiedDateTime"@,
        DriveField::name => "name"@,
        DriveField::owner => "owner"@,
        DriveField::quota => "quota"@,
        DriveField::root => "root"@,
        DriveField::sharepoint_ids => "sharepointIds"@,
        DriveField::special => "special"@,
        DriveField::system => "system"@,
        DriveField::web_url => "webUrl"@,
    }
}

impl DriveField {
    /// Get the raw camelCase name of the field.
    pub fn raw_name(&self) -> (r: &'static str)
        ensures
            r@ == drive_field_name(*self),
    {
        match self {
            DriveField::id => "id",
            DriveField::created_by => "createdBy",
            DriveField::created_date_time => "createdDateTime",
            DriveField::description => "description",
            DriveField::drive_type => "driveType",
            DriveField::items => "items",
            DriveField::last_modified_by => "lastModifiedBy",
            DriveField::last_modified_date_time => "lastModifiedDateTime",
            DriveField::name => "name",
            DriveField::owner => "owner",
            DriveField::quota => "quota",
            DriveField::root => "root",
            DriveField::sharepoint_ids => "sharepointIds",
            DriveField::special => "special",
            DriveField::system => "system",
            DriveField::web_url => "webUrl",
        }
    }
}

impl ResourceField for DriveField {
    open spec fn raw_name_spec(&self) -> Seq<char> {
        drive_field_name(*self)
    }

    fn __raw_name(&self) -> (r: &'static str) {
        self.raw_name()
    }
}

/// Field descriptors of the `DriveItem` resource type.
#[derive(Clone, Copy, Debug, Eq, PartialEq)]
#[non_exhaustive]
#[allow(non_camel_case_types)]
pub enum DriveItemField {
    audio,
    content,
    c_tag,
    deleted,
    description,
    file,
    file_system_info,
    folder,
    image,
    location,
    package,
    photo,
    publication,
    remote_item,
    root,
    search_result,
    shared,
    sharepoint_ids,
    size,
    special_folder,
    video,
    web_dav_url,
    children,
    created_by_user,
    last_modified_by_user,
    permissions,
    thumbnails,
    versions,
    id,
    created_by,
    created_date_time,
    e_tag,
    last_modified_by,
    last_modified_date_time,
    name,
    parent_reference,
    web_url,
}

/// The raw camelCase name of a field of `DriveItem`.
pub open spec fn drive_item_field_name(f: DriveItemField) -> Seq<char> {
    match f {
        DriveItemField::audio => "audio"@,
        DriveItemField::content => "content"@,
        DriveItemField::c_tag => "cTag"@,
        DriveItemField::deleted => "deleted"@,
        DriveItemField::description => "description"@,
        DriveItemField::file => "file"@,
        DriveItemField::file_system_info => "fileSystemInfo"@,
        DriveItemField::folder => "folder"@,
        DriveItemField::image => "image"@,
        DriveItemField::location => "location"@,
        DriveItemField::package => "package"@,
        DriveItemField::photo => "photo"@,
        DriveItemField::publication => "publication"@,
        DriveItemField::remote_item => "remoteItem"@,
        DriveItemField::root => "root"@,
        DriveItemField::search_result => "searchResult"@,
        DriveItemField::shared => "shared"@,
        DriveItemField::sharepoint_ids => "sharepointIds"@,
        DriveItemField::size => "size"@,
        DriveItemField::special_folder => "specialFolder"@,
        DriveItemField::video => "video"@,
        DriveItemField::web_dav_url => "webDavUrl"@,
        DriveItemField::children => "children"@,
        DriveItemField::created_by_user => "createdByUser"@,
        DriveItemField::last_modified_by_user => "lastModifiedByUser"@,
        DriveItemField::permissions => "permissions"@,
        DriveItemField::thumbnails => "thumbnails"@,
        DriveItemField::versions => "versions"@,
        DriveItemField::id => "id"@,
        DriveItemField::created_by => "createdBy"@,
        DriveItemField::created_date_time => "createdDateTime"@,
        DriveItemField::e_tag => "eTag"@,
        DriveItemField::last_modified_by => "lastModifiedBy"@,
        DriveItemField::last_modified_date_time => "lastModifiedDateTime"@,
        DriveItemField::name => "name"@,
        DriveItemField::parent_reference => "parentReference"@,
        DriveItemField::web_url => "webUrl"@,
    }
}

impl DriveItemField {
    /// Get the raw camelCase name of the field.
    pub fn raw_name(&self) -> (r: &'static str)
        ensures
            r@ == drive_item_field_name(*self),
    {
        match self {
            DriveItemField::audio => "audio",
            DriveItemField::content => "content",
            DriveItemField::c_tag => "cTag",
            DriveItemField::deleted => "deleted",
            DriveItemField::description => "description",
            DriveItemField::file => "file",
            DriveItemField::file_system_info => "fileSystemInfo",
            DriveItemField::folder => "folder",
            DriveItemField::image => "image",
            DriveItemField::location => "location",
            DriveItemField::package => "package",
            DriveItemField::photo => "photo",
            DriveItemField::publication => "publication",
            DriveItemField::remote_item => "remoteItem",
            DriveItemField::root => "root",
            DriveItemField::search_result => "searchResult",
            DriveItemField::shared => "shared",
            DriveItemField::sharepoint_ids => "sharepointIds",
            DriveItemField::size => "size",
            DriveItemField::special_folder => "specialFolder",
            DriveItemField::video => "video",
            DriveItemField::web_dav_url => "webDavUrl",
            DriveItemField::children => "children",
            DriveItemField::created_by_user => "createdByUser",
            DriveItemField::last_modified_by_user => "lastModifiedByUser",
            DriveItemField::permissions => "permissions",
            DriveItemField::thumbnails => "thumbnails",
            DriveItemField::versions => "versions",
            DriveItemField::id => "id",
            DriveItemField::created_by => "createdBy",
            DriveItemField::created_date_time => "createdDateTime",
            DriveItemField::e_tag => "eTag",
            DriveItemField::last_modified_by => "lastModifiedBy",
            DriveItemField::last_modified_date_time => "lastModifiedDateTime",
            DriveItemField::name => "name",
            DriveItemField::parent_reference => "parentReference",
            DriveItemField::web_url => "webUrl",
        }
    }
}

impl ResourceField for DriveItemField {
    open spec fn raw_name_spec(&self) -> Seq<char> {
        drive_item_field_name(*self)
    }

    fn __raw_name(&self) -> (r: &'static str) {
        self.raw_name()
    }
}

/// OAuth2 error response.
///
/// It is independent of `ErrorResponse` from the storage API, and only comes with
/// errors of OAuth2 operations.
#[derive(Clone, Debug)]
#[non_exhaustive]
pub struct OAuth2ErrorResponse {
    pub error: String,
    pub error_description: String,
    pub error_codes: Option<Vec<u32>>,
    pub timestamp: Option<String>,
    pub trace_id: Option<String>,
    pub correlation_id: Option<String>,
}

impl OAuth2ErrorResponse {
    /// Assemble an OAuth2 error response from its fields.
    pub fn new(
        error: String,
        error_description: String,
        error_codes: Option<Vec<u32>>,
        timestamp: Option<String>,
        trace_id: Option<String>,
        correlation_id: Option<String>,
    ) -> (r: Self)
        ensures
            r.error == error,
            r.error_description == error_description,
            r.error_codes == error_codes,
            r.timestamp == timestamp,
            r.trace_id == trace_id,
            r.correlation_id == correlation_id,
    {
        OAuth2ErrorResponse { error, error_description, error_codes, timestamp, trace_id, correlation_id }
    }
}

/// The JSON object type of `serde_json`, carried through as the inner error of an
/// `ErrorResponse`.
#[verifier::external_type_specification]
#[verifier::external_body]
#[verifier::reject_recursive_types(K)]
#[verifier::reject_recursive_types(V)]
pub struct ExJsonMap<K, V>(serde_json::Map<K, V>);

/// The JSON value type of `serde_json`.
#[verifier::external_type_specification]
#[verifier::external_body]
pub struct ExJsonValue(serde_json::Value);

/// Boxed raw JSON value.
pub type JsonValue = Box<serde_json::Value>;

/// A URL, as text.
pub type Url = String;

/// A timestamp, as the API writes it in ISO 8601.
pub type TimestampString = String;

/// Drive resource type.
///
/// The drive resource is the top level object representing a user's OneDrive or a
/// document library in SharePoint. A field is `None` when it was not selected or not
/// given.
#[derive(Debug, Default)]
#[non_exhaustive]
pub struct Drive {
    pub id: Option<DriveId>,
    pub created_by: Option<JsonValue>,
    pub created_date_time: Option<TimestampString>,
    pub description: Option<String>,
    pub drive_type: Option<JsonValue>,
    pub items: Option<Vec<DriveItem>>,
    pub last_modified_by: Option<JsonValue>,
    pub last_modified_date_time: Option<TimestampString>,
    pub name: Option<String>,
    pub owner: Option<JsonValue>,
    pub quota: Option<JsonValue>,
    pub root: Option<DriveItem>,
    pub sharepoint_ids: Option<JsonValue>,
    pub special: Option<Vec<DriveItem>>,
    pub system: Option<JsonValue>,
    pub web_url: Option<Url>,
}

/// DriveItem resource type.
///
/// The `DriveItem` resource represents a file, folder, or other item stored in a drive.
/// All file system objects in OneDrive and SharePoint are returned as `DriveItem`
/// resources. A field is `None` when it was not selected or not given.
#[derive(Debug, Default)]
#[non_exhaustive]
pub struct DriveItem {
    pub audio: Option<JsonValue>,
    pub content: Option<JsonValue>,
    pub c_tag: Option<Tag>,
    pub deleted: Option<JsonValue>,
    pub description: Option<String>,
    pub file: Option<JsonValue>,
    pub file_system_info: Option<JsonValue>,
    pub folder: Option<JsonValue>,
    pub image: Option<JsonValue>,
    pub location: Option<JsonValue>,
    pub package: Option<JsonValue>,
    pub photo: Option<JsonValue>,
    pub publication: Option<JsonValue>,
    pub remote_item: Option<JsonValue>,
    pub root: Option<JsonValue>,
    pub search_result: Option<JsonValue>,
    pub shared: Option<JsonValue>,
    pub sharepoint_ids: Option<JsonValue>,
    pub size: Option<i64>,
    pub special_folder: Option<JsonValue>,
    pub video: Option<JsonValue>,
    pub web_dav_url: Option<Url>,
    pub children: Option<Vec<DriveItem>>,
    pub created_by_user: Option<JsonValue>,
    pub last_modified_by_user: Option<JsonValue>,
    pub permissions: Option<JsonValue>,
    pub thumbnails: Option<JsonValue>,
    pub versions: Option<JsonValue>,
    pub id: Option<ItemId>,
    pub created_by: Option<JsonValue>,
    pub created_date_time: Option<TimestampString>,
    pub e_tag: Option<Tag>,
    pub last_modified_by: Option<JsonValue>,
    pub last_modified_date_time: Option<TimestampString>,
    pub name: Option<String>,
    pub parent_reference: Option<JsonValue>,
    pub web_url: Option<Url>,
    /// The pre-authorized url for downloading the content. It cannot be selected, and
    /// is given only when an item is got.
    pub download_url: Option<Url>,
}

/// The error resource type, returned whenever an error occurs in the processing of a
/// request to the storage API.
#[derive(Debug)]
#[non_exhaustive]
pub struct ErrorResponse {
    /// OData `code`. Non-exhaustive.
    pub code: String,
    /// OData `message`. Usually to be human-readable.
    pub message: String,
    /// OData `innererror`. An optional object with additional or more specific error codes.
    pub inner_error: Option<serde_json::Map<String, serde_json::Value>>,
}

impl ErrorResponse {
    /// Assemble an error response from its fields.
    pub fn new(
        code: String,
        message: String,
        inner_error: Option<serde_json::Map<String, serde_json::Value>>,
    ) -> (r: Self)
        ensures
            r.code == code,
            r.message == message,
            r.inner_error == inner_error,
    {
        ErrorResponse { code, message, inner_error }
    }
}

} // verus!
