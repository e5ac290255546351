//! The authorized client to access OneDrive resources in a drive: the requests of each
//! operation, the paging state of listings and change tracking, upload sessions and copy
//! progress.
use vstd::prelude::*;
use crate::api::{
    BodyView, BuilderView, Method, RawRequest, RequestBuilder, RequestView, build_failure_reason,
    finish_spec, find_header, first_header, new_builder, with_bearer, with_header, with_headers,
    with_query, yields,
};
use crate::decimal::{decimal, push_decimal};
use crate::error::{Error, Result};
use crate::option::{
    CollectionOption, CollectionOptionView, DriveItemPutOption, ObjectOption, ObjectOptionView,
    PutOptionView, access_headers, collection_query, object_query,
};
use crate::resource::{DriveField, DriveItemField};
use crate::urls::{json_escaped, json_string, json_string_literal};
use crate::util::{
    ConflictBehavior, DriveLocation, DriveLocationView, ExpectRange, FileName, ItemLocation,
    ItemLocationView, api_path, api_path_spec, api_url, api_url_spec, concat_segments,
    conflict_behavior_name, drive_item_segments, drive_segments, item_segments,
    valid_file_name,
};

verus! {

/// The largest payload of `upload_small`: 4 MB.
pub const UPLOAD_SMALL_LIMIT: usize = 4_000_000;

/// The largest part of an upload session: 60 MiB.
pub const UPLOAD_SESSION_PART_LIMIT: usize = 62914560;

/// A builder after an object option: its precondition headers and its query pairs.
pub open spec fn object_applied(b: BuilderView, v: ObjectOptionView) -> BuilderView {
    with_query(with_headers(b, access_headers(v.access)), object_query(v))
}

/// A builder after a collection option.
pub open spec fn collection_applied(b: BuilderView, v: CollectionOptionView) -> BuilderView {
    with_query(with_headers(b, access_headers(v.object.access)), collection_query(v))
}

/// A builder after a PUT-like option: its precondition header.
pub open spec fn put_applied(b: BuilderView, v: PutOptionView) -> BuilderView {
    with_headers(b, access_headers(v.access))
}

/// The builder with a JSON body's content type.
pub open spec fn with_json(b: BuilderView) -> BuilderView {
    with_header(b, "content-type"@, "application/json"@)
}

/// The conflict behavior sent: the given one, or `fail`.
pub open spec fn conflict_or_fail(c: Option<ConflictBehavior>) -> Seq<char> {
    match c {
        Some(b) => conflict_behavior_name(b),
        None => "fail"@,
    }
}

/// The JSON body creating a folder.
pub open spec fn folder_body(name_json: Seq<char>, conflict: Seq<char>) -> Seq<char> {
    "{\"name\":"@ + name_json + ",\"folder\":{},\"@microsoft.graph.conflictBehavior\":\""@ + conflict + "\"}"@
}

/// The JSON body creating an upload session.
pub open spec fn upload_session_body(conflict: Seq<char>) -> Seq<char> {
    "{\"item\":{\"@microsoft.graph.conflictBehavior\":\""@ + conflict + "\"}}"@
}

/// The JSON body of a copy.
pub open spec fn copy_body(path_json: Seq<char>, name_json: Seq<char>) -> Seq<char> {
    "{\"parentReference\":{\"path\":"@ + path_json + "},\"name\":"@ + name_json + "}"@
}

/// The JSON body of a move.
pub open spec fn move_body(path_json: Seq<char>, name_json: Seq<char>, conflict: Seq<char>) -> Seq<char> {
    "{\"parentReference\":{\"path\":"@ + path_json + "},\"name\":"@ + name_json
        + ",\"@microsoft.graph.conflictBehavior\":\""@ + conflict + "\"}"@
}

/// The `Content-Range` value of a part: `bytes {start}-{end - 1}/{total}`.
pub open spec fn content_range(start: nat, end: nat, total: nat) -> Seq<char> {
    "bytes "@ + decimal(start) + "-"@ + decimal((end - 1) as nat) + "/"@ + decimal(total)
}

/// The JSON of a name, when it can be written.
pub open spec fn json_of_option(name: Option<Seq<char>>) -> Option<Seq<char>> {
    match name {
        Some(n) => json_string(n),
        None => Some("null"@),
    }
}

/// A move sends the new name when one is given: the `name` member of its body is then the
/// JSON string literal of that name, which is never `null`; only a move without a new
/// name sends `null`, so that the item keeps its name. The body names the destination
/// folder first and the conflict behavior last.
pub proof fn lemma_move_sends_new_name(path_json: Seq<char>, name: Seq<char>, conflict: Seq<char>)
    ensures
        json_of_option(Some(name)) == Some(seq!['"'] + json_escaped(name) + seq!['"']),
        json_of_option(None) == Some("null"@),
        json_of_option(Some(name)) != json_of_option(None),
        move_body(path_json, json_of_option(Some(name))->Some_0, conflict) == "{\"parentReference\":{\"path\":"@
            + path_json + "},\"name\":\""@ + json_escaped(name) + "\",\"@microsoft.graph.conflictBehavior\":\""@
            + conflict + "\"}"@,
{
    reveal_strlit("null");
    reveal_strlit("},\"name\":");
    reveal_strlit("},\"name\":\"");
    reveal_strlit(",\"@microsoft.graph.conflictBehavior\":\"");
    reveal_strlit("\",\"@microsoft.graph.conflictBehavior\":\"");
    let lit = seq!['"'] + json_escaped(name) + seq!['"'];
    assert(lit[0] != "null"@[0]);
    let a = "{\"parentReference\":{\"path\":"@ + path_json;
    assert(a + "},\"name\":"@ + lit =~= a + "},\"name\":\""@ + json_escaped(name) + seq!['"']);
    assert(seq!['"'] + ",\"@microsoft.graph.conflictBehavior\":\""@ =~= "\",\"@microsoft.graph.conflictBehavior\":\""@);
    assert(move_body(path_json, lit, conflict) =~= "{\"parentReference\":{\"path\":"@ + path_json
        + "},\"name\":\""@ + json_escaped(name) + "\",\"@microsoft.graph.conflictBehavior\":\""@ + conflict
        + "\"}"@);
}

/// The conflict behavior that a request sends is the one the option holds, and `fail`
/// when it holds none; so without a behavior set, a name clash makes the request fail.
pub proof fn lemma_conflict_default_fails(c: Option<ConflictBehavior>)
    ensures
        conflict_or_fail(None) == "fail"@,
        c matches Some(b) ==> conflict_or_fail(c) == conflict_behavior_name(b),
        conflict_or_fail(c) == "fail"@ <==> (c is None || c == Some(ConflictBehavior::Fail)),
{
    crate::util::lemma_conflict_behavior_names(ConflictBehavior::Fail, ConflictBehavior::Fail);
    if let Some(b) = c {
        crate::util::lemma_conflict_behavior_names(b, ConflictBehavior::Fail);
    }
}

/// A new folder and a copy are sent with the name they are given: the `name` member of
/// the body is the JSON string literal of that name. A new folder is marked by an empty
/// `folder` facet, and its conflict behavior comes last.
pub proof fn lemma_bodies_send_given_name(path_json: Seq<char>, name: Seq<char>, conflict: Seq<char>)
    ensures
        json_string(name) == Some(seq!['"'] + json_escaped(name) + seq!['"']),
        folder_body(json_string(name)->Some_0, conflict) == "{\"name\":\""@ + json_escaped(name)
            + "\",\"folder\":{},\"@microsoft.graph.conflictBehavior\":\""@ + conflict + "\"}"@,
        copy_body(path_json, json_string(name)->Some_0) == "{\"parentReference\":{\"path\":"@ + path_json
            + "},\"name\":\""@ + json_escaped(name) + "\"}"@,
        upload_session_body(conflict) == "{\"item\":{\"@microsoft.graph.conflictBehavior\":\""@ + conflict
            + "\"}}"@,
{
    reveal_strlit("{\"name\":");
    reveal_strlit("{\"name\":\"");
    reveal_strlit(",\"folder\":{},\"@microsoft.graph.conflictBehavior\":\"");
    reveal_strlit("\",\"folder\":{},\"@microsoft.graph.conflictBehavior\":\"");
    reveal_strlit("},\"name\":");
    reveal_strlit("},\"name\":\"");
    reveal_strlit("}");
    reveal_strlit("\"}");
    let e = json_escaped(name);
    let lit = seq!['"'] + e + seq!['"'];
    assert(folder_body(lit, conflict) =~= "{\"name\":\""@ + e
        + "\",\"folder\":{},\"@microsoft.graph.conflictBehavior\":\""@ + conflict + "\"}"@);
    assert(copy_body(path_json, lit) =~= "{\"parentReference\":{\"path\":"@ + path_json + "},\"name\":\""@ + e
        + "\"}"@);
}

/// Turns a missing piece of a request into the error for requests that cannot be built.
fn build_failure<T>() -> (r: Result<T>)
    ensures
        r is Err && r->Err_0.is_invalid_request(build_failure_reason()),
{
    proof {
        reveal_strlit("Cannot build the request");
    }
    Err(Error::invalid_request("Cannot build the request"))
}

/// The API URL made of some segments.
fn url_of(segments: &Vec<String>) -> (r: Result<String>)
    ensures
        match api_url_spec(segments.deep_view()) {
            Some(u) => r is Ok && r->Ok_0@ == u,
            None => r is Err && r->Err_0.is_invalid_request(build_failure_reason()),
        },
{
    match api_url(segments) {
        Some(u) => Ok(u),
        None => build_failure(),
    }
}

/// The JSON string literal of a text.
fn json_of(s: &str) -> (r: Result<String>)
    ensures
        match json_string(s@) {
            Some(j) => r is Ok && r->Ok_0@ == j,
            None => r is Err && r->Err_0.is_invalid_request(build_failure_reason()),
        },
{
    match json_string_literal(s) {
        Some(j) => Ok(j),
        None => build_failure(),
    }
}

/// Segments with one more literal at the end.
fn push_segment(segments: Vec<String>, s: &str) -> (r: Vec<String>)
    ensures
        r.deep_view() == segments.deep_view().push(s@),
{
    let mut segments = segments;
    let ghost v = segments.deep_view();
    segments.push(s.to_owned());
    assert(segments.deep_view() =~= v.push(s@));
    segments
}

/// The authorized client to access OneDrive resources in a specified Drive.
#[derive(Debug)]
pub struct DriveClient {
    token: String,
    drive: DriveLocation,
}

impl DriveClient {
    /// The access token.
    pub closed spec fn token_spec(&self) -> Seq<char> {
        self.token@
    }

    /// The drive that requests go to.
    pub closed spec fn drive_spec(&self) -> DriveLocationView {
        self.drive@
    }

    /// The URL of an item of the drive, followed by more segments.
    pub open spec fn item_url(&self, item: ItemLocationView, tail: Seq<Seq<char>>) -> Option<Seq<char>> {
        api_url_spec(drive_segments(self.drive_spec()) + item_segments(item) + tail)
    }

    /// The path of an item of the drive, as used in item references.
    pub open spec fn item_path(&self, item: ItemLocationView) -> Option<Seq<char>> {
        api_path_spec(drive_segments(self.drive_spec()) + item_segments(item))
    }

    /// Create a DriveClient to perform operations in a Drive.
    pub fn new(token: String, drive: DriveLocation) -> (r: Self)
        ensures
            r.token_spec() == token@,
            r.drive_spec() == drive@,
    {
        DriveClient { token, drive }
    }

    /// The access token of this client.
    pub fn token(&self) -> (r: &str)
        ensures
            r@ == self.token_spec(),
    {
        self.token.as_str()
    }

    fn item_url_exec(&self, item: &ItemLocation, tail: Option<&str>) -> (r: Result<String>)
        ensures
            match self.item_url(item@, match tail {
                Some(t) => seq![t@],
                None => Seq::empty(),
            }) {
                Some(u) => r is Ok && r->Ok_0@ == u,
                None => r is Err && r->Err_0.is_invalid_request(build_failure_reason()),
            },
    {
        let segments = drive_item_segments(&self.drive, item);
        let ghost base = segments.deep_view();
        match tail {
            Some(t) => {
                let segments = push_segment(segments, t);
                url_of(&segments)
            },
            None => {
                assert(base + Seq::<Seq<char>>::empty() =~= base);
                url_of(&segments)
            },
        }
    }

    /// The request getting the `Drive`: its properties and relationships.
    pub fn get_drive_with_option(&self, option: ObjectOption<DriveField>) -> (r: Result<RawRequest>)
        ensures
            yields(r, match api_url_spec(drive_segments(self.drive_spec())) {
                Some(u) => finish_spec(
                    with_bearer(object_applied(new_builder(Method::Get, u), option@), self.token_spec()),
                    BodyView::Empty,
                ),
                None => None,
            }),
    {
        let segments = self.drive.path_segments();
        let url = url_of(&segments)?;
        option.trans(RequestBuilder::new(Method::Get, url)).bearer_auth(self.token.as_str()).empty_body()
    }

    /// The request getting the `Drive` with default options.
    pub fn get_drive(&self) -> (r: Result<RawRequest>)
        ensures
            yields(r, match api_url_spec(drive_segments(self.drive_spec())) {
                Some(u) => finish_spec(
                    with_bearer(
                        object_applied(new_builder(Method::Get, u), crate::option::empty_object_option()),
                        self.token_spec(),
                    ),
                    BodyView::Empty,
                ),
                None => None,
            }),
    {
        self.get_drive_with_option(ObjectOption::new())
    }

    /// The request listing the children of a `DriveItem`.
    ///
    /// Its response carries no page when `if_none_match` is set and matches the item tag.
    pub fn list_children_with_option(&self, item: ItemLocation, option: CollectionOption<DriveItemField>) -> (r: Result<RawRequest>)
        ensures
            yields(r, match self.item_url(item@, seq!["children"@]) {
                Some(u) => finish_spec(
                    with_bearer(collection_applied(new_builder(Method::Get, u), option@), self.token_spec()),
                    BodyView::Empty,
                ),
                None => None,
            }),
    {
        let url = self.item_url_exec(&item, Some("children"))?;
        option.trans(RequestBuilder::new(Method::Get, url)).bearer_auth(self.token.as_str()).empty_body()
    }

    /// The request getting a `DriveItem` by file system path or identifier.
    ///
    /// Its response carries no item when `if_none_match` is set and matches the item tag.
    pub fn get_item_with_option(&self, item: ItemLocation, option: ObjectOption<DriveItemField>) -> (r: Result<RawRequest>)
        ensures
            yields(r, match self.item_url(item@, Seq::empty()) {
                Some(u) => finish_spec(
                    with_bearer(object_applied(new_builder(Method::Get, u), option@), self.token_spec()),
                    BodyView::Empty,
                ),
                None => None,
            }),
    {
        let url = self.item_url_exec(&item, None)?;
        option.trans(RequestBuilder::new(Method::Get, url)).bearer_auth(self.token.as_str()).empty_body()
    }

    /// The request getting a `DriveItem` with default options.
    pub fn get_item(&self, item: ItemLocation) -> (r: Result<RawRequest>)
        ensures
            yields(r, match self.item_url(item@, Seq::empty()) {
                Some(u) => finish_spec(
                    with_bearer(
                        object_applied(new_builder(Method::Get, u), crate::option::empty_object_option()),
                        self.token_spec(),
                    ),
                    BodyView::Empty,
                ),
                None => None,
            }),
    {
        self.get_item_with_option(item, ObjectOption::new())
    }

    /// The request creating a new folder under a parent item.
    ///
    /// The conflict behavior is that of the option, `fail` by default.
    pub fn create_folder_with_option(&self, parent_item: ItemLocation, name: &FileName, option: DriveItemPutOption) -> (r: Result<RawRequest>)
        ensures
            yields(r, match (self.item_url(parent_item@, seq!["children"@]), json_string(name@)) {
                (Some(u), Some(nj)) => finish_spec(
                    with_json(put_applied(with_bearer(new_builder(Method::Post, u), self.token_spec()), option@)),
                    BodyView::Json(folder_body(nj, conflict_or_fail(option@.conflict_behavior))),
                ),
                _ => None,
            }),
    {
        let url = self.item_url_exec(&parent_item, Some("children"))?;
        let name_json = json_of(name.as_str())?;
        let conflict = match option.get_conflict_behavior() {
            Some(b) => b,
            None => ConflictBehavior::Fail,
        };
        let mut body = "{\"name\":".to_owned();
        body.append(name_json.as_str());
        body.append(",\"folder\":{},\"@microsoft.graph.conflictBehavior\":\"");
        body.append(conflict.as_str());
        body.append("\"}");
        proof {
            reveal_strlit("fail");
        }
        assert(body@ =~= folder_body(name_json@, conflict_or_fail(option@.conflict_behavior)));
        option.trans(RequestBuilder::new(Method::Post, url).bearer_auth(self.token.as_str())).json_body(body)
    }

    /// The request creating a new folder with default options.
    pub fn create_folder(&self, parent_item: ItemLocation, name: &FileName) -> (r: Result<RawRequest>)
        ensures
            yields(r, match (self.item_url(parent_item@, seq!["children"@]), json_string(name@)) {
                (Some(u), Some(nj)) => finish_spec(
                    with_json(with_headers(with_bearer(new_builder(Method::Post, u), self.token_spec()), Seq::empty())),
                    BodyView::Json(folder_body(nj, "fail"@)),
                ),
                _ => None,
            }),
    {
        self.create_folder_with_option(parent_item, name, DriveItemPutOption::new())
    }

    /// The request uploading or replacing the contents of a `DriveItem` in one call,
    /// for files up to 4 MB.
    pub fn upload_small(&self, item: ItemLocation, data: &[u8]) -> (r: Result<RawRequest>)
        requires
            data@.len() <= UPLOAD_SMALL_LIMIT,
        ensures
            yields(r, match self.item_url(item@, seq!["content"@]) {
                Some(u) => finish_spec(
                    with_bearer(new_builder(Method::Put, u), self.token_spec()),
                    BodyView::Bytes(data@),
                ),
                None => None,
            }),
    {
        let url = self.item_url_exec(&item, Some("content"))?;
        let bytes = vstd::slice::slice_to_vec(data);
        RequestBuilder::new(Method::Put, url).bearer_auth(self.token.as_str()).bytes_body(bytes)
    }

    /// The request creating an upload session, to upload files up to the maximum file
    /// size in sequential parts.
    ///
    /// The conflict behavior is that of the option, `fail` by default.
    pub fn new_upload_session_with_option(&self, item: ItemLocation, option: DriveItemPutOption) -> (r: Result<RawRequest>)
        ensures
            yields(r, match self.item_url(item@, seq!["createUploadSession"@]) {
                Some(u) => finish_spec(
                    with_json(with_bearer(put_applied(new_builder(Method::Post, u), option@), self.token_spec())),
                    BodyView::Json(upload_session_body(conflict_or_fail(option@.conflict_behavior))),
                ),
                None => None,
            }),
    {
        let url = self.item_url_exec(&item, Some("createUploadSession"))?;
        proof {
            reveal_strlit("fail");
        }
        let conflict = match option.get_conflict_behavior() {
            Some(b) => b,
            None => ConflictBehavior::Fail,
        };
        let mut body = "{\"item\":{\"@microsoft.graph.conflictBehavior\":\"".to_owned();
        body.append(conflict.as_str());
        body.append("\"}}");
        assert(body@ =~= upload_session_body(conflict_or_fail(option@.conflict_behavior)));
        option.trans(RequestBuilder::new(Method::Post, url)).bearer_auth(self.token.as_str()).json_body(body)
    }

    /// The request creating an upload session with default options.
    pub fn new_upload_session(&self, item: ItemLocation) -> (r: Result<RawRequest>)
        ensures
            yields(r, match self.item_url(item@, seq!["createUploadSession"@]) {
                Some(u) => finish_spec(
                    with_json(with_bearer(with_headers(new_builder(Method::Post, u), Seq::empty()), self.token_spec())),
                    BodyView::Json(upload_session_body("fail"@)),
                ),
                None => None,
            }),
    {
        self.new_upload_session_with_option(item, DriveItemPutOption::new())
    }

    /// The request querying an upload session, to find which byte ranges the server is
    /// still missing. It carries no token.
    pub fn get_upload_session(&self, upload_url: &str) -> (r: Result<RawRequest>)
        ensures
            yields(r, finish_spec(new_builder(Method::Get, upload_url@), BodyView::Empty)),
    {
        RequestBuilder::new(Method::Get, upload_url.to_owned()).empty_body()
    }

    /// The request cancelling an upload session. It carries no token.
    pub fn delete_upload_session(&self, sess: &UploadSession) -> (r: Result<RawRequest>)
        ensures
            yields(r, finish_spec(new_builder(Method::Delete, sess.upload_url_spec()), BodyView::Empty)),
    {
        RequestBuilder::new(Method::Delete, sess.upload_url.clone()).empty_body()
    }

    /// The request uploading the bytes of `remote_range` of a file of `total_size` bytes
    /// to an upload session. It carries no token.
    ///
    /// The range must not be empty nor end past the file, `data` must fill it exactly,
    /// and a part holds at most 60 MiB.
    pub fn upload_to_session(
        &self,
        session: &UploadSession,
        data: &[u8],
        remote_range: std::ops::Range<usize>,
        total_size: usize,
    ) -> (r: Result<RawRequest>)
        requires
            remote_range.start < remote_range.end,
            remote_range.end <= total_size,
            data@.len() == remote_range.end - remote_range.start,
            data@.len() <= UPLOAD_SESSION_PART_LIMIT,
        ensures
            yields(r, finish_spec(
                with_header(
                    new_builder(Method::Put, session.upload_url_spec()),
                    "content-range"@,
                    content_range(remote_range.start as nat, remote_range.end as nat, total_size as nat),
                ),
                BodyView::Bytes(data@),
            )),
    {
        let mut range = "bytes ".to_owned();
        push_decimal(&mut range, remote_range.start as u64);
        range.append("-");
        push_decimal(&mut range, (remote_range.end - 1) as u64);
        range.append("/");
        push_decimal(&mut range, total_size as u64);
        assert(range@ =~= content_range(remote_range.start as nat, remote_range.end as nat, total_size as nat));
        let bytes = vstd::slice::slice_to_vec(data);
        RequestBuilder::new(Method::Put, session.upload_url.clone()).header("content-range", range).bytes_body(bytes)
    }

    /// The request copying an item (with any children) under a new parent with a new
    /// name. The copy runs asynchronously on the server.
    pub fn copy(&self, source_item: ItemLocation, dest_folder: ItemLocation, dest_name: &FileName) -> (r: Result<RawRequest>)
        ensures
            yields(r, match (self.item_url(source_item@, seq!["copy"@]), self.item_path(dest_folder@)) {
                (Some(u), Some(p)) => match (json_string(p), json_string(dest_name@)) {
                    (Some(pj), Some(nj)) => finish_spec(
                        with_json(with_bearer(new_builder(Method::Post, u), self.token_spec())),
                        BodyView::Json(copy_body(pj, nj)),
                    ),
                    _ => None,
                },
                _ => None,
            }),
    {
        let url = self.item_url_exec(&source_item, Some("copy"))?;
        let path = match api_path(&drive_item_segments(&self.drive, &dest_folder)) {
            Some(p) => p,
            None => return build_failure(),
        };
        let path_json = json_of(path.as_str())?;
        let name_json = json_of(dest_name.as_str())?;
        let mut body = "{\"parentReference\":{\"path\":".to_owned();
        body.append(path_json.as_str());
        body.append("},\"name\":");
        body.append(name_json.as_str());
        body.append("}");
        assert(body@ =~= copy_body(path_json@, name_json@));
        RequestBuilder::new(Method::Post, url).bearer_auth(self.token.as_str()).json_body(body)
    }

    /// The monitor of a copy, from the headers of its accepted response: the URL in the
    /// first `Location` header.
    pub fn copy_progress_monitor(&self, headers: &Vec<(String, Option<String>)>) -> (r: Result<CopyProgressMonitor<'_>>)
        ensures
            match first_header(headers.deep_view(), "location"@) {
                Some(Some(u)) => r is Ok && r->Ok_0.url_spec() == u && r->Ok_0.token_spec() == self.token_spec(),
                Some(None) => r is Err && r->Err_0.is_unexpected("Invalid string header `Location`"@),
                None => r is Err && r->Err_0.is_unexpected("Header `Location` not exists in response of `copy`"@),
            },
    {
        match find_header(headers, "location") {
            Some(Some(u)) => Ok(CopyProgressMonitor::from_url(self.token.as_str(), u.clone())),
            Some(None) => Err(Error::unexpected_response("Invalid string header `Location`")),
            None => Err(Error::unexpected_response("Header `Location` not exists in response of `copy`")),
        }
    }

    /// The request moving an item to a new folder, optionally with a new name.
    ///
    /// The conflict behavior is that of the option, `fail` by default. Items cannot be
    /// moved between drives.
    pub fn move_with_option(&self, source_item: ItemLocation, dest_folder: ItemLocation, dest_name: Option<&FileName>, option: DriveItemPutOption) -> (r: Result<RawRequest>)
        ensures
            yields(r, match (self.item_url(source_item@, Seq::empty()), self.item_path(dest_folder@)) {
                (Some(u), Some(p)) => match (json_string(p), json_of_option(match dest_name {
                    Some(n) => Some(n@),
                    None => None,
                })) {
                    (Some(pj), Some(nj)) => finish_spec(
                        with_json(put_applied(with_bearer(new_builder(Method::Patch, u), self.token_spec()), option@)),
                        BodyView::Json(move_body(pj, nj, conflict_or_fail(option@.conflict_behavior))),
                    ),
                    _ => None,
                },
                _ => None,
            }),
    {
        let url = self.item_url_exec(&source_item, None)?;
        proof {
            reveal_strlit("null");
            reveal_strlit("fail");
        }
        let path = match api_path(&drive_item_segments(&self.drive, &dest_folder)) {
            Some(p) => p,
            None => return build_failure(),
        };
        let path_json = json_of(path.as_str())?;
        let name_json = match dest_name {
            Some(n) => json_of(n.as_str())?,
            None => "null".to_owned(),
        };
        let conflict = match option.get_conflict_behavior() {
            Some(b) => b,
            None => ConflictBehavior::Fail,
        };
        let mut body = "{\"parentReference\":{\"path\":".to_owned();
        body.append(path_json.as_str());
        body.append("},\"name\":");
        body.append(name_json.as_str());
        body.append(",\"@microsoft.graph.conflictBehavior\":\"");
        body.append(conflict.as_str());
        body.append("\"}");
        assert(body@ =~= move_body(path_json@, name_json@, conflict_or_fail(option@.conflict_behavior)));
        option.trans(RequestBuilder::new(Method::Patch, url).bearer_auth(self.token.as_str())).json_body(body)
    }

    /// The request moving an item with default options.
    pub fn move_(&self, source_item: ItemLocation, dest_folder: ItemLocation, dest_name: Option<&FileName>) -> (r: Result<RawRequest>)
        ensures
            yields(r, match (self.item_url(source_item@, Seq::empty()), self.item_path(dest_folder@)) {
                (Some(u), Some(p)) => match (json_string(p), json_of_option(match dest_name {
                    Some(n) => Some(n@),
                    None => None,
                })) {
                    (Some(pj), Some(nj)) => finish_spec(
                        with_json(with_headers(with_bearer(new_builder(Method::Patch, u), self.token_spec()), Seq::empty())),
                        BodyView::Json(move_body(pj, nj, "fail"@)),
                    ),
                    _ => None,
                },
                _ => None,
            }),
    {
        self.move_with_option(source_item, dest_folder, dest_name, DriveItemPutOption::new())
    }

    /// The request deleting an item: it is moved to the recycle bin.
    ///
    /// A conflict behavior is not supported here.
    pub fn delete_with_option(&self, item: ItemLocation, option: DriveItemPutOption) -> (r: Result<RawRequest>)
        requires
            option@.conflict_behavior is None,
        ensures
            yields(r, match self.item_url(item@, Seq::empty()) {
                Some(u) => finish_spec(
                    put_applied(with_bearer(new_builder(Method::Delete, u), self.token_spec()), option@),
                    BodyView::Empty,
                ),
                None => None,
            }),
    {
        let url = self.item_url_exec(&item, None)?;
        option.trans(RequestBuilder::new(Method::Delete, url).bearer_auth(self.token.as_str())).empty_body()
    }

    /// The request deleting an item with default options.
    pub fn delete(&self, item: ItemLocation) -> (r: Result<RawRequest>)
        ensures
            yields(r, match self.item_url(item@, Seq::empty()) {
                Some(u) => finish_spec(
                    with_headers(with_bearer(new_builder(Method::Delete, u), self.token_spec()), Seq::empty()),
                    BodyView::Empty,
                ),
                None => None,
            }),
    {
        self.delete_with_option(item, DriveItemPutOption::new())
    }

    /// The request tracking changes of a folder from the initial (empty) state to a
    /// snapshot of the current state.
    ///
    /// The Track Changes API does not support `$count`: the option must not request it.
    pub fn track_changes_from_initial_with_option(&self, folder: ItemLocation, option: CollectionOption<DriveItemField>) -> (r: Result<RawRequest>)
        requires
            !option@.get_count,
        ensures
            yields(r, match self.item_url(folder@, seq!["delta"@]) {
                Some(u) => finish_spec(
                    with_bearer(collection_applied(new_builder(Method::Get, u), option@), self.token_spec()),
                    BodyView::Empty,
                ),
                None => None,
            }),
    {
        let url = self.item_url_exec(&folder, Some("delta"))?;
        option.trans(RequestBuilder::new(Method::Get, url)).bearer_auth(self.token.as_str()).empty_body()
    }

    /// The request tracking changes from the initial state with default options.
    pub fn track_changes_from_initial(&self, folder: ItemLocation) -> (r: Result<RawRequest>)
        ensures
            yields(r, match self.item_url(folder@, seq!["delta"@]) {
                Some(u) => finish_spec(
                    with_bearer(
                        collection_applied(new_builder(Method::Get, u), crate::option::empty_collection_option()),
                        self.token_spec(),
                    ),
                    BodyView::Empty,
                ),
                None => None,
            }),
    {
        self.track_changes_from_initial_with_option(folder, CollectionOption::new())
    }

    /// The request tracking changes from a snapshot (delta URL) to the current state.
    pub fn track_changes_from_delta_url(&self, delta_url: &str) -> (r: Result<RawRequest>)
        ensures
            yields(r, finish_spec(with_bearer(new_builder(Method::Get, delta_url@), self.token_spec()), BodyView::Empty)),
    {
        RequestBuilder::new(Method::Get, delta_url.to_owned()).bearer_auth(self.token.as_str()).empty_body()
    }

    /// The request getting a delta URL that represents the snapshot of the current state.
    pub fn get_latest_delta_url(&self, folder: ItemLocation) -> (r: Result<RawRequest>)
        ensures
            yields(r, match self.item_url(folder@, seq!["delta"@]) {
                Some(u) => finish_spec(
                    with_bearer(with_query(new_builder(Method::Get, u), seq![("token"@, "latest"@)]), self.token_spec()),
                    BodyView::Empty,
                ),
                None => None,
            }),
    {
        let url = self.item_url_exec(&folder, Some("delta"))?;
        let q = vec![crate::api::pair("token", "latest")];
        assert(q.deep_view() =~= seq![("token"@, "latest"@)]);
        RequestBuilder::new(Method::Get, url).query(q).bearer_auth(self.token.as_str()).empty_body()
    }
}

/// The monitor for checking the progress of an asynchronous `copy` operation.
#[derive(Debug)]
pub struct CopyProgressMonitor<'t> {
    token: &'t str,
    url: String,
}

/// The status of a `copy` operation.
#[derive(Clone, Copy, Debug, PartialEq, Eq, Structural)]
pub enum CopyStatus {
    NotStarted,
    InProgress,
    Completed,
    Updating,
    Failed,
    DeletePending,
    DeleteFailed,
    Waiting,
}

impl<'t> CopyProgressMonitor<'t> {
    /// The URL of the monitor.
    pub closed spec fn url_spec(&self) -> Seq<char> {
        self.url@
    }

    /// The access token of the monitor.
    pub closed spec fn token_spec(&self) -> Seq<char> {
        self.token@
    }

    /// Make a progress monitor using an existing `url`, as given by `get_url`.
    pub fn from_url(token: &'t str, url: String) -> (r: Self)
        ensures
            r.url_spec() == url@,
            r.token_spec() == token@,
    {
        CopyProgressMonitor { token, url }
    }

    /// Get the url of this monitor.
    pub fn get_url(&self) -> (r: &str)
        ensures
            r@ == self.url_spec(),
    {
        self.url.as_str()
    }

    /// The request fetching the `copy` progress. It carries no token.
    pub fn fetch_progress(&self) -> (r: Result<RawRequest>)
        ensures
            yields(r, finish_spec(new_builder(Method::Get, self.url_spec()), BodyView::Empty)),
    {
        RequestBuilder::new(Method::Get, self.url.clone()).empty_body()
    }
}

/// One page of a collection of items: the items, and the links to the next page and to
/// the snapshot of the tracked state.
#[derive(Debug)]
pub struct DriveItemCollectionResponse<Item> {
    pub value: Option<Vec<Item>>,
    pub next_url: Option<String>,
    pub delta_url: Option<String>,
}

/// What a page holds.
pub struct PageView<Item> {
    pub value: Option<Seq<Item>>,
    pub next_url: Option<Seq<char>>,
    pub delta_url: Option<Seq<char>>,
}

impl<Item> View for DriveItemCollectionResponse<Item> {
    type V = PageView<Item>;

    open spec fn view(&self) -> PageView<Item> {
        PageView {
            value: match self.value {
                Some(v) => Some(v@),
                None => None,
            },
            next_url: self.next_url.deep_view(),
            delta_url: self.delta_url.deep_view(),
        }
    }
}

/// The URL from which a fetcher can be resumed: the next page's, once the cached page
/// has been handed out.
pub open spec fn resumable_url<Item>(p: PageView<Item>) -> Option<Seq<char>> {
    match (p.value, p.next_url) {
        (None, Some(u)) => Some(u),
        _ => None,
    }
}

/// A page that holds only the link to the next page.
pub open spec fn resume_page<Item>(next_url: Seq<char>) -> PageView<Item> {
    PageView { value: None, next_url: Some(next_url), delta_url: None }
}

/// A page whose items have been handed out.
pub open spec fn taken<Item>(p: PageView<Item>) -> PageView<Item> {
    PageView { value: None, ..p }
}

/// The next step of fetching pages.
#[derive(Debug)]
pub enum FetchStep<Item> {
    /// The items of a page.
    Page(Vec<Item>),
    /// There are no more pages.
    Done,
    /// The next page must be requested, and its response handed to `receive_page`.
    Request(RawRequest),
}

/// What the next step of fetching is, from a fetcher's page and token: the cached items,
/// the end, or the request of the next page.
pub open spec fn fetch_step_spec<Item>(r: Result<FetchStep<Item>>, p: PageView<Item>, token: Seq<char>) -> bool {
    match p.value {
        Some(items) => r matches Ok(FetchStep::Page(v)) && v@ == items,
        None => match p.next_url {
            None => r matches Ok(FetchStep::Done),
            Some(u) => match finish_spec(with_bearer(new_builder(Method::Get, u), token), BodyView::Empty) {
                Some(req) => r matches Ok(FetchStep::Request(q)) && q@ == req,
                None => fails_to_build_step(r),
            },
        },
    }
}

/// A step that failed because its request cannot be built.
pub open spec fn fails_to_build_step<Item>(r: Result<FetchStep<Item>>) -> bool {
    r is Err && r->Err_0.is_invalid_request(build_failure_reason())
}

/// Resuming from a URL makes that URL the one to resume from again.
pub proof fn lemma_resume_round_trip<Item>(next_url: Seq<char>)
    ensures
        resumable_url(resume_page::<Item>(next_url)) == Some(next_url),
{
}

/// While a page is cached there is no URL to resume from: its items would be lost.
pub proof fn lemma_cached_page_not_resumable<Item>(p: PageView<Item>)
    requires
        p.value is Some,
    ensures
        resumable_url(p) is None,
{
}

/// The items of a page are handed out once: the step after them never hands them out
/// again.
pub proof fn lemma_page_handed_out_once<Item>(r: Result<FetchStep<Item>>, p: PageView<Item>, token: Seq<char>)
    requires
        fetch_step_spec(r, taken(p), token),
    ensures
        !(r matches Ok(FetchStep::Page(_))),
{
}

/// Once the items of a received page are handed out, fetching resumes from its next link.
pub proof fn lemma_received_page_resumes<Item>(p: PageView<Item>)
    ensures
        resumable_url(taken(p)) == p.next_url,
{
}

/// The items a page holds: none when it holds none.
pub open spec fn page_items<Item>(p: PageView<Item>) -> Seq<Item> {
    match p.value {
        Some(v) => v,
        None => Seq::empty(),
    }
}

/// The items of pages, in order.
pub open spec fn concat_items<Item>(pages: Seq<PageView<Item>>) -> Seq<Item>
    decreases pages.len(),
{
    if pages.len() == 0 {
        Seq::empty()
    } else {
        page_items(pages[0]) + concat_items(pages.drop_first())
    }
}

/// What a run of fetching gives: the items handed out, in order; the URLs of the pages
/// requested, in order; the page the fetcher holds at the end; and whether the run
/// reached `Done`.
pub struct RunView<Item> {
    pub items: Seq<Item>,
    pub requested: Seq<Seq<char>>,
    pub last: PageView<Item>,
    pub done: bool,
}

/// The run of a fetcher that holds the page `p` and calls `fetch_next_page` until it
/// gives `Done`, handing the answer to each request, taken in order from `replies`, to
/// `receive_page`: each step as those two functions state it. The run stops, not done,
/// when a request finds no reply left.
pub open spec fn fetch_run<Item>(p: PageView<Item>, replies: Seq<PageView<Item>>) -> RunView<Item>
    decreases replies.len(), if p.value is Some { 1int } else { 0int },
{
    match p.value {
        Some(v) => {
            let r = fetch_run(taken(p), replies);
            RunView { items: v + r.items, ..r }
        },
        None => match p.next_url {
            None => RunView { items: Seq::empty(), requested: Seq::empty(), last: p, done: true },
            Some(u) => if replies.len() == 0 {
                RunView { items: Seq::empty(), requested: Seq::empty(), last: p, done: false }
            } else {
                let r = fetch_run(taken(replies[0]), replies.drop_first());
                RunView { items: page_items(replies[0]) + r.items, requested: seq![u] + r.requested, ..r }
            },
        },
    }
}

/// The page before reply `i` of a run from `p`: `p` itself for the first reply.
pub open spec fn page_before<Item>(p: PageView<Item>, replies: Seq<PageView<Item>>, i: int) -> PageView<Item> {
    if i == 0 {
        p
    } else {
        replies[i - 1]
    }
}

/// The last page of a run from `p`: the last reply, or `p` when there is none.
pub open spec fn last_page<Item>(p: PageView<Item>, replies: Seq<PageView<Item>>) -> PageView<Item> {
    if replies.len() == 0 {
        p
    } else {
        replies.last()
    }
}

/// Whether a run from `p` with `replies` reaches `Done` and uses every reply.
pub open spec fn complete_run<Item>(p: PageView<Item>, replies: Seq<PageView<Item>>) -> bool {
    fetch_run(p, replies).done && fetch_run(p, replies).requested.len() == replies.len()
}

/// A complete fetching run hands out the items of all its pages, in order: those of the
/// page it started from, then those of each page received. Each page is requested by the
/// next link of the page before it. The run ends holding the last page with its items
/// handed out and without a next link, so that there is no URL to resume from, and every
/// further step is `Done`; its delta link is the last page's.
pub proof fn lemma_complete_run<Item>(p: PageView<Item>, replies: Seq<PageView<Item>>)
    requires
        complete_run(p, replies),
    ensures
        fetch_run(p, replies).items == page_items(p) + concat_items(replies),
        forall|i: int|
            0 <= i < replies.len() ==> page_before(p, replies, i).next_url == Some(
                #[trigger] fetch_run(p, replies).requested[i],
            ),
        fetch_run(p, replies).last == taken(last_page(p, replies)),
        fetch_run(p, replies).last.next_url is None,
        fetch_run(p, replies).last.delta_url == last_page(p, replies).delta_url,
        resumable_url(fetch_run(p, replies).last) is None,
        taken(fetch_run(p, replies).last) == fetch_run(p, replies).last,
    decreases replies.len(), if p.value is Some { 1int } else { 0int },
{
    let r = fetch_run(p, replies);
    match p.value {
        Some(v) => {
            lemma_complete_run(taken(p), replies);
            assert(page_items(taken(p)) =~= Seq::<Item>::empty());
            assert(v + (Seq::<Item>::empty() + concat_items(replies)) =~= page_items(p) + concat_items(replies));
            assert forall|i: int| 0 <= i < replies.len() implies page_before(p, replies, i).next_url == Some(
                #[trigger] r.requested[i],
            ) by {
                assert(page_before(p, replies, i).next_url == page_before(taken(p), replies, i).next_url);
            }
        },
        None => match p.next_url {
            None => {
                assert(replies.len() == 0);
                assert(concat_items(replies) =~= Seq::<Item>::empty());
                assert(r.items =~= page_items(p) + concat_items(replies));
            },
            Some(u) => {
                let q = replies[0];
                let rest = replies.drop_first();
                lemma_complete_run(taken(q), rest);
                let rr = fetch_run(taken(q), rest);
                assert(page_items(taken(q)) =~= Seq::<Item>::empty());
                assert(r.items =~= page_items(p) + concat_items(replies));
                assert forall|i: int| 0 <= i < replies.len() implies page_before(p, replies, i).next_url == Some(
                    #[trigger] r.requested[i],
                ) by {
                    if i > 0 {
                        assert(r.requested[i] == rr.requested[i - 1]);
                        if i == 1 {
                            assert(page_before(taken(q), rest, 0).next_url == q.next_url);
                        } else {
                            assert(page_before(taken(q), rest, i - 1) == rest[i - 2]);
                        }
                    }
                }
                if rest.len() > 0 {
                    assert(last_page(taken(q), rest) == replies.last());
                }
            },
        },
    }
}

/// The fetching state shared by listings and change tracking.
#[derive(Debug)]
struct DriveItemFetcher<'t, Item> {
    token: &'t str,
    last_response: DriveItemCollectionResponse<Item>,
}

impl<'t, Item> DriveItemFetcher<'t, Item> {
    fn new(token: &'t str, first_response: DriveItemCollectionResponse<Item>) -> (r: Self)
        ensures
            r.token@ == token@,
            r.last_response@ == first_response@,
    {
        DriveItemFetcher { token, last_response: first_response }
    }

    fn resume_from(token: &'t str, next_url: String) -> (r: Self)
        ensures
            r.token@ == token@,
            r.last_response@ == resume_page::<Item>(next_url@),
    {
        Self::new(token, DriveItemCollectionResponse { value: None, next_url: Some(next_url), delta_url: None })
    }

    fn get_next_url(&self) -> (r: Option<&str>)
        ensures
            (match r {
                Some(s) => Some(s@),
                None => None,
            }) == resumable_url(self.last_response@),
    {
        // No URL for the first page: its items would be lost when resumed.
        match &self.last_response.value {
            None => match &self.last_response.next_url {
                Some(u) => Some(u.as_str()),
                None => None,
            },
            Some(_) => None,
        }
    }

    fn get_delta_url(&self) -> (r: Option<&str>)
        ensures
            (match r {
                Some(s) => Some(s@),
                None => None,
            }) == self.last_response@.delta_url,
    {
        match &self.last_response.delta_url {
            Some(u) => Some(u.as_str()),
            None => None,
        }
    }

    fn fetch_next_page(&mut self) -> (r: Result<FetchStep<Item>>)
        ensures
            fetch_step_spec(r, old(self).last_response@, old(self).token@),
            final(self).token == old(self).token,
            final(self).last_response@ == taken(old(self).last_response@),
    {
        let items = self.last_response.value.take();
        match items {
            Some(items) => {
                assert(self.last_response@ =~= taken(old(self).last_response@));
                Ok(FetchStep::Page(items))
            },
            None => {
                assert(self.last_response@ =~= taken(old(self).last_response@));
                match &self.last_response.next_url {
                    None => Ok(FetchStep::Done),
                    Some(url) => {
                        match RequestBuilder::new(Method::Get, url.clone()).bearer_auth(self.token).empty_body() {
                            Ok(req) => Ok(FetchStep::Request(req)),
                            Err(e) => Err(e),
                        }
                    },
                }
            },
        }
    }

    fn receive_page(&mut self, page: DriveItemCollectionResponse<Item>) -> (r: Vec<Item>)
        ensures
            r@ == (match page@.value {
                Some(v) => v,
                None => Seq::empty(),
            }),
            final(self).token == old(self).token,
            final(self).last_response@ == taken(page@),
    {
        let ghost p = page@;
        let DriveItemCollectionResponse { value, next_url, delta_url } = page;
        self.last_response = DriveItemCollectionResponse { value: None, next_url, delta_url };
        assert(self.last_response@ =~= taken(p));
        match value {
            Some(v) => v,
            None => Vec::new(),
        }
    }
}

/// The page fetcher for children listing operation.
#[derive(Debug)]
pub struct ListChildrenFetcher<'t, Item> {
    fetcher: DriveItemFetcher<'t, Item>,
}

impl<'t, Item> ListChildrenFetcher<'t, Item> {
    /// The page held by the fetcher.
    pub closed spec fn page(&self) -> PageView<Item> {
        self.fetcher.last_response@
    }

    /// The token of the fetcher.
    pub closed spec fn token_spec(&self) -> Seq<char> {
        self.fetcher.token@
    }

    /// A fetcher from the first page of a listing.
    pub fn new(token: &'t str, first_response: DriveItemCollectionResponse<Item>) -> (r: Self)
        ensures
            r.token_spec() == token@,
            r.page() == first_response@,
    {
        ListChildrenFetcher { fetcher: DriveItemFetcher::new(token, first_response) }
    }

    /// Resume a fetching process from a URL given by `get_next_url`.
    pub fn resume_from(token: &'t str, next_url: String) -> (r: Self)
        ensures
            r.token_spec() == token@,
            r.page() == resume_page::<Item>(next_url@),
    {
        ListChildrenFetcher { fetcher: DriveItemFetcher::resume_from(token, next_url) }
    }

    /// Try to get the url to the next page, used for resuming the fetching progress.
    ///
    /// Succeeds only if there are more pages and the first page is already read: the
    /// first page is cached and has no URL to fetch it again.
    pub fn get_next_url(&self) -> (r: Option<&str>)
        ensures
            (match r {
                Some(s) => Some(s@),
                None => None,
            }) == resumable_url(self.page()),
    {
        self.fetcher.get_next_url()
    }

    /// The next step: the cached page, the end, or the request of the next page.
    pub fn fetch_next_page(&mut self) -> (r: Result<FetchStep<Item>>)
        ensures
            fetch_step_spec(r, old(self).page(), old(self).token_spec()),
            final(self).token_spec() == old(self).token_spec(),
            final(self).page() == taken(old(self).page()),
    {
        self.fetcher.fetch_next_page()
    }

    /// Take in the response to the request of the next page, and hand out its items.
    pub fn receive_page(&mut self, page: DriveItemCollectionResponse<Item>) -> (r: Vec<Item>)
        ensures
            r@ == (match page@.value {
                Some(v) => v,
                None => Seq::empty(),
            }),
            final(self).token_spec() == old(self).token_spec(),
            final(self).page() == taken(page@),
    {
        self.fetcher.receive_page(page)
    }
}

/// The page fetcher for tracking operations.
#[derive(Debug)]
pub struct TrackChangeFetcher<'t, Item> {
    fetcher: DriveItemFetcher<'t, Item>,
}

/// The reason given when the last page of a tracking has no delta link.
pub open spec fn missing_delta_reason() -> Seq<char> {
    "Missing `@odata.deltaLink` for the last page"@
}

impl<'t, Item> TrackChangeFetcher<'t, Item> {
    /// The page held by the fetcher.
    pub closed spec fn page(&self) -> PageView<Item> {
        self.fetcher.last_response@
    }

    /// The token of the fetcher.
    pub closed spec fn token_spec(&self) -> Seq<char> {
        self.fetcher.token@
    }

    /// A fetcher from the first page of a tracking.
    pub fn new(token: &'t str, first_response: DriveItemCollectionResponse<Item>) -> (r: Self)
        ensures
            r.token_spec() == token@,
            r.page() == first_response@,
    {
        TrackChangeFetcher { fetcher: DriveItemFetcher::new(token, first_response) }
    }

    /// Resume a fetching process from a URL given by `get_next_url`.
    pub fn resume_from(token: &'t str, next_url: String) -> (r: Self)
        ensures
            r.token_spec() == token@,
            r.page() == resume_page::<Item>(next_url@),
    {
        TrackChangeFetcher { fetcher: DriveItemFetcher::resume_from(token, next_url) }
    }

    /// Try to get the url to the next page, used for resuming the fetching progress.
    ///
    /// Succeeds only if there are more pages and the first page is already read.
    pub fn get_next_url(&self) -> (r: Option<&str>)
        ensures
            (match r {
                Some(s) => Some(s@),
                None => None,
            }) == resumable_url(self.page()),
    {
        self.fetcher.get_next_url()
    }

    /// Try to get the delta url representing a snapshot of the current tracking, to
    /// track changes from this snapshot later. Succeeds only when there are no more pages.
    pub fn get_delta_url(&self) -> (r: Option<&str>)
        ensures
            (match r {
                Some(s) => Some(s@),
                None => None,
            }) == self.page().delta_url,
    {
        self.fetcher.get_delta_url()
    }

    /// The next step: the cached page, the end, or the request of the next page.
    pub fn fetch_next_page(&mut self) -> (r: Result<FetchStep<Item>>)
        ensures
            fetch_step_spec(r, old(self).page(), old(self).token_spec()),
            final(self).token_spec() == old(self).token_spec(),
            final(self).page() == taken(old(self).page()),
    {
        self.fetcher.fetch_next_page()
    }

    /// Take in the response to the request of the next page, and hand out its items.
    pub fn receive_page(&mut self, page: DriveItemCollectionResponse<Item>) -> (r: Vec<Item>)
        ensures
            r@ == (match page@.value {
                Some(v) => v,
                None => Seq::empty(),
            }),
            final(self).token_spec() == old(self).token_spec(),
            final(self).page() == taken(page@),
    {
        self.fetcher.receive_page(page)
    }

    /// The delta URL at the end of fetching all pages: an error when the last page has
    /// none.
    pub fn final_delta_url(&self) -> (r: Result<String>)
        ensures
            match self.page().delta_url {
                Some(u) => r is Ok && r->Ok_0@ == u,
                None => r is Err && r->Err_0.is_unexpected(missing_delta_reason()),
            },
    {
        match self.fetcher.get_delta_url() {
            Some(u) => Ok(u.to_owned()),
            None => {
                proof {
                    reveal_strlit("Missing `@odata.deltaLink` for the last page");
                }
                Err(Error::unexpected_response("Missing `@odata.deltaLink` for the last page"))
            },
        }
    }
}

/// The reason given when a response of the latest delta has no delta link.
pub open spec fn missing_latest_delta_reason() -> Seq<char> {
    "Missing field `@odata.deltaLink` for getting latest delta"@
}

/// The delta URL of the response to `get_latest_delta_url`: an error when it has none.
pub fn latest_delta_url<Item>(resp: DriveItemCollectionResponse<Item>) -> (r: Result<String>)
    ensures
        match resp@.delta_url {
            Some(u) => r is Ok && r->Ok_0@ == u,
            None => r is Err && r->Err_0.is_unexpected(missing_latest_delta_reason()),
        },
{
    match resp.delta_url {
        Some(u) => Ok(u),
        None => {
            proof {
                reveal_strlit("Missing field `@odata.deltaLink` for getting latest delta");
            }
            Err(Error::unexpected_response("Missing field `@odata.deltaLink` for getting latest delta"))
        },
    }
}

/// An upload session for resumable file uploading process.
#[derive(Debug)]
pub struct UploadSession {
    upload_url: String,
    next_expected_ranges: Vec<ExpectRange>,
    expiration_date_time: String,
}

/// The reason given when an expected range of an upload session is not well written.
pub open spec fn invalid_range_reason() -> Seq<char> {
    "Invalid `nextExpectedRanges`"@
}

impl UploadSession {
    /// The URL endpoint accepting PUT requests.
    pub closed spec fn upload_url_spec(&self) -> Seq<char> {
        self.upload_url@
    }

    /// The byte ranges that the server is missing.
    pub closed spec fn ranges_spec(&self) -> Seq<ExpectRange> {
        self.next_expected_ranges@
    }

    /// The date and time in UTC when the session expires.
    pub closed spec fn expiration_spec(&self) -> Seq<char> {
        self.expiration_date_time@
    }

    /// The session described by a response: its URL, the expected ranges as the server
    /// writes them, and the expiration time. An error when a range is not well written.
    pub fn from_parts(upload_url: String, next_expected_ranges: &Vec<String>, expiration_date_time: String) -> (r: Result<UploadSession>)
        ensures
            (forall|i: int| 0 <= i < next_expected_ranges@.len() ==> (#[trigger] crate::util::parse_expect_range_spec(next_expected_ranges@[i]@)) is Some) ==> r is Ok
                && r->Ok_0.upload_url_spec() == upload_url@ && r->Ok_0.expiration_spec() == expiration_date_time@
                && r->Ok_0.ranges_spec().len() == next_expected_ranges@.len() && (forall|i: int| 0 <= i < next_expected_ranges@.len()
                ==> Some(#[trigger] r->Ok_0.ranges_spec()[i]) == crate::util::parse_expect_range_spec(next_expected_ranges@[i]@)),
            !(forall|i: int| 0 <= i < next_expected_ranges@.len() ==> (#[trigger] crate::util::parse_expect_range_spec(next_expected_ranges@[i]@)) is Some) ==> r is Err
                && r->Err_0.is_unexpected(invalid_range_reason()),
    {
        let mut ranges: Vec<ExpectRange> = Vec::new();
        let mut i: usize = 0;
        while i < next_expected_ranges.len()
            invariant
                i <= next_expected_ranges@.len(),
                ranges@.len() == i,
                forall|j: int| 0 <= j < i ==> (#[trigger] crate::util::parse_expect_range_spec(next_expected_ranges@[j]@)) == Some(ranges@[j]),
            decreases next_expected_ranges@.len() - i,
        {
            match ExpectRange::parse(next_expected_ranges[i].as_str()) {
                Some(r) => ranges.push(r),
                None => {
                    proof {
                        reveal_strlit("Invalid `nextExpectedRanges`");
                    }
                    return Err(Error::unexpected_response("Invalid `nextExpectedRanges`"));
                },
            }
            i = i + 1;
        }
        Ok(UploadSession { upload_url, next_expected_ranges: ranges, expiration_date_time })
    }

    /// The URL endpoint accepting PUT requests.
    pub fn get_url(&self) -> (r: &str)
        ensures
            r@ == self.upload_url_spec(),
    {
        self.upload_url.as_str()
    }

    /// Get the byte ranges that the server is missing for the file, to determine what to
    /// upload when resuming a session.
    pub fn get_next_expected_ranges(&self) -> (r: &[ExpectRange])
        ensures
            r@ == self.ranges_spec(),
    {
        self.next_expected_ranges.as_slice()
    }

    /// Get the date and time in UTC when the upload session will expire.
    pub fn get_expiration_date_time(&self) -> (r: &String)
        ensures
            r@ == self.expiration_spec(),
    {
        &self.expiration_date_time
    }
}

} // verus!
