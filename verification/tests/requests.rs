use onedrive_api::api::{Method, RawRequest, RequestBody};
use onedrive_api::client::{
    latest_delta_url, DriveClient, DriveItemCollectionResponse, FetchStep, ListChildrenFetcher,
    TrackChangeFetcher, UploadSession,
};
use onedrive_api::option::{CollectionOption, DriveItemPutOption, ObjectOption};
use onedrive_api::resource::{DriveId, DriveItemField, ItemId, Tag};
use onedrive_api::util::{ConflictBehavior, DriveLocation, ExpectRange, FileName, ItemLocation};

fn pairs(v: &[(&str, &str)]) -> Vec<(String, String)> {
    v.iter().map(|(a, b)| (a.to_string(), b.to_string())).collect()
}

fn client() -> DriveClient {
    DriveClient::new("tok".to_owned(), DriveLocation::me())
}

fn json(req: &RawRequest) -> &str {
    match &req.body {
        RequestBody::Json(s) => s.as_str(),
        other => panic!("not a JSON body: {:?}", other),
    }
}

#[test]
fn get_drive_of_a_drive_id() {
    let c = DriveClient::new("tok".to_owned(), DriveLocation::from_id(DriveId::new("b!x".to_owned())));
    assert_eq!(c.token(), "tok");
    let req = c.get_drive().unwrap();
    assert_eq!(req.method, Method::Get);
    assert_eq!(req.url, "https://graph.microsoft.com/v1.0/drives/b!x");
    assert_eq!(req.headers, pairs(&[("authorization", "Bearer tok")]));
    assert!(matches!(req.body, RequestBody::Empty));
}

#[test]
fn drive_locations() {
    let user = DriveLocation::from_user("me@example.com".to_owned());
    assert_eq!(user.path_segments(), vec!["users", "me@example.com", "drive"]);
    assert_eq!(DriveLocation::from_group("g".to_owned()).path_segments(), vec!["groups", "g", "drive"]);
    assert_eq!(DriveLocation::from_site("s".to_owned()).path_segments(), vec!["sites", "s", "drive"]);
}

#[test]
fn item_locations() {
    let id = ItemId::new("01AB".to_owned());
    let name = FileName::new("child.txt").unwrap();
    assert_eq!(ItemLocation::root().path_segments(), vec!["root"]);
    assert_eq!(ItemLocation::from_id(&id).path_segments(), vec!["items", "01AB"]);
    assert_eq!(
        ItemLocation::child_of_id(&id, &name).path_segments(),
        vec!["items", "01AB", "children", "child.txt"],
    );
    assert_eq!(ItemLocation::from_path("/a/b/").unwrap().path_segments(), vec!["root:/a/b/:"]);
}

#[test]
fn get_item_with_option_request() {
    let req = client()
        .get_item_with_option(
            ItemLocation::from_path("/a b").unwrap(),
            ObjectOption::new()
                .if_none_match(&Tag("tag".to_owned()))
                .select(&[DriveItemField::id, DriveItemField::e_tag]),
        )
        .unwrap();
    assert_eq!(req.url, "https://graph.microsoft.com/v1.0/drive/root:%2Fa%20b:?%24select=id%2CeTag");
    assert_eq!(req.headers, pairs(&[("if-none-match", "tag"), ("authorization", "Bearer tok")]));
}

#[test]
fn list_children_and_tracking_requests() {
    let c = client();
    let req = c
        .list_children_with_option(ItemLocation::root(), CollectionOption::new().page_size(2))
        .unwrap();
    assert_eq!(req.url, "https://graph.microsoft.com/v1.0/drive/root/children?%24top=2");
    let req = c.track_changes_from_initial(ItemLocation::root()).unwrap();
    assert_eq!(req.url, "https://graph.microsoft.com/v1.0/drive/root/delta");
    let req = c.get_latest_delta_url(ItemLocation::root()).unwrap();
    assert_eq!(req.url, "https://graph.microsoft.com/v1.0/drive/root/delta?token=latest");
    let req = c.track_changes_from_delta_url("https://d.example/delta?x=1").unwrap();
    assert_eq!(req.url, "https://d.example/delta?x=1");
    assert_eq!(req.headers, pairs(&[("authorization", "Bearer tok")]));
}

#[test]
fn create_folder_request() {
    let name = FileName::new("new\nfolder").unwrap();
    let req = client().create_folder(ItemLocation::root(), &name).unwrap();
    assert_eq!(req.method, Method::Post);
    assert_eq!(req.url, "https://graph.microsoft.com/v1.0/drive/root/children");
    assert_eq!(
        req.headers,
        pairs(&[("authorization", "Bearer tok"), ("content-type", "application/json")]),
    );
    assert_eq!(
        json(&req),
        "{\"name\":\"new\\nfolder\",\"folder\":{},\"@microsoft.graph.conflictBehavior\":\"fail\"}",
    );
    let req = client()
        .create_folder_with_option(
            ItemLocation::root(),
            &name,
            DriveItemPutOption::new().conflict_behavior(ConflictBehavior::Replace),
        )
        .unwrap();
    assert!(json(&req).ends_with("\"@microsoft.graph.conflictBehavior\":\"replace\"}"));
}
#[test]
fn default_option_requests() {
    let c = client();
    let id = ItemId::new("01AB".to_owned());
    let req = c.get_item(ItemLocation::from_id(&id)).unwrap();
    assert_eq!(req.method, Method::Get);
    assert_eq!(req.url, "https://graph.microsoft.com/v1.0/drive/items/01AB");
    assert_eq!(req.headers, pairs(&[("authorization", "Bearer tok")]));

    let req = c.new_upload_session(ItemLocation::from_id(&id)).unwrap();
    assert_eq!(req.method, Method::Post);
    assert_eq!(req.url, "https://graph.microsoft.com/v1.0/drive/items/01AB/createUploadSession");
    assert_eq!(req.headers, pairs(&[("authorization", "Bearer tok"), ("content-type", "application/json")]));
    assert_eq!(json(&req), "{\"item\":{\"@microsoft.graph.conflictBehavior\":\"fail\"}}");
}

#[test]
fn upload_requests() {
    let c = client();
    let req = c.upload_small(ItemLocation::from_path("/f.txt").unwrap(), b"hello").unwrap();
    assert_eq!(req.method, Method::Put);
    assert_eq!(req.url, "https://graph.microsoft.com/v1.0/drive/root:%2Ff.txt:/content");
    assert!(matches!(&req.body, RequestBody::Bytes(b) if b == b"hello"));

    let req = c
        .new_upload_session_with_option(
            ItemLocation::from_path("/f.txt").unwrap(),
            DriveItemPutOption::new().if_match(&Tag("e".to_owned())),
        )
        .unwrap();
    assert_eq!(req.url, "https://graph.microsoft.com/v1.0/drive/root:%2Ff.txt:/createUploadSession");
    assert_eq!(
        req.headers,
        pairs(&[("if-match", "e"), ("authorization", "Bearer tok"), ("content-type", "application/json")]),
    );
    assert_eq!(json(&req), "{\"item\":{\"@microsoft.graph.conflictBehavior\":\"fail\"}}");

    let session = UploadSession::from_parts(
        "https://up.example/s".to_owned(),
        &vec!["4-5".to_owned(), "8-".to_owned()],
        "2030-01-01T00:00:00Z".to_owned(),
    )
    .unwrap();
    assert_eq!(session.get_url(), "https://up.example/s");
    assert_eq!(
        session.get_next_expected_ranges(),
        &[ExpectRange { start: 4, end: Some(6) }, ExpectRange { start: 8, end: None }][..],
    );
    assert_eq!(session.get_expiration_date_time(), "2030-01-01T00:00:00Z");
    assert!(UploadSession::from_parts("u".to_owned(), &vec!["x".to_owned()], "t".to_owned()).is_err());

    let req = c.upload_to_session(&session, b"56", 4..6, 6).unwrap();
    assert_eq!(req.url, "https://up.example/s");
    assert_eq!(req.headers, pairs(&[("content-range", "bytes 4-5/6")]));

    let req = c.get_upload_session("https://up.example/s").unwrap();
    assert!(req.headers.is_empty());
    let req = c.delete_upload_session(&session).unwrap();
    assert_eq!(req.method, Method::Delete);
}

#[test]
fn copy_move_delete_requests() {
    let c = client();
    let id = ItemId::new("SRC".to_owned());
    let name = FileName::new("copy.txt").unwrap();
    let req = c.copy(ItemLocation::from_id(&id), ItemLocation::from_path("/dir").unwrap(), &name).unwrap();
    assert_eq!(req.url, "https://graph.microsoft.com/v1.0/drive/items/SRC/copy");
    assert_eq!(json(&req), "{\"parentReference\":{\"path\":\"/drive/root:%2Fdir:\"},\"name\":\"copy.txt\"}");

    let req = c.move_(ItemLocation::from_id(&id), ItemLocation::root(), None).unwrap();
    assert_eq!(req.method, Method::Patch);
    assert_eq!(
        json(&req),
        "{\"parentReference\":{\"path\":\"/drive/root\"},\"name\":null,\"@microsoft.graph.conflictBehavior\":\"fail\"}",
    );

    let req = c
        .delete_with_option(ItemLocation::from_id(&id), DriveItemPutOption::new().if_match(&Tag("e".to_owned())))
        .unwrap();
    assert_eq!(req.method, Method::Delete);
    assert_eq!(req.url, "https://graph.microsoft.com/v1.0/drive/items/SRC");
    assert_eq!(req.headers, pairs(&[("authorization", "Bearer tok"), ("if-match", "e")]));

    let headers = vec![("location".to_owned(), Some("https://mon.example/1".to_owned()))];
    let monitor = c.copy_progress_monitor(&headers).unwrap();
    assert_eq!(monitor.get_url(), "https://mon.example/1");
    assert_eq!(monitor.fetch_progress().unwrap().url, "https://mon.example/1");
    assert!(c.copy_progress_monitor(&vec![]).is_err());
    assert!(c.copy_progress_monitor(&vec![("location".to_owned(), None)]).is_err());
}

fn page(items: Option<Vec<u32>>, next: Option<&str>, delta: Option<&str>) -> DriveItemCollectionResponse<u32> {
    DriveItemCollectionResponse {
        value: items,
        next_url: next.map(str::to_owned),
        delta_url: delta.map(str::to_owned),
    }
}

#[test]
fn list_children_fetcher_steps() {
    let mut f = ListChildrenFetcher::new("tok", page(Some(vec![1, 2]), Some("https://n/2"), None));
    assert_eq!(f.get_next_url(), None);
    match f.fetch_next_page().unwrap() {
        FetchStep::Page(items) => assert_eq!(items, vec![1, 2]),
        _ => panic!("expected the cached page"),
    }
    assert_eq!(f.get_next_url(), Some("https://n/2"));
    match f.fetch_next_page().unwrap() {
        FetchStep::Request(req) => {
            assert_eq!(req.url, "https://n/2");
            assert_eq!(req.headers, pairs(&[("authorization", "Bearer tok")]));
        },
        _ => panic!("expected a request"),
    }
    assert_eq!(f.receive_page(page(Some(vec![3]), None, None)), vec![3]);
    assert_eq!(f.get_next_url(), None);
    assert!(matches!(f.fetch_next_page().unwrap(), FetchStep::Done));

    let resumed = ListChildrenFetcher::<u32>::resume_from("tok", "https://n/9".to_owned());
    assert_eq!(resumed.get_next_url(), Some("https://n/9"));
}

#[test]
fn track_change_fetcher_delta() {
    let mut f = TrackChangeFetcher::new("tok", page(Some(vec![]), None, Some("https://d/1")));
    assert_eq!(f.get_delta_url(), Some("https://d/1"));
    assert!(matches!(f.fetch_next_page().unwrap(), FetchStep::Page(v) if v.is_empty()));
    assert!(matches!(f.fetch_next_page().unwrap(), FetchStep::Done));
    assert_eq!(f.final_delta_url().unwrap(), "https://d/1");

    let f = TrackChangeFetcher::<u32>::resume_from("tok", "https://n/3".to_owned());
    assert_eq!(f.get_next_url(), Some("https://n/3"));
    assert!(f.final_delta_url().is_err());

    assert_eq!(latest_delta_url(page(None, None, Some("https://d/2"))).unwrap(), "https://d/2");
    assert!(latest_delta_url(page(None, None, None)).is_err());
}

/// Drives a tracking fetcher to `Done`, answering each request with the next reply.
fn run_to_end(f: &mut TrackChangeFetcher<'_, u32>, replies: Vec<DriveItemCollectionResponse<u32>>) -> (Vec<u32>, Vec<String>) {
    let mut replies = replies.into_iter();
    let mut items = vec![];
    let mut requested = vec![];
    loop {
        match f.fetch_next_page().unwrap() {
            FetchStep::Page(v) => items.extend(v),
            FetchStep::Done => break,
            FetchStep::Request(req) => {
                requested.push(req.url.clone());
                items.extend(f.receive_page(replies.next().expect("a reply for each request")));
            },
        }
    }
    assert!(replies.next().is_none());
    (items, requested)
}

#[test]
fn complete_run_concatenates_pages_and_ends_in_last_delta() {
    let mut f = TrackChangeFetcher::new("tok", page(Some(vec![1]), Some("https://n/2"), None));
    assert_eq!(f.get_next_url(), None);
    assert_eq!(f.get_delta_url(), None);
    let (items, requested) = run_to_end(
        &mut f,
        vec![page(Some(vec![2, 3]), Some("https://n/3"), None), page(None, None, Some("https://d/end"))],
    );
    assert_eq!(items, vec![1, 2, 3]);
    assert_eq!(requested, vec!["https://n/2", "https://n/3"]);
    assert_eq!(f.get_next_url(), None);
    assert_eq!(f.get_delta_url(), Some("https://d/end"));
    assert_eq!(f.final_delta_url().unwrap(), "https://d/end");
    assert!(matches!(f.fetch_next_page().unwrap(), FetchStep::Done));
    assert!(matches!(f.fetch_next_page().unwrap(), FetchStep::Done));
}

#[test]
fn folder_name_json_escapes() {
    let name = FileName::new("a\u{1}\tb\u{1f}é\u{7f}").unwrap();
    let req = client().create_folder(ItemLocation::root(), &name).unwrap();
    assert_eq!(
        json(&req),
        "{\"name\":\"a\\u0001\\tb\\u001fé\u{7f}\",\"folder\":{},\"@microsoft.graph.conflictBehavior\":\"fail\"}",
    );
}
