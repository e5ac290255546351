use onedrive_api::api::{Method, RequestBuilder};
use onedrive_api::option::{CollectionOption, DriveItemPutOption, ObjectOption, Order};
use onedrive_api::query_option;
use onedrive_api::resource::{DriveField, DriveItemField, Tag};
use onedrive_api::util::ConflictBehavior;

fn pairs(v: &[(&str, &str)]) -> Vec<(String, String)> {
    v.iter().map(|(a, b)| (a.to_string(), b.to_string())).collect()
}

fn builder() -> RequestBuilder {
    RequestBuilder::new(Method::Get, "https://example.com/x".to_owned())
}

#[test]
fn object_option_select_expand_and_tags() {
    let opt = ObjectOption::new()
        .if_match(&Tag("etag1".to_owned()))
        .if_none_match(&Tag("etag2".to_owned()))
        .select(&[DriveItemField::id, DriveItemField::e_tag])
        .select(&[DriveItemField::size])
        .expand(DriveItemField::children, Some(&["name", "size"]))
        .expand(DriveItemField::thumbnails, None);
    let b = opt.trans(builder());
    assert_eq!(
        b.query,
        pairs(&[("$select", "id,eTag,size"), ("$expand", "children($select=name,size,),thumbnails")]),
    );
    assert_eq!(b.headers, pairs(&[("if-match", "etag1"), ("if-none-match", "etag2")]));
}

#[test]
fn object_option_empty_adds_nothing() {
    let b = ObjectOption::<DriveField>::new().trans(builder());
    assert!(b.query.is_empty());
    assert!(b.headers.is_empty());
}

#[test]
fn collection_option_last_call_wins() {
    let opt = CollectionOption::new()
        .select(&[DriveItemField::name])
        .order_by(DriveItemField::size, Order::Ascending)
        .order_by(DriveItemField::name, Order::Descending)
        .page_size(100)
        .page_size(42)
        .get_count(false)
        .get_count(true);
    assert!(opt.has_get_count());
    let b = opt.trans(builder());
    assert_eq!(
        b.query,
        pairs(&[("$select", "name"), ("$orderby", "name desc"), ("$top", "42"), ("$count", "true")]),
    );
}

#[test]
fn collection_option_count_off_is_not_sent() {
    let b = CollectionOption::<DriveItemField>::new().get_count(false).trans(builder());
    assert!(b.query.is_empty());
}

#[test]
fn put_option_conflict_and_tag() {
    let opt = DriveItemPutOption::new();
    assert_eq!(opt.get_conflict_behavior(), None);
    let opt = opt.conflict_behavior(ConflictBehavior::Rename).if_match(&Tag("t".to_owned()));
    assert_eq!(opt.get_conflict_behavior(), Some(ConflictBehavior::Rename));
    let b = opt.trans(builder());
    assert_eq!(b.headers, pairs(&[("if-match", "t")]));
    assert!(b.query.is_empty());
}

#[test]
fn query_option_params() {
    let opt = query_option::ObjectOption::new()
        .select(&[DriveItemField::id])
        .expand(DriveItemField::children, Some(&["id"]));
    assert_eq!(opt.params(), pairs(&[("$select", "id"), ("$expand", "children($select=id,)")]));

    let opt = query_option::CollectionOption::new()
        .select(&[DriveItemField::id, DriveItemField::name])
        .order_by(DriveItemField::name, query_option::Order::Ascending)
        .page_size(0)
        .get_count(false);
    assert_eq!(
        opt.params(),
        pairs(&[("$select", "id,name"), ("$orderby", "name asc"), ("$top", "0"), ("$count", "false")]),
    );
    assert!(query_option::CollectionOption::<DriveField>::new().params().is_empty());
}

#[test]
fn interleaved_setters_compose() {
    let opt = CollectionOption::new()
        .get_count(true)
        .select(&[DriveItemField::id])
        .if_match(&Tag("a".to_owned()))
        .page_size(5)
        .expand(DriveItemField::children, None)
        .get_count(false)
        .select(&[DriveItemField::name])
        .if_match(&Tag("b".to_owned()));
    assert!(!opt.has_get_count());
    let b = opt.trans(builder());
    assert_eq!(b.query, pairs(&[("$select", "id,name"), ("$expand", "children"), ("$top", "5")]));
    assert_eq!(b.headers, pairs(&[("if-match", "b")]));

    let opt = query_option::CollectionOption::new()
        .get_count(true)
        .select(&[DriveItemField::id])
        .get_count(false)
        .page_size(3)
        .get_count(true);
    assert_eq!(opt.params(), pairs(&[("$select", "id"), ("$top", "3"), ("$count", "true")]));
}
