use resource_topology::cursor::{decode_cursor, encode_cursor};
use resource_topology::model::{AwsResource, QueryError, Resource};
use resource_topology::paging::list;
use resource_topology::props::PropValue;
use resource_topology::store::{ResourceRecord, ResourceStore};

fn s(x: &str) -> String {
    String::from(x)
}

fn record(resource_type: &str, identifier: &str) -> ResourceRecord {
    ResourceRecord {
        resource: AwsResource {
            type_label: s("AWS::Resource"),
            resource_type: s(resource_type),
            identifier: s(identifier),
            all_properties: s("{}"),
        },
        properties: PropValue::Null,
    }
}

fn bucket_store(ids: &[&str]) -> ResourceStore {
    let mut store = ResourceStore::new();
    for id in ids {
        store.insert(record("AWS::S3::Bucket", id));
    }
    store
}

fn item_ids(items: &[Resource]) -> Vec<String> {
    items
        .iter()
        .map(|r| match r {
            Resource::AwsS3Bucket(b) => b.identifier.clone(),
            _ => panic!("every listed record is a bucket"),
        })
        .collect()
}

#[test]
fn cursor_token_round_trips() {
    let tok = encode_cursor(7, 123456789);
    assert_eq!(tok.len(), 32);
    assert_eq!(decode_cursor(&tok), Some((7, 123456789)));
    let tok = encode_cursor(0, 0);
    assert_eq!(decode_cursor(&tok), Some((0, 0)));
    let tok = encode_cursor(u64::MAX, u64::MAX);
    assert_eq!(decode_cursor(&tok), Some((u64::MAX, u64::MAX)));
}

#[test]
fn cursor_rejects_malformed_tokens() {
    assert_eq!(decode_cursor(""), None);
    assert_eq!(decode_cursor("garbage"), None);
    assert_eq!(decode_cursor("0000000000000000000000000000000g"), None);
    assert_eq!(decode_cursor("000000000000000000000000000000000"), None);
}

#[test]
fn sequential_pages_cover_all_matches_without_overlap() {
    let store = bucket_store(&["b-1", "b-2", "b-3", "b-4", "b-5"]);
    let p0 = list(&store, "AWS::S3::Bucket", None, None, 2).unwrap();
    assert_eq!(item_ids(&p0.items), vec![s("b-1"), s("b-2")]);
    let t0 = p0.next_token.expect("more matches remain after the first page");

    let p1 = list(&store, "AWS::S3::Bucket", None, Some(&t0), 2).unwrap();
    assert_eq!(item_ids(&p1.items), vec![s("b-3"), s("b-4")]);
    let t1 = p1.next_token.expect("more matches remain after the second page");

    let p2 = list(&store, "AWS::S3::Bucket", None, Some(&t1), 2).unwrap();
    assert_eq!(item_ids(&p2.items), vec![s("b-5")]);
    assert!(p2.next_token.is_none());
}

#[test]
fn garbage_cursor_fails_with_invalid_cursor() {
    let store = bucket_store(&["b-1"]);
    let garbage = s("garbage");
    match list(&store, "AWS::S3::Bucket", None, Some(&garbage), 2) {
        Err(QueryError::InvalidCursor) => {}
        _ => panic!("a token that was never issued must be rejected"),
    }
}

#[test]
fn cursor_outlived_by_a_mutation_is_stale() {
    let mut store = bucket_store(&["b-1", "b-2", "b-3"]);
    let p0 = list(&store, "AWS::S3::Bucket", None, None, 2).unwrap();
    let t0 = p0.next_token.unwrap();
    store.insert(record("AWS::S3::Bucket", "b-4"));
    match list(&store, "AWS::S3::Bucket", None, Some(&t0), 2) {
        Err(QueryError::InvalidCursor) => {}
        _ => panic!("a cursor issued before a mutation must be rejected"),
    }
}

#[test]
fn listing_filters_by_type_and_identifier_prefix() {
    let mut store = ResourceStore::new();
    store.insert(record("AWS::S3::Bucket", "logs-a"));
    store.insert(record("AWS::EC2::Instance", "logs-i"));
    store.insert(record("AWS::S3::Bucket", "data-b"));
    store.insert(record("AWS::S3::Bucket", "logs-c"));
    let filter = s("logs-");
    let p = list(&store, "AWS::S3::Bucket", Some(&filter), None, 10).unwrap();
    assert_eq!(item_ids(&p.items), vec![s("logs-a"), s("logs-c")]);
    assert!(p.next_token.is_none());
}

#[test]
fn listing_an_unknown_type_yields_an_empty_page() {
    let store = bucket_store(&["b-1"]);
    let p = list(&store, "AWS::EC2::Instance", None, None, 3).unwrap();
    assert!(p.items.is_empty());
    assert!(p.next_token.is_none());
}

#[test]
fn engine_resources_pages_with_the_default_limit() {
    let store = bucket_store(&["b-1", "b-2"]);
    let engine = resource_topology::engine::Engine::new(
        resource_topology::registry::default_registry(),
        store,
    );
    let p = engine.resources("AWS::S3::Bucket", None, None).unwrap();
    assert_eq!(item_ids(&p.items), vec![s("b-1"), s("b-2")]);
    assert!(p.next_token.is_none());
}
