use tui_aws::s3::client::{bucket_names, located_buckets, ObjectListing, ObjectPage};
use tui_aws::s3::model::{CommonPrefix, Object};

fn page(keys: Option<&[&str]>, prefixes: Option<&[&str]>, token: Option<&str>) -> ObjectPage {
    ObjectPage {
        contents: keys.map(|ks| {
            ks.iter().map(|k| Object { key: (*k).to_owned(), size: 7, last_modified: None }).collect()
        }),
        common_prefixes: prefixes
            .map(|ps| ps.iter().map(|p| CommonPrefix { prefix: (*p).to_owned() }).collect()),
        next_continuation_token: token.map(|t| t.to_owned()),
    }
}

fn keys_of(listing: &ObjectListing) -> Vec<String> {
    listing.contents.iter().map(|o| o.key.clone()).collect()
}

fn prefixes_of(listing: &ObjectListing) -> Vec<String> {
    listing.common_prefixes.iter().map(|p| p.prefix.clone()).collect()
}

#[test]
fn a_new_listing_is_empty() {
    let listing = ObjectListing::new("bucket", "p/");
    assert_eq!(listing.name, "bucket");
    assert_eq!(listing.prefix, "p/");
    assert!(listing.contents.is_empty());
    assert!(listing.common_prefixes.is_empty());
}

#[test]
fn pages_are_added_in_order_until_no_token_is_left() {
    let mut listing = ObjectListing::new("bucket", "p/");
    let next = listing.add_page(page(Some(&["p/a", "p/b"]), Some(&["p/x/"]), Some("t1")));
    assert_eq!(next, Some("t1".to_owned()));
    let next = listing.add_page(page(None, Some(&["p/y/"]), Some("t2")));
    assert_eq!(next, Some("t2".to_owned()));
    let next = listing.add_page(page(Some(&["p/c"]), None, Some("t3")));
    assert_eq!(next, Some("t3".to_owned()));
    let next = listing.add_page(page(None, None, None));
    assert_eq!(next, None);
    assert_eq!(keys_of(&listing), vec!["p/a", "p/b", "p/c"]);
    assert_eq!(prefixes_of(&listing), vec!["p/x/", "p/y/"]);
    assert_eq!(listing.name, "bucket");
    assert_eq!(listing.prefix, "p/");
    assert_eq!(listing.contents[2].size, 7);
}

#[test]
fn only_buckets_with_a_name_are_asked_about() {
    let names = vec![Some("a".to_owned()), None, Some("b".to_owned()), None, None];
    assert_eq!(bucket_names(names), vec!["a".to_owned(), "b".to_owned()]);
    assert_eq!(bucket_names(vec![]), Vec::<String>::new());
    assert_eq!(bucket_names(vec![None]), Vec::<String>::new());
}

#[test]
fn only_buckets_with_a_region_are_listed() {
    let found = vec![
        ("a".to_owned(), Some("eu-west-1".to_owned())),
        ("b".to_owned(), None),
        ("c".to_owned(), Some(String::new())),
    ];
    let buckets = located_buckets(found);
    assert_eq!(buckets.len(), 2);
    assert_eq!((buckets[0].name.as_str(), buckets[0].location.as_str()), ("a", "eu-west-1"));
    assert_eq!((buckets[1].name.as_str(), buckets[1].location.as_str()), ("c", ""));
    assert!(located_buckets(vec![]).is_empty());
    assert!(located_buckets(vec![("x".to_owned(), None)]).is_empty());
}
