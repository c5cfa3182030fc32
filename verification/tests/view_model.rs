use tui_aws::s3::client::{BucketWithLocation, ObjectListing};
use tui_aws::s3::model::{CommonPrefix, Object, S3Item};
use tui_aws::s3::view_model::{S3ItemViewModel, S3ItemsViewModel, S3Output, S3OutputType};

fn bucket(name: &str) -> BucketWithLocation {
    BucketWithLocation { location: "ap-northeast-1".to_owned(), name: name.to_owned() }
}

fn object(key: &str) -> Object {
    Object { key: key.to_owned(), size: 0, last_modified: None }
}

fn prefix(p: &str) -> CommonPrefix {
    CommonPrefix { prefix: p.to_owned() }
}

fn buckets(names: &[&str]) -> S3Output {
    S3Output::Buckets(names.iter().map(|n| bucket(n)).collect())
}

fn objects(name: &str, at: &str, prefixes: &[&str], keys: &[&str]) -> S3Output {
    S3Output::Objects(ObjectListing {
        name: name.to_owned(),
        prefix: at.to_owned(),
        common_prefixes: prefixes.iter().map(|p| prefix(p)).collect(),
        contents: keys.iter().map(|k| object(k)).collect(),
    })
}

fn cursor(vm: &S3ItemsViewModel) -> Option<usize> {
    vm.list_stack.last().and_then(|frame| frame.items().state())
}

fn scope(bucket: &str, prefix: &str) -> Option<(String, String)> {
    Some((bucket.to_owned(), prefix.to_owned()))
}

// The cursor goes round at both ends: a step up from the first bucket lands
// on the last one, and a step down from there on the first again.
#[test]
fn test_s3items_view_model() {
    let mut vm = S3ItemsViewModel::new();
    assert_eq!(vm.bucket_and_prefix(), None);
    assert_eq!(vm.selected(), None);

    let bucket_list_output: Vec<BucketWithLocation> =
        vec![bucket("bucket1"), bucket("bucket2"), bucket("bucket3")];

    vm.push(S3Output::Buckets(bucket_list_output.clone()));
    assert_eq!(vm.bucket_and_prefix(), None);
    assert_eq!(vm.selected(), Some(&S3Item::Bucket(bucket_list_output[0].clone())));
    vm.previous();
    assert_eq!(vm.selected(), Some(&S3Item::Bucket(bucket_list_output[2].clone())));

    vm.next();
    assert_eq!(vm.selected(), Some(&S3Item::Bucket(bucket_list_output[0].clone())));
    vm.previous();

    assert_eq!(vm.selected(), Some(&S3Item::Bucket(bucket_list_output[2].clone())));

    let object_list = vec![object("obj1"), object("obj2"), object("obj3")];
    let object_list_output = ObjectListing {
        name: String::new(),
        prefix: "".to_owned(),
        common_prefixes: vec![],
        contents: object_list.clone(),
    };
    vm.push(S3Output::Objects(object_list_output));

    assert_eq!(vm.selected(), Some(&S3Item::Pop));
    vm.next();

    let expect_selected = object_list[0].clone();
    assert_eq!(vm.selected(), Some(&S3Item::Object(expect_selected)));
}

#[test]
fn mod_test_s3items_view_model() {
    let mut vm = S3ItemsViewModel::new();
    assert_eq!(vm.bucket_and_prefix(), None);
    assert_eq!(vm.selected(), None);

    let bucket_list_output: Vec<BucketWithLocation> =
        vec![bucket("bucket1"), bucket("bucket2"), bucket("bucket3")];

    vm.update(S3Output::Buckets(bucket_list_output.clone()));
    assert_eq!(vm.bucket_and_prefix(), None);
    assert_eq!(vm.selected(), Some(&S3Item::Bucket(bucket_list_output[0].clone())));
    vm.previous();
    assert_eq!(vm.selected(), Some(&S3Item::Bucket(bucket_list_output[2].clone())));

    vm.next();
    assert_eq!(vm.selected(), Some(&S3Item::Bucket(bucket_list_output[0].clone())));
    vm.previous();

    assert_eq!(vm.selected(), Some(&S3Item::Bucket(bucket_list_output[2].clone())));

    let object_list = vec![object("obj1"), object("obj2"), object("obj3")];
    let object_list_output = ObjectListing {
        name: String::new(),
        prefix: "".to_owned(),
        common_prefixes: vec![],
        contents: object_list.clone(),
    };
    vm.update(S3Output::Objects(object_list_output));

    assert_eq!(vm.selected(), Some(&S3Item::Pop));
    vm.next();

    let expect_selected = object_list[0].clone();
    assert_eq!(vm.selected(), Some(&S3Item::Object(expect_selected)));
    assert_eq!(vm.bucket_and_prefix(), scope("", ""));
}

#[test]
fn output_type_and_scope() {
    let b = buckets(&["a"]);
    assert_eq!(b.output_type(), S3OutputType::Buckets);
    assert_eq!(b.bucket_and_prefix(), None);
    let o = objects("bucket1", "p1/", &[], &[]);
    assert_eq!(o.output_type(), S3OutputType::Objects);
    assert_eq!(o.bucket_and_prefix(), scope("bucket1", "p1/"));
}

#[test]
fn items_of_a_level_start_with_the_way_back() {
    let frame = S3ItemViewModel::new(objects("b", "", &["p1/", "p2/"], &["k1", "k2"]));
    let items = frame.items().items();
    assert_eq!(items.len(), 5);
    assert_eq!(items[0], S3Item::Pop);
    assert_eq!(items[1], S3Item::CommonPrefix(prefix("p1/")));
    assert_eq!(items[2], S3Item::CommonPrefix(prefix("p2/")));
    assert_eq!(items[3], S3Item::Object(object("k1")));
    assert_eq!(items[4], S3Item::Object(object("k2")));
    assert_eq!(frame.items().state(), Some(0));
}

#[test]
fn items_of_a_bucket_list_have_no_way_back() {
    let frame = S3ItemViewModel::new(buckets(&["x", "y"]));
    let items = frame.items().items();
    assert_eq!(items.len(), 2);
    assert_eq!(items[0], S3Item::Bucket(bucket("x")));
    assert_eq!(items[1], S3Item::Bucket(bucket("y")));
}

#[test]
fn empty_listing_has_no_cursor() {
    let frame = S3ItemViewModel::new(buckets(&[]));
    assert_eq!(frame.items().items().len(), 0);
    assert_eq!(frame.items().state(), None);
    assert_eq!(frame.selected(), None);

    let level = S3ItemViewModel::new(objects("b", "", &[], &[]));
    assert_eq!(level.items().items().len(), 1);
    assert_eq!(level.items().state(), Some(0));
    assert_eq!(level.selected(), Some(&S3Item::Pop));
}

#[test]
fn cursor_is_none_exactly_on_empty_items() {
    let mut vm = S3ItemsViewModel::new();
    vm.update(buckets(&[]));
    for _ in 0..3 {
        let frame = vm.list_stack.last().unwrap();
        assert_eq!(frame.items().state().is_none(), frame.items().items().is_empty());
        vm.next();
        vm.previous();
        vm.first();
        vm.last();
        vm.search_next("a");
    }
    vm.update(buckets(&["a", "b"]));
    for _ in 0..5 {
        let frame = vm.list_stack.last().unwrap();
        assert_eq!(frame.items().state().is_none(), frame.items().items().is_empty());
        vm.next();
    }
}

#[test]
fn clamp_on_shrink() {
    let mut vm = S3ItemsViewModel::new();
    vm.update(buckets(&["a", "b", "c"]));
    vm.last();
    assert_eq!(cursor(&vm), Some(2));
    vm.update(buckets(&["a"]));
    assert_eq!(vm.list_stack.len(), 1);
    assert_eq!(cursor(&vm), Some(0));
    assert_eq!(vm.selected(), Some(&S3Item::Bucket(bucket("a"))));
}

#[test]
fn clamp_on_shrink_inside_a_bucket() {
    let mut vm = S3ItemsViewModel::new();
    vm.update(objects("b", "", &[], &["k1", "k2", "k3"]));
    vm.last();
    assert_eq!(cursor(&vm), Some(3));
    vm.update(objects("b", "", &[], &["k1"]));
    assert_eq!(cursor(&vm), Some(1));
    assert_eq!(vm.selected(), Some(&S3Item::Object(object("k1"))));
}

#[test]
fn empty_clamp() {
    let mut vm = S3ItemsViewModel::new();
    vm.update(buckets(&["a", "b", "c"]));
    vm.last();
    assert_eq!(cursor(&vm), Some(2));
    vm.update(buckets(&[]));
    assert_eq!(vm.list_stack.len(), 1);
    assert_eq!(cursor(&vm), None);
    assert!(vm.list_stack[0].items().items().is_empty());
    assert_eq!(vm.selected(), None);
}

#[test]
fn refresh_from_empty_selects_the_first_item() {
    let mut vm = S3ItemsViewModel::new();
    vm.update(buckets(&[]));
    assert_eq!(cursor(&vm), None);
    vm.update(buckets(&["a", "b"]));
    assert_eq!(vm.list_stack.len(), 1);
    assert_eq!(cursor(&vm), Some(0));
}

#[test]
fn refresh_keeps_the_index() {
    let mut vm = S3ItemsViewModel::new();
    vm.update(buckets(&["a", "b", "c"]));
    vm.next();
    assert_eq!(cursor(&vm), Some(1));
    vm.update(buckets(&["x", "y", "z", "w"]));
    assert_eq!(cursor(&vm), Some(1));
    assert_eq!(vm.selected(), Some(&S3Item::Bucket(bucket("y"))));
}

#[test]
fn merging_the_same_listing_twice_leaves_the_cursor() {
    let mut vm = S3ItemsViewModel::new();
    vm.update(buckets(&["a"]));
    vm.update(objects("a", "", &["p1/", "p2/"], &["k1", "k2"]));
    vm.last();
    assert_eq!(cursor(&vm), Some(4));
    vm.update(objects("a", "", &["p1/"], &["k1"]));
    assert_eq!(vm.list_stack.len(), 2);
    assert_eq!(cursor(&vm), Some(2));
    vm.update(objects("a", "", &["p1/"], &["k1"]));
    assert_eq!(vm.list_stack.len(), 2);
    assert_eq!(cursor(&vm), Some(2));
    assert_eq!(vm.selected(), Some(&S3Item::Object(object("k1"))));
}

#[test]
fn next_wraps_after_as_many_steps_as_items() {
    let mut vm = S3ItemsViewModel::new();
    vm.update(objects("b", "", &["p1/", "p2/"], &["k1", "k2"]));
    vm.next();
    vm.next();
    let start = cursor(&vm);
    assert_eq!(start, Some(2));
    let mut seen = vec![];
    for _ in 0..5 {
        vm.next();
        seen.push(cursor(&vm));
    }
    assert_eq!(seen, vec![Some(3), Some(4), Some(0), Some(1), Some(2)]);
    assert_eq!(cursor(&vm), start);
}

#[test]
fn previous_wraps_after_as_many_steps_as_items() {
    let mut vm = S3ItemsViewModel::new();
    vm.update(buckets(&["a", "b", "c"]));
    vm.next();
    let start = cursor(&vm);
    assert_eq!(start, Some(1));
    let mut seen = vec![];
    for _ in 0..3 {
        vm.previous();
        seen.push(cursor(&vm));
    }
    assert_eq!(seen, vec![Some(0), Some(2), Some(1)]);
    assert_eq!(cursor(&vm), start);
}

#[test]
fn first_and_last() {
    let mut vm = S3ItemsViewModel::new();
    vm.first();
    vm.last();
    assert_eq!(cursor(&vm), None);
    vm.update(buckets(&["a", "b", "c"]));
    vm.last();
    assert_eq!(cursor(&vm), Some(2));
    vm.first();
    assert_eq!(cursor(&vm), Some(0));
    vm.update(buckets(&[]));
    vm.first();
    assert_eq!(cursor(&vm), None);
    vm.last();
    assert_eq!(cursor(&vm), None);
}

#[test]
fn cursor_of_a_lower_level_comes_back_on_pop() {
    let mut vm = S3ItemsViewModel::new();
    vm.update(buckets(&["a", "b", "c"]));
    vm.next();
    vm.next();
    vm.update(objects("c", "", &[], &["k1", "k2"]));
    vm.next();
    vm.last();
    vm.search_next("k1");
    assert_eq!(cursor(&vm), Some(1));
    assert_eq!(vm.list_stack[0].items().state(), Some(2));
    let left = vm.pop().unwrap();
    assert_eq!(left.output().bucket_and_prefix(), scope("c", ""));
    assert_eq!(cursor(&vm), Some(2));
    assert_eq!(vm.selected(), Some(&S3Item::Bucket(bucket("c"))));
    assert!(vm.pop().is_some());
    assert!(vm.pop().is_none());
    assert_eq!(vm.list_stack.len(), 0);
}

#[test]
fn search_wraps() {
    let mut vm = S3ItemsViewModel::new();
    vm.update(buckets(&["a", "bb", "abc", "x"]));
    assert_eq!(cursor(&vm), Some(0));
    vm.search_next("b");
    assert_eq!(cursor(&vm), Some(1));
    vm.search_next("b");
    assert_eq!(cursor(&vm), Some(2));
    vm.search_next("b");
    assert_eq!(cursor(&vm), Some(1));
}

#[test]
fn search_without_a_match_leaves_the_cursor() {
    let mut vm = S3ItemsViewModel::new();
    vm.update(buckets(&["a", "bb", "abc", "x"]));
    vm.next();
    vm.next();
    vm.search_next("zz");
    assert_eq!(cursor(&vm), Some(2));
    vm.search_next("B");
    assert_eq!(cursor(&vm), Some(2));
    let mut empty = S3ItemsViewModel::new();
    empty.search_next("a");
    assert_eq!(cursor(&empty), None);
}

#[test]
fn search_looks_at_the_last_component_only() {
    let mut vm = S3ItemsViewModel::new();
    vm.update(objects("b", "data/", &["data/logs/", "data/img/"], &["data/a.txt", "data/b.txt"]));
    vm.search_next("data");
    assert_eq!(cursor(&vm), Some(0));
    vm.search_next("img");
    assert_eq!(cursor(&vm), Some(2));
    vm.search_next("txt");
    assert_eq!(cursor(&vm), Some(3));
    vm.search_next("txt");
    assert_eq!(cursor(&vm), Some(4));
    vm.search_next("txt");
    assert_eq!(cursor(&vm), Some(3));
    vm.search_next("");
    assert_eq!(cursor(&vm), Some(4));
    vm.search_next("");
    assert_eq!(cursor(&vm), Some(1));
}

#[test]
fn stale_result_dropped() {
    let mut vm = S3ItemsViewModel::new();
    vm.update(buckets(&["bucket1"]));
    vm.update(objects("bucket1", "", &["p1/"], &["k"]));
    vm.next();
    // B arrives first and is pushed.
    vm.update(objects("bucket1", "p1/", &[], &["p1/x", "p1/y"]));
    assert_eq!(vm.list_stack.len(), 3);
    vm.last();
    assert_eq!(vm.bucket_and_prefix(), scope("bucket1", "p1/"));
    assert_eq!(cursor(&vm), Some(2));
    // A arrives late, for the level that was left.
    vm.update(objects("bucket1", "", &["p1/", "p2/"], &[]));
    assert_eq!(vm.list_stack.len(), 3);
    assert_eq!(vm.bucket_and_prefix(), scope("bucket1", "p1/"));
    assert_eq!(cursor(&vm), Some(2));
    assert_eq!(vm.selected(), Some(&S3Item::Object(object("p1/y"))));
    assert_eq!(vm.list_stack[1].items().items().len(), 3);
    assert_eq!(vm.list_stack[1].items().state(), Some(1));
}

#[test]
fn listing_of_another_bucket_or_a_sibling_is_dropped() {
    let mut vm = S3ItemsViewModel::new();
    vm.update(buckets(&["b1", "b2"]));
    vm.update(objects("b1", "p1/", &[], &[]));
    vm.update(objects("b2", "p1/x/", &[], &[]));
    assert_eq!(vm.list_stack.len(), 2);
    vm.update(objects("b1", "p2/", &[], &[]));
    assert_eq!(vm.list_stack.len(), 2);
    vm.update(buckets(&["b1"]));
    assert_eq!(vm.list_stack.len(), 2);
    assert_eq!(vm.bucket_and_prefix(), scope("b1", "p1/"));
    vm.update(objects("b1", "p1/x/", &[], &[]));
    assert_eq!(vm.list_stack.len(), 3);
    assert_eq!(vm.bucket_and_prefix(), scope("b1", "p1/x/"));
}

#[test]
fn update_output_replaces_listing_and_items() {
    let mut frame = S3ItemViewModel::new(objects("b", "", &["p/"], &["k1", "k2"]));
    frame.last();
    assert_eq!(frame.items().state(), Some(3));
    frame.update_output(objects("b", "", &[], &["z"]));
    assert_eq!(frame.items().items().len(), 2);
    assert_eq!(frame.items().state(), Some(1));
    assert_eq!(frame.selected(), Some(&S3Item::Object(object("z"))));
    assert_eq!(frame.output().bucket_and_prefix(), scope("b", ""));
    match frame.output() {
        S3Output::Objects(listing) => assert_eq!(listing.contents.len(), 1),
        S3Output::Buckets(_) => panic!("the listing of a level is expected"),
    }
}

#[test]
fn selected_uri_of_each_kind() {
    let mut vm = S3ItemsViewModel::new();
    assert_eq!(vm.selected_s3_uri(), "");
    vm.update(buckets(&["b1"]));
    assert_eq!(vm.selected_s3_uri(), "s3://b1");
    vm.update(objects("b1", "p1/", &["p1/q/"], &["p1/k"]));
    assert_eq!(vm.selected_s3_uri(), "s3://b1/p1/");
    vm.next();
    assert_eq!(vm.selected_s3_uri(), "s3://b1/p1/q/");
    vm.next();
    assert_eq!(vm.selected_s3_uri(), "s3://b1/p1/k");
}

#[test]
fn heading_names_the_level_on_screen() {
    let mut vm = S3ItemsViewModel::new();
    assert_eq!(vm.make_currenent_common_prefix_view(), "bucket selection    ");
    vm.update(buckets(&["b1"]));
    assert_eq!(vm.make_currenent_common_prefix_view(), "bucket selection    ");
    vm.update(objects("b1", "p1/", &[], &[]));
    assert_eq!(vm.make_currenent_common_prefix_view(), "s3://b1/p1/    ");
}

#[test]
fn depth_counts_levels() {
    let mut vm = S3ItemsViewModel::new();
    assert_eq!(vm.depth(), 0);
    vm.push(buckets(&["b"]));
    vm.push(objects("b", "", &[], &[]));
    assert_eq!(vm.depth(), 2);
}

#[test]
fn update_output_takes_a_listing_of_the_other_kind() {
    let mut frame = S3ItemViewModel::new(objects("b", "", &["p/"], &["k1", "k2"]));
    frame.last();
    frame.update_output(buckets(&["x", "y"]));
    assert_eq!(frame.output().output_type(), S3OutputType::Buckets);
    assert_eq!(frame.items().items().len(), 2);
    assert_eq!(frame.items().state(), Some(1));
    assert_eq!(frame.selected(), Some(&S3Item::Bucket(bucket("y"))));
}
