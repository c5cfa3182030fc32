//! What the storage service reports, as plain values.

use crate::s3::model::{CommonPrefix, Object, ObjectView};
use vstd::prelude::*;

verus! {

/// A bucket and the region it lives in.
#[derive(Debug)]
pub struct BucketWithLocation {
    /// The region of the bucket. Empty where the service names none.
    pub location: String,
    /// The name of the bucket.
    pub name: String,
}

/// A bucket as character sequences.
pub struct BucketView {
    pub location: Seq<char>,
    pub name: Seq<char>,
}

impl View for BucketWithLocation {
    type V = BucketView;

    open spec fn view(&self) -> BucketView {
        BucketView { location: self.location@, name: self.name@ }
    }
}

impl DeepView for BucketWithLocation {
    type V = BucketView;

    open spec fn deep_view(&self) -> BucketView {
        self@
    }
}

impl Clone for BucketWithLocation {
    fn clone(&self) -> (copy: Self)
        ensures
            copy == *self,
    {
        BucketWithLocation { location: self.location.clone(), name: self.name.clone() }
    }
}

/// One level of a bucket: the prefixes and the objects directly under
/// `prefix`, all pages of the listing taken together.
#[derive(Debug)]
pub struct ObjectListing {
    /// The name of the bucket.
    pub name: String,
    /// The prefix that was listed.
    pub prefix: String,
    /// The prefixes one level below, in listing order.
    pub common_prefixes: Vec<CommonPrefix>,
    /// The objects at this level, in listing order.
    pub contents: Vec<Object>,
}

/// A listing as plain mathematical values.
pub struct ListingView {
    pub name: Seq<char>,
    pub prefix: Seq<char>,
    pub common_prefixes: Seq<Seq<char>>,
    pub contents: Seq<ObjectView>,
}

impl View for ObjectListing {
    type V = ListingView;

    open spec fn view(&self) -> ListingView {
        ListingView {
            name: self.name@,
            prefix: self.prefix@,
            common_prefixes: self.common_prefixes.deep_view(),
            contents: self.contents.deep_view(),
        }
    }
}

impl DeepView for ObjectListing {
    type V = ListingView;

    open spec fn deep_view(&self) -> ListingView {
        self@
    }
}

/// One page of the listing of a level, as the service hands it out.
#[derive(Debug)]
pub struct ObjectPage {
    /// The objects of the page, where it has any.
    pub contents: Option<Vec<Object>>,
    /// The prefixes of the page, where it has any.
    pub common_prefixes: Option<Vec<CommonPrefix>>,
    /// The token that brings the next page. There is none on the last page.
    pub next_continuation_token: Option<String>,
}

/// A page as plain mathematical values.
pub struct PageView {
    pub contents: Option<Seq<ObjectView>>,
    pub common_prefixes: Option<Seq<Seq<char>>>,
    pub next_continuation_token: Option<Seq<char>>,
}

impl View for ObjectPage {
    type V = PageView;

    open spec fn view(&self) -> PageView {
        PageView {
            contents: self.contents.deep_view(),
            common_prefixes: self.common_prefixes.deep_view(),
            next_continuation_token: self.next_continuation_token.deep_view(),
        }
    }
}

/// The sequence, or the empty one where there is none.
pub open spec fn or_empty<T>(s: Option<Seq<T>>) -> Seq<T> {
    match s {
        Some(s) => s,
        None => Seq::empty(),
    }
}

impl ListingView {
    /// The listing of a level of which no page has been read yet.
    pub open spec fn empty(name: Seq<char>, prefix: Seq<char>) -> ListingView {
        ListingView { name, prefix, common_prefixes: Seq::empty(), contents: Seq::empty() }
    }

    /// The listing with one more page: the objects and the prefixes of the
    /// page follow those already there.
    pub open spec fn with_page(self, page: PageView) -> ListingView {
        ListingView {
            name: self.name,
            prefix: self.prefix,
            common_prefixes: self.common_prefixes + or_empty(page.common_prefixes),
            contents: self.contents + or_empty(page.contents),
        }
    }

}

impl ObjectListing {
    /// The listing of the level `prefix` of `bucket` before its first page.
    pub fn new(bucket: &str, prefix: &str) -> (listing: Self)
        ensures
            listing@ == ListingView::empty(bucket@, prefix@),
    {
        let listing = ObjectListing {
            name: bucket.to_owned(),
            prefix: prefix.to_owned(),
            common_prefixes: Vec::new(),
            contents: Vec::new(),
        };
        assert(listing.common_prefixes.deep_view() =~= Seq::<Seq<char>>::empty());
        assert(listing.contents.deep_view() =~= Seq::<ObjectView>::empty());
        listing
    }

    /// Adds a page to the listing and says how to go on: with the token
    /// returned, or not at all where none is returned.
    pub fn add_page(&mut self, page: ObjectPage) -> (next: Option<String>)
        ensures
            final(self)@ == old(self)@.with_page(page@),
            next.deep_view() == page@.next_continuation_token,
    {
        let ObjectPage { contents, common_prefixes, next_continuation_token } = page;
        let ghost prefixes_before = self.common_prefixes.deep_view();
        let ghost contents_before = self.contents.deep_view();
        match common_prefixes {
            Some(mut prefixes) => {
                let ghost added = prefixes.deep_view();
                self.common_prefixes.append(&mut prefixes);
                assert(self.common_prefixes.deep_view() =~= prefixes_before + added);
            },
            None => {
                assert(self.common_prefixes.deep_view() =~= prefixes_before + Seq::<
                    Seq<char>,
                >::empty());
            },
        }
        match contents {
            Some(mut objects) => {
                let ghost added = objects.deep_view();
                self.contents.append(&mut objects);
                assert(self.contents.deep_view() =~= contents_before + added);
            },
            None => {
                assert(self.contents.deep_view() =~= contents_before + Seq::<ObjectView>::empty());
            },
        }
        next_continuation_token
    }
}

/// The names that are there, in order.
pub open spec fn present(names: Seq<Option<Seq<char>>>) -> Seq<Seq<char>> {
    names.filter(|name: Option<Seq<char>>| name is Some).map_values(
        |name: Option<Seq<char>>| name->0,
    )
}

/// The buckets whose region was found, in order. Each pair is the name of a
/// bucket and the region that the service gave for it, if it gave one.
pub open spec fn located(found: Seq<(Seq<char>, Option<Seq<char>>)>) -> Seq<BucketView> {
    found.filter(|pair: (Seq<char>, Option<Seq<char>>)| pair.1 is Some).map_values(
        |pair: (Seq<char>, Option<Seq<char>>)| BucketView { location: pair.1->0, name: pair.0 },
    )
}

/// The names of the buckets that have one. Only for these is a region
/// asked.
pub fn bucket_names(names: Vec<Option<String>>) -> (named: Vec<String>)
    ensures
        named.deep_view() == present(names.deep_view()),
{
    let ghost all = names.deep_view();
    let ghost has_name = |name: Option<Seq<char>>| name is Some;
    let mut named: Vec<String> = Vec::new();
    proof {
        reveal(Seq::filter);
        assert(named.deep_view() =~= present(all.take(0)));
    }
    let mut i: usize = 0;
    while i < names.len()
        invariant
            i <= names.len(),
            all == names.deep_view(),
            has_name == |name: Option<Seq<char>>| name is Some,
            named.deep_view() == present(all.take(i as int)),
        decreases names.len() - i,
    {
        let ghost before = named.deep_view();
        proof {
            assert(all.take(i + 1) =~= all.take(i as int).push(all[i as int]));
            all.take(i as int).lemma_filter_push(all[i as int], has_name);
        }
        match &names[i] {
            Some(name) => {
                named.push(name.clone());
                assert(named.deep_view() =~= before.push(all[i as int]->0));
                assert(named.deep_view() =~= present(all.take(i + 1)));
            },
            None => {},
        }
        i += 1;
    }
    assert(all.take(names.len() as int) =~= all);
    named
}

/// The buckets whose region was found, each with its region.
pub fn located_buckets(found: Vec<(String, Option<String>)>) -> (buckets: Vec<BucketWithLocation>)
    ensures
        buckets.deep_view() == located(found.deep_view()),
{
    let ghost all = found.deep_view();
    let ghost has_region = |pair: (Seq<char>, Option<Seq<char>>)| pair.1 is Some;
    let mut buckets: Vec<BucketWithLocation> = Vec::new();
    proof {
        reveal(Seq::filter);
        assert(buckets.deep_view() =~= located(all.take(0)));
    }
    let mut i: usize = 0;
    while i < found.len()
        invariant
            i <= found.len(),
            all == found.deep_view(),
            has_region == |pair: (Seq<char>, Option<Seq<char>>)| pair.1 is Some,
            buckets.deep_view() == located(all.take(i as int)),
        decreases found.len() - i,
    {
        let ghost before = buckets.deep_view();
        proof {
            assert(all.take(i + 1) =~= all.take(i as int).push(all[i as int]));
            all.take(i as int).lemma_filter_push(all[i as int], has_region);
        }
        match &found[i].1 {
            Some(location) => {
                let bucket = BucketWithLocation {
                    location: location.clone(),
                    name: found[i].0.clone(),
                };
                buckets.push(bucket);
                assert(buckets.deep_view() =~= before.push(
                    BucketView { location: all[i as int].1->0, name: all[i as int].0 },
                ));
                assert(buckets.deep_view() =~= located(all.take(i + 1)));
            },
            None => {},
        }
        i += 1;
    }
    assert(all.take(found.len() as int) =~= all);
    buckets
}

} // verus!
