//! The navigation state: a stack of listings, one per level entered, each
//! with its items and its cursor.

use crate::s3::client::{BucketView, BucketWithLocation, ListingView, ObjectListing};
use crate::s3::model::{ItemView, ObjectView, S3Item};
use crate::s3::rows::{display_rows, display_rows_of};
use crate::stateful_list::{cursor_view, ListView, StatefulList};
use crate::text::{chars_of, starts_with_chars};
use vstd::prelude::*;
use vstd::string::*;

verus! {

/// What a listing was fetched for: nothing for the list of buckets, the
/// bucket and the prefix for one level of a bucket.
pub type Scope = Option<(Seq<char>, Seq<char>)>;

/// The two kinds of listing.
#[derive(Clone, Copy, Debug, PartialEq, Eq, Structural)]
pub enum S3OutputType {
    Buckets,
    Objects,
}

/// The result of one listing.
#[derive(Debug)]
pub enum S3Output {
    Buckets(Vec<BucketWithLocation>),
    Objects(ObjectListing),
}

/// The result of a listing as plain mathematical values.
pub enum OutputView {
    Buckets(Seq<BucketView>),
    Objects(ListingView),
}

impl View for S3Output {
    type V = OutputView;

    open spec fn view(&self) -> OutputView {
        match self {
            S3Output::Buckets(buckets) => OutputView::Buckets(buckets.deep_view()),
            S3Output::Objects(listing) => OutputView::Objects(listing@),
        }
    }
}

impl DeepView for S3Output {
    type V = OutputView;

    open spec fn deep_view(&self) -> OutputView {
        self@
    }
}

impl OutputView {
    /// The kind of the listing.
    pub open spec fn output_type(self) -> S3OutputType {
        match self {
            OutputView::Buckets(_) => S3OutputType::Buckets,
            OutputView::Objects(_) => S3OutputType::Objects,
        }
    }

    /// What the listing was fetched for.
    pub open spec fn scope(self) -> Scope {
        match self {
            OutputView::Buckets(_) => None,
            OutputView::Objects(listing) => Some((listing.name, listing.prefix)),
        }
    }

    /// The items the listing is shown as. A list of buckets gives its
    /// buckets in order. A level of a bucket gives the way back first, then
    /// its prefixes in order, then its objects in order.
    pub open spec fn items(self) -> Seq<ItemView> {
        match self {
            OutputView::Buckets(buckets) => buckets.map_values(|b: BucketView| ItemView::Bucket(b)),
            OutputView::Objects(listing) => seq![ItemView::Pop] + listing.common_prefixes.map_values(
                |p: Seq<char>| ItemView::CommonPrefix(p),
            ) + listing.contents.map_values(|o: ObjectView| ItemView::Object(o)),
        }
    }
}

/// Whether the scope `new` lies below the scope `current`: every level of a
/// bucket lies below the list of buckets, and within one bucket a prefix
/// lies below each of its proper beginnings.
pub open spec fn scope_below(new: Scope, current: Scope) -> bool {
    match (current, new) {
        (None, Some(_)) => true,
        (Some(c), Some(n)) => c.0 == n.0 && c.1.len() < n.1.len() && c.1.is_prefix_of(n.1),
        _ => false,
    }
}

/// The views of a sequence of items.
pub open spec fn item_views(items: Seq<S3Item>) -> Seq<ItemView> {
    Seq::new(items.len(), |i: int| items[i]@)
}

/// The first index at or after `from` whose item a search for `text`
/// finds, or the number of items when there is none.
pub open spec fn first_match_from(items: Seq<ItemView>, text: Seq<char>, from: int) -> int
    decreases items.len() - from,
{
    if from >= items.len() {
        items.len() as int
    } else if from >= 0 && items[from].matches(text) {
        from
    } else {
        first_match_from(items, text, from + 1)
    }
}

/// `first_match_from` finds a match, and nothing before it from `from` on
/// matches.
pub proof fn lemma_first_match_from(items: Seq<ItemView>, text: Seq<char>, from: int)
    requires
        0 <= from <= items.len(),
    ensures
        from <= first_match_from(items, text, from) <= items.len(),
        first_match_from(items, text, from) < items.len() ==> items[first_match_from(
            items,
            text,
            from,
        )].matches(text),
        forall|i: int| from <= i < first_match_from(items, text, from) ==> !items[i].matches(text),
    decreases items.len() - from,
{
    if from < items.len() && !items[from].matches(text) {
        lemma_first_match_from(items, text, from + 1);
    }
}

/// One level of the stack as plain mathematical values: the listing, the
/// items shown for it, and the cursor on them.
pub struct FrameView {
    pub output: OutputView,
    pub list: ListView<ItemView>,
}

impl FrameView {
    /// The items are those of the listing, and the cursor is on one of them
    /// exactly when there is one.
    pub open spec fn wf(self) -> bool {
        &&& self.list.items == self.output.items()
        &&& self.list.wf()
    }

    /// The level as it is when its listing arrives: the cursor is on the
    /// first item.
    pub open spec fn fresh(output: OutputView) -> Self {
        FrameView { output, list: ListView::fresh(output.items()) }
    }

    /// The level after a newer listing has replaced the one it had. The
    /// cursor keeps its index as far as the new items reach.
    pub open spec fn refreshed(self, output: OutputView) -> Self {
        FrameView { output, list: self.list.updated(output.items()) }
    }

    /// The level with another cursor on its items.
    pub open spec fn with_list(self, list: ListView<ItemView>) -> Self {
        FrameView { output: self.output, list }
    }

    /// Where a search for `text` puts the cursor: on the first match after
    /// the cursor; if there is none, on the first match of all; if nothing
    /// matches, where it was.
    pub open spec fn search_next(self, text: Seq<char>) -> Self {
        let items = self.list.items;
        let after = first_match_from(
            items,
            text,
            match self.list.cursor {
                Some(i) => i as int + 1,
                None => 1,
            },
        );
        let any = first_match_from(items, text, 0);
        if after < items.len() {
            self.with_list(self.list.select(after as nat))
        } else if any < items.len() {
            self.with_list(self.list.select(any as nat))
        } else {
            self
        }
    }
}

impl S3Output {
    /// The kind of this listing.
    pub fn output_type(&self) -> (kind: S3OutputType)
        ensures
            kind == self@.output_type(),
    {
        match self {
            S3Output::Buckets(_) => S3OutputType::Buckets,
            S3Output::Objects(_) => S3OutputType::Objects,
        }
    }

    /// The bucket and the prefix this listing was fetched for.
    pub fn bucket_and_prefix(&self) -> (scope: Option<(String, String)>)
        ensures
            scope.deep_view() == self@.scope(),
    {
        match self {
            S3Output::Buckets(_) => None,
            S3Output::Objects(o) => Some((o.name.clone(), o.prefix.clone())),
        }
    }
}

/// Whether two scopes are the same.
pub fn same_scope(a: &Option<(String, String)>, b: &Option<(String, String)>) -> (same: bool)
    ensures
        same == (a.deep_view() == b.deep_view()),
{
    match (a, b) {
        (None, None) => true,
        (Some(x), Some(y)) => x.0 == y.0 && x.1 == y.1,
        _ => false,
    }
}

/// Whether the scope `new` lies below the scope `current`.
pub fn is_scope_below(
    new: &Option<(String, String)>,
    current: &Option<(String, String)>,
) -> (below: bool)
    ensures
        below == scope_below(new.deep_view(), current.deep_view()),
{
    match (current, new) {
        (None, Some(_)) => true,
        (Some(c), Some(n)) => {
            if c.0 == n.0 {
                let shorter = chars_of(c.1.as_str());
                let longer = chars_of(n.1.as_str());
                shorter.len() < longer.len() && starts_with_chars(&longer, &shorter)
            } else {
                false
            }
        },
        _ => false,
    }
}

/// One level of the stack: a listing, the items it is shown as, and the
/// cursor.
pub struct S3ItemViewModel {
    list: StatefulList<S3Item>,
    output: S3Output,
}

impl View for S3ItemViewModel {
    type V = FrameView;

    closed spec fn view(&self) -> FrameView {
        FrameView {
            output: self.output@,
            list: ListView { items: item_views(self.list@.items), cursor: self.list@.cursor },
        }
    }
}

impl DeepView for S3ItemViewModel {
    type V = FrameView;

    open spec fn deep_view(&self) -> FrameView {
        self@
    }
}

impl S3ItemViewModel {
    /// What holds of every level at all times: its items are those of its
    /// listing, and its cursor is on one of them exactly when there is one.
    #[verifier::type_invariant]
    pub open spec fn inv(self) -> bool {
        self@.wf()
    }

    /// The cursor and the items of this level.
    pub fn items(&self) -> (list: &StatefulList<S3Item>)
        ensures
            item_views(list@.items) == self@.list.items,
            list@.cursor == self@.list.cursor,
            self@.wf(),
    {
        proof {
            use_type_invariant(self);
        }
        &self.list
    }

    /// The items a list of buckets is shown as.
    pub fn make_s3_item_from_buckets(output: &Vec<BucketWithLocation>) -> (items: Vec<S3Item>)
        ensures
            items.deep_view() == OutputView::Buckets(output.deep_view()).items(),
    {
        let mut items: Vec<S3Item> = Vec::new();
        let mut i: usize = 0;
        while i < output.len()
            invariant
                i <= output.len(),
                items.len() == i,
                forall|j: int| 0 <= j < i ==> items@[j]@ == ItemView::Bucket(output@[j]@),
            decreases output.len() - i,
        {
            items.push(S3Item::Bucket(output[i].clone()));
            i += 1;
        }
        assert(items.deep_view() =~= OutputView::Buckets(output.deep_view()).items());
        items
    }

    /// The items one level of a bucket is shown as.
    pub fn make_s3_item_from_objects(output: &ObjectListing) -> (items: Vec<S3Item>)
        ensures
            items.deep_view() == OutputView::Objects(output@).items(),
    {
        let mut items: Vec<S3Item> = Vec::new();
        items.push(S3Item::Pop);
        let prefixes = &output.common_prefixes;
        let mut i: usize = 0;
        while i < prefixes.len()
            invariant
                i <= prefixes.len(),
                items.len() == 1 + i,
                items@[0]@ == ItemView::Pop,
                forall|j: int| 0 <= j < i ==> items@[1 + j]@ == ItemView::CommonPrefix(prefixes@[j]@),
            decreases prefixes.len() - i,
        {
            items.push(S3Item::from(prefixes[i].clone()));
            i += 1;
        }
        let contents = &output.contents;
        let mut k: usize = 0;
        while k < contents.len()
            invariant
                k <= contents.len(),
                items.len() == 1 + prefixes.len() + k,
                items@[0]@ == ItemView::Pop,
                forall|j: int|
                    0 <= j < prefixes.len() ==> items@[1 + j]@ == ItemView::CommonPrefix(
                        prefixes@[j]@,
                    ),
                forall|j: int|
                    0 <= j < k ==> items@[1 + prefixes.len() + j]@ == ItemView::Object(contents@[j]@),
            decreases contents.len() - k,
        {
            items.push(S3Item::from(contents[k].clone()));
            k += 1;
        }
        assert(items.deep_view() =~= OutputView::Objects(output@).items());
        items
    }

    /// The items a listing is shown as.
    pub fn make_s3_item_from_output(s3_output: &S3Output) -> (items: Vec<S3Item>)
        ensures
            items.deep_view() == s3_output@.items(),
    {
        match s3_output {
            S3Output::Buckets(output) => Self::make_s3_item_from_buckets(output),
            S3Output::Objects(output) => Self::make_s3_item_from_objects(output),
        }
    }

    /// A level for a listing that has just arrived.
    pub fn new(s3_output: S3Output) -> (frame: Self)
        ensures
            frame@ == FrameView::fresh(s3_output@),
    {
        let items = Self::make_s3_item_from_output(&s3_output);
        assert(item_views(items@) =~= items.deep_view());
        S3ItemViewModel { list: StatefulList::new(items), output: s3_output }
    }

    /// Replaces the listing of this level by a newer one. The cursor keeps
    /// its index as far as the new items reach.
    pub fn update_output(&mut self, s3_output: S3Output)
        ensures
            final(self)@ == old(self)@.refreshed(s3_output@),
    {
        let items = Self::make_s3_item_from_output(&s3_output);
        assert(item_views(items@) =~= items.deep_view());
        *self = S3ItemViewModel { list: self.list.with_items(items), output: s3_output };
    }

    /// The listing of this level.
    pub fn output(&self) -> (output: &S3Output)
        ensures
            output@ == self@.output,
            self@.wf(),
    {
        proof {
            use_type_invariant(self);
        }
        &self.output
    }

    /// The item under the cursor.
    pub fn selected(&self) -> (item: Option<&S3Item>)
        ensures
            item.deep_view() == self@.list.selected(),
            self@.wf(),
    {
        proof {
            use_type_invariant(self);
        }
        self.list.selected()
    }

    /// Moves the cursor one item down, from the last item to the first.
    pub fn next(&mut self)
        ensures
            final(self)@ == old(self)@.with_list(old(self)@.list.next()),
    {
        proof {
            use_type_invariant(&*self);
        }
        self.list.next();
    }

    /// Moves the cursor one item up, from the first item to the last.
    pub fn previous(&mut self)
        ensures
            final(self)@ == old(self)@.with_list(old(self)@.list.previous()),
    {
        proof {
            use_type_invariant(&*self);
        }
        self.list.previous();
    }

    /// Moves the cursor to the first item.
    pub fn first(&mut self)
        ensures
            final(self)@ == old(self)@.with_list(old(self)@.list.first()),
    {
        proof {
            use_type_invariant(&*self);
        }
        self.list.first();
    }

    /// Moves the cursor to the last item.
    pub fn last(&mut self)
        ensures
            final(self)@ == old(self)@.with_list(old(self)@.list.last()),
    {
        proof {
            use_type_invariant(&*self);
        }
        self.list.last();
    }

    /// The first index at or after `from` whose item a search for
    /// `search_text` finds, or the number of items when there is none.
    pub fn find_match_from(&self, search_text: &str, from: usize) -> (at: usize)
        ensures
            at == first_match_from(self@.list.items, search_text@, from as int),
    {
        let items = self.list.items();
        let mut i: usize = from;
        while i < items.len()
            invariant
                items@ == self.list@.items,
                first_match_from(self@.list.items, search_text@, from as int) == first_match_from(
                    self@.list.items,
                    search_text@,
                    i as int,
                ),
            decreases items.len() - i,
        {
            if items[i].is_matched(search_text) {
                return i;
            }
            i += 1;
        }
        items.len()
    }

    /// Moves the cursor to the next item that a search for `search_text`
    /// finds: the first match after the cursor, or else the first match of
    /// all. Where nothing matches, the cursor stays.
    pub fn search_next(&mut self, search_text: &str)
        ensures
            final(self)@ == old(self)@.search_next(search_text@),
    {
        proof {
            use_type_invariant(&*self);
        }
        let n: usize = self.list.items().len();
        let start: usize = match self.list.selected_index() {
            Some(i) => i + 1,
            None => 1,
        };
        let after: usize = self.find_match_from(search_text, start);
        if after < n {
            self.list.select(after);
        } else {
            let any: usize = self.find_match_from(search_text, 0);
            if any < n {
                self.list.select(any);
            }
        }
    }
}

/// The scheme every address of a bucket or an object begins with.
pub open spec fn scheme() -> Seq<char> {
    "s3://"@
}

/// The address of a bucket.
pub open spec fn bucket_uri(bucket: Seq<char>) -> Seq<char> {
    scheme() + bucket
}

/// The address of a key or a prefix in a bucket.
pub open spec fn key_uri(bucket: Seq<char>, key: Seq<char>) -> Seq<char> {
    scheme() + bucket + "/"@ + key
}

/// The level on top of the stack, which is the one on screen.
pub open spec fn top(stack: Seq<FrameView>) -> Option<FrameView> {
    if stack.len() > 0 {
        Some(stack.last())
    } else {
        None
    }
}

/// The scope on screen: that of the top level, nothing on an empty stack.
pub open spec fn current_scope(stack: Seq<FrameView>) -> Scope {
    match top(stack) {
        Some(frame) => frame.output.scope(),
        None => None,
    }
}

/// The item under the cursor of the top level.
pub open spec fn selected_item(stack: Seq<FrameView>) -> Option<ItemView> {
    match top(stack) {
        Some(frame) => frame.list.selected(),
        None => None,
    }
}

/// The stack with `frame` in place of its top level. An empty stack stays
/// empty.
pub open spec fn with_top(stack: Seq<FrameView>, frame: FrameView) -> Seq<FrameView> {
    if stack.len() > 0 {
        stack.update(stack.len() - 1, frame)
    } else {
        stack
    }
}

/// The stack with the cursor of its top level moved one item down.
pub open spec fn stack_next(stack: Seq<FrameView>) -> Seq<FrameView> {
    match top(stack) {
        Some(frame) => with_top(stack, frame.with_list(frame.list.next())),
        None => stack,
    }
}

/// The stack with the cursor of its top level moved one item up.
pub open spec fn stack_previous(stack: Seq<FrameView>) -> Seq<FrameView> {
    match top(stack) {
        Some(frame) => with_top(stack, frame.with_list(frame.list.previous())),
        None => stack,
    }
}

/// The stack with the cursor of its top level on the first item.
pub open spec fn stack_first(stack: Seq<FrameView>) -> Seq<FrameView> {
    match top(stack) {
        Some(frame) => with_top(stack, frame.with_list(frame.list.first())),
        None => stack,
    }
}

/// The stack with the cursor of its top level on the last item.
pub open spec fn stack_last(stack: Seq<FrameView>) -> Seq<FrameView> {
    match top(stack) {
        Some(frame) => with_top(stack, frame.with_list(frame.list.last())),
        None => stack,
    }
}

/// The stack after a search for `text` in its top level.
pub open spec fn stack_search_next(stack: Seq<FrameView>, text: Seq<char>) -> Seq<FrameView> {
    match top(stack) {
        Some(frame) => with_top(stack, frame.search_next(text)),
        None => stack,
    }
}

/// The stack with a new level for `output` on top.
pub open spec fn pushed(stack: Seq<FrameView>, output: OutputView) -> Seq<FrameView> {
    stack.push(FrameView::fresh(output))
}

/// The stack without its top level.
pub open spec fn popped(stack: Seq<FrameView>) -> Seq<FrameView> {
    if stack.len() > 0 {
        stack.drop_last()
    } else {
        stack
    }
}

/// The stack after a listing has arrived.
///
/// On an empty stack the listing becomes the first level. A listing for the
/// scope on screen replaces the listing of the top level, whose cursor
/// keeps its index. A listing for a scope below the one on screen becomes a
/// new level. Any other listing is for a scope that has been left, and is
/// dropped.
pub open spec fn merged(stack: Seq<FrameView>, output: OutputView) -> Seq<FrameView> {
    if stack.len() == 0 {
        pushed(stack, output)
    } else if output.scope() == current_scope(stack) {
        with_top(stack, stack.last().refreshed(output))
    } else if scope_below(output.scope(), current_scope(stack)) {
        pushed(stack, output)
    } else {
        stack
    }
}

/// Every level of the stack has the items of its listing, and its cursor on
/// one of them exactly when there is one.
pub open spec fn all_wf(stack: Seq<FrameView>) -> bool {
    forall|i: int| 0 <= i < stack.len() ==> (#[trigger] stack[i]).wf()
}

/// The stack only ever grows downwards: each level but the first lies
/// below the one before it.
pub open spec fn descending(stack: Seq<FrameView>) -> bool {
    forall|i: int|
        0 < i < stack.len() ==> scope_below(
            (#[trigger] stack[i]).output.scope(),
            stack[i - 1].output.scope(),
        )
}

/// The address of the selected item: of the bucket, of the prefix or the
/// key in the bucket on screen, or, for the way back, of the level on
/// screen itself. Empty where nothing is selected.
pub open spec fn selected_uri(stack: Seq<FrameView>) -> Seq<char> {
    match selected_item(stack) {
        Some(ItemView::Bucket(b)) => bucket_uri(b.name),
        Some(ItemView::CommonPrefix(p)) => match current_scope(stack) {
            Some((bucket, _)) => key_uri(bucket, p),
            None => Seq::empty(),
        },
        Some(ItemView::Object(o)) => match current_scope(stack) {
            Some((bucket, _)) => key_uri(bucket, o.key),
            None => Seq::empty(),
        },
        Some(ItemView::Pop) => match current_scope(stack) {
            Some((bucket, prefix)) => key_uri(bucket, prefix),
            None => Seq::empty(),
        },
        None => Seq::empty(),
    }
}

/// The heading of the screen: the address of the level on screen, or a call
/// to choose a bucket.
pub open spec fn heading(stack: Seq<FrameView>) -> Seq<char> {
    match current_scope(stack) {
        Some((bucket, prefix)) => key_uri(bucket, prefix) + "    "@,
        None => "bucket selection    "@,
    }
}

/// The address of a key or a prefix in a bucket.
pub fn make_key_uri(bucket: &str, key: &str) -> (uri: String)
    ensures
        uri@ == key_uri(bucket@, key@),
{
    let mut uri = "s3://".to_owned();
    uri.append(bucket);
    uri.append("/");
    uri.append(key);
    uri
}

/// The stack of levels, from the one entered first to the one on screen.
pub struct S3ItemsViewModel {
    pub list_stack: Vec<S3ItemViewModel>,
}

impl View for S3ItemsViewModel {
    type V = Seq<FrameView>;

    open spec fn view(&self) -> Seq<FrameView> {
        self.list_stack.deep_view()
    }
}

impl S3ItemsViewModel {
    /// The stack before the first listing has arrived.
    pub fn new() -> (vm: Self)
        ensures
            vm@ == Seq::<FrameView>::empty(),
    {
        let vm = S3ItemsViewModel { list_stack: Vec::new() };
        assert(vm@ =~= Seq::<FrameView>::empty());
        vm
    }

    /// The number of levels.
    pub fn depth(&self) -> (depth: usize)
        ensures
            depth == self@.len(),
    {
        self.list_stack.len()
    }

    /// The rows of the level on screen and the index of the selected one.
    pub fn make_item_list_view(&self) -> (view: Option<
        (Vec<(String, String, String)>, Option<usize>),
    >)
        ensures
            match view {
                Some((rows, cursor)) => {
                    &&& top(self@) is Some
                    &&& top(self@)->0.wf()
                    &&& rows.deep_view() == display_rows(top(self@)->0.list.items)
                    &&& cursor_view(cursor) == top(self@)->0.list.cursor
                },
                None => top(self@) is None,
            },
    {
        let n: usize = self.list_stack.len();
        if n == 0 {
            None
        } else {
            let list = self.list_stack[n - 1].items();
            Some((display_rows_of(list.items()), list.state()))
        }
    }

    /// The heading of the screen.
    pub fn make_currenent_common_prefix_view(&self) -> (title: String)
        ensures
            title@ == heading(self@),
    {
        match self.bucket_and_prefix() {
            Some((bucket, prefix)) => {
                let mut title = make_key_uri(bucket.as_str(), prefix.as_str());
                title.append("    ");
                title
            },
            None => "bucket selection    ".to_owned(),
        }
    }

    /// Moves the cursor of the level on screen to the next match of a
    /// search for `search_text`.
    pub fn search_next(&mut self, search_text: &str)
        ensures
            final(self)@ == stack_search_next(old(self)@, search_text@),
    {
        let n: usize = self.list_stack.len();
        if n > 0 {
            self.list_stack[n - 1].search_next(search_text);
            assert(self@ =~= stack_search_next(old(self)@, search_text@));
        }
    }

    /// The address of the selected item.
    pub fn selected_s3_uri(&self) -> (uri: String)
        ensures
            uri@ == selected_uri(self@),
    {
        match self.selected() {
            Some(S3Item::Bucket(b)) => {
                let mut uri = "s3://".to_owned();
                uri.append(b.name.as_str());
                uri
            },
            Some(S3Item::CommonPrefix(d)) => {
                match self.bucket_and_prefix() {
                    Some((bucket, _)) => make_key_uri(bucket.as_str(), d.prefix.as_str()),
                    None => String::new(),
                }
            },
            Some(S3Item::Object(k)) => {
                match self.bucket_and_prefix() {
                    Some((bucket, _)) => make_key_uri(bucket.as_str(), k.key.as_str()),
                    None => String::new(),
                }
            },
            Some(S3Item::Pop) => {
                match self.bucket_and_prefix() {
                    Some((bucket, prefix)) => make_key_uri(bucket.as_str(), prefix.as_str()),
                    None => String::new(),
                }
            },
            None => String::new(),
        }
    }

    /// Moves the cursor of the level on screen to the last item.
    pub fn last(&mut self)
        ensures
            final(self)@ == stack_last(old(self)@),
    {
        let n: usize = self.list_stack.len();
        if n > 0 {
            self.list_stack[n - 1].last();
            assert(self@ =~= stack_last(old(self)@));
        }
    }

    /// Moves the cursor of the level on screen to the first item.
    pub fn first(&mut self)
        ensures
            final(self)@ == stack_first(old(self)@),
    {
        let n: usize = self.list_stack.len();
        if n > 0 {
            self.list_stack[n - 1].first();
            assert(self@ =~= stack_first(old(self)@));
        }
    }

    /// Moves the cursor of the level on screen one item down.
    pub fn next(&mut self)
        ensures
            final(self)@ == stack_next(old(self)@),
    {
        let n: usize = self.list_stack.len();
        if n > 0 {
            self.list_stack[n - 1].next();
            assert(self@ =~= stack_next(old(self)@));
        }
    }

    /// Moves the cursor of the level on screen one item up.
    pub fn previous(&mut self)
        ensures
            final(self)@ == stack_previous(old(self)@),
    {
        let n: usize = self.list_stack.len();
        if n > 0 {
            self.list_stack[n - 1].previous();
            assert(self@ =~= stack_previous(old(self)@));
        }
    }

    /// Takes the level on screen off the stack and hands it out.
    pub fn pop(&mut self) -> (frame: Option<S3ItemViewModel>)
        ensures
            final(self)@ == popped(old(self)@),
            frame.deep_view() == top(old(self)@),
    {
        let frame = self.list_stack.pop();
        assert(self@ =~= popped(old(self)@));
        frame
    }

    /// Puts a new level for `s3_output` on the stack.
    pub fn push(&mut self, s3_output: S3Output)
        ensures
            final(self)@ == pushed(old(self)@, s3_output@),
    {
        self.list_stack.push(S3ItemViewModel::new(s3_output));
        assert(self@ =~= pushed(old(self)@, s3_output@));
    }

    /// Takes in a listing that has arrived: see `merged`.
    pub fn update(&mut self, s3_output: S3Output)
        ensures
            final(self)@ == merged(old(self)@, s3_output@),
    {
        let n: usize = self.list_stack.len();
        if n == 0 {
            self.push(s3_output);
        } else {
            let current = self.bucket_and_prefix();
            let arrived = s3_output.bucket_and_prefix();
            if same_scope(&arrived, &current) {
                self.list_stack[n - 1].update_output(s3_output);
                assert(self@ =~= merged(old(self)@, s3_output@));
            } else if is_scope_below(&arrived, &current) {
                self.push(s3_output);
            }
        }
    }

    /// The item under the cursor of the level on screen.
    pub fn selected(&self) -> (item: Option<&S3Item>)
        ensures
            item.deep_view() == selected_item(self@),
            top(self@) is Some ==> top(self@)->0.wf(),
    {
        let n: usize = self.list_stack.len();
        if n == 0 {
            None
        } else {
            self.list_stack[n - 1].selected()
        }
    }

    /// The bucket and the prefix on screen.
    pub fn bucket_and_prefix(&self) -> (scope: Option<(String, String)>)
        ensures
            scope.deep_view() == current_scope(self@),
    {
        let n: usize = self.list_stack.len();
        if n == 0 {
            None
        } else {
            self.list_stack[n - 1].output().bucket_and_prefix()
        }
    }
}

} // verus!
