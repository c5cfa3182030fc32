//! The items of a listing and the rows they are shown as.

use crate::s3::client::{BucketView, BucketWithLocation};
use crate::text::{chars_of, contains_chars, has_substring, last_component, last_component_of};
use aws_smithy_types::date_time::{DateTime, DateTimeFormatError, Format};
use bytesize::ByteSize;
use vstd::prelude::*;
use vstd::string::*;

verus! {

/// The error of `aws_smithy_types::DateTime::fmt`. Nothing is read from it.
#[verifier::external_type_specification]
#[verifier::external_body]
pub struct ExDateTimeFormatError(DateTimeFormatError);

/// The RFC 3339 text of the instant `seconds` and `subsec_nanos` after the
/// Unix epoch, as `aws_smithy_types::DateTime::fmt` writes it, or `None`
/// where it reports that the instant cannot be written in that format.
pub uninterp spec fn rfc3339_text(seconds: i64, subsec_nanos: u32) -> Option<Seq<char>>;

/// The text that `bytesize::ByteSize::to_string_as` gives for a number of
/// bytes: with binary units when `si_unit` is set, with decimal units
/// otherwise.
pub uninterp spec fn byte_size_text(bytes: u64, si_unit: bool) -> Seq<char>;

/// Calls `aws_smithy_types::DateTime::from_secs_and_nanos` and then
/// `DateTime::fmt` with `Format::DateTime`.
///
/// The first panics on a nanosecond count of a second or more, which the
/// precondition rules out. The result depends on the two numbers alone;
/// the contract gives it the name `rfc3339_text`.
#[verifier::external_body]
fn format_date_time(seconds: i64, subsec_nanos: u32) -> (text: Result<String, DateTimeFormatError>)
    requires
        subsec_nanos < NANOS_PER_SECOND,
    ensures
        match text {
            Ok(t) => rfc3339_text(seconds, subsec_nanos) == Some(t@),
            Err(_) => rfc3339_text(seconds, subsec_nanos) is None,
        },
{
    DateTime::from_secs_and_nanos(seconds, subsec_nanos).fmt(Format::DateTime)
}

/// Calls `bytesize::ByteSize::to_string_as`.
///
/// The result depends on the two arguments alone; the contract gives it the
/// name `byte_size_text`.
#[verifier::external_body]
fn humanize_bytes(bytes: u64, si_unit: bool) -> (text: String)
    ensures
        text@ == byte_size_text(bytes, si_unit),
{
    ByteSize(bytes).to_string_as(si_unit)
}

/// The nanoseconds in one second.
pub const NANOS_PER_SECOND: u32 = 1_000_000_000;

/// An instant: whole seconds since the Unix epoch, and the nanoseconds
/// into that second.
#[derive(Clone, Copy, Debug)]
pub struct Timestamp {
    seconds: i64,
    subsec_nanos: u32,
}

/// An instant as two numbers.
pub struct TimestampView {
    pub seconds: i64,
    pub subsec_nanos: u32,
}

impl View for Timestamp {
    type V = TimestampView;

    closed spec fn view(&self) -> TimestampView {
        TimestampView { seconds: self.seconds, subsec_nanos: self.subsec_nanos }
    }
}

impl DeepView for Timestamp {
    type V = TimestampView;

    open spec fn deep_view(&self) -> TimestampView {
        self@
    }
}

/// The text a modification time is shown as: its RFC 3339 form, or nothing
/// where it has none.
pub open spec fn date_text(t: TimestampView) -> Seq<char> {
    match rfc3339_text(t.seconds, t.subsec_nanos) {
        Some(text) => text,
        None => Seq::empty(),
    }
}

/// The formatted date, or the empty string where formatting failed.
pub fn text_or_empty(formatted: Result<String, DateTimeFormatError>) -> (text: String)
    ensures
        text@ == (match formatted {
            Ok(t) => t@,
            Err(_) => Seq::<char>::empty(),
        }),
{
    match formatted {
        Ok(t) => t,
        Err(_) => String::new(),
    }
}

impl Timestamp {
    #[verifier::type_invariant]
    spec fn inv(self) -> bool {
        self.subsec_nanos < NANOS_PER_SECOND
    }

    /// The instant `subsec_nanos` nanoseconds after second `seconds`.
    /// There is none when `subsec_nanos` is a whole second or more.
    pub fn new(seconds: i64, subsec_nanos: u32) -> (t: Option<Timestamp>)
        ensures
            t is Some <==> subsec_nanos < NANOS_PER_SECOND,
            t is Some ==> t->0@ == (TimestampView { seconds, subsec_nanos }),
    {
        if subsec_nanos < NANOS_PER_SECOND {
            Some(Timestamp { seconds, subsec_nanos })
        } else {
            None
        }
    }

    /// The whole seconds since the Unix epoch.
    pub fn seconds(&self) -> (seconds: i64)
        ensures
            seconds == self@.seconds,
    {
        self.seconds
    }

    /// The nanoseconds into the second.
    pub fn subsec_nanos(&self) -> (nanos: u32)
        ensures
            nanos == self@.subsec_nanos,
            nanos < NANOS_PER_SECOND,
    {
        proof {
            use_type_invariant(self);
        }
        self.subsec_nanos
    }

    /// The instant in RFC 3339 form; empty where it has no such form.
    pub fn to_text(&self) -> (text: String)
        ensures
            text@ == date_text(self@),
    {
        proof {
            use_type_invariant(self);
        }
        text_or_empty(format_date_time(self.seconds, self.subsec_nanos))
    }
}

/// A group of keys that share everything up to a delimiter.
#[derive(Debug)]
pub struct CommonPrefix {
    /// The whole prefix, from the root of the bucket.
    pub prefix: String,
}

impl View for CommonPrefix {
    type V = Seq<char>;

    open spec fn view(&self) -> Seq<char> {
        self.prefix@
    }
}

impl DeepView for CommonPrefix {
    type V = Seq<char>;

    open spec fn deep_view(&self) -> Seq<char> {
        self@
    }
}

impl Clone for CommonPrefix {
    fn clone(&self) -> (copy: Self)
        ensures
            copy == *self,
    {
        CommonPrefix { prefix: self.prefix.clone() }
    }
}

/// A stored object.
#[derive(Debug)]
pub struct Object {
    /// The whole key, from the root of the bucket.
    pub key: String,
    /// The size in bytes.
    pub size: u64,
    /// When the object was last written, where the service says so.
    pub last_modified: Option<Timestamp>,
}

/// An object as plain mathematical values.
pub struct ObjectView {
    pub key: Seq<char>,
    pub size: u64,
    pub last_modified: Option<TimestampView>,
}

impl View for Object {
    type V = ObjectView;

    open spec fn view(&self) -> ObjectView {
        ObjectView {
            key: self.key@,
            size: self.size,
            last_modified: self.last_modified.deep_view(),
        }
    }
}

impl DeepView for Object {
    type V = ObjectView;

    open spec fn deep_view(&self) -> ObjectView {
        self@
    }
}

impl Clone for Object {
    fn clone(&self) -> (copy: Self)
        ensures
            copy == *self,
    {
        Object { key: self.key.clone(), size: self.size, last_modified: self.last_modified }
    }
}

/// The kinds of item, in the order in which a listing shows them.
#[derive(Clone, Copy, Debug, PartialEq, Eq, Structural)]
pub enum S3ItemType {
    Pop,
    Bucket,
    CommonPrefix,
    Object,
}

/// One line of a listing.
#[derive(Debug)]
pub enum S3Item {
    /// The way back to the level above.
    Pop,
    Bucket(BucketWithLocation),
    CommonPrefix(CommonPrefix),
    Object(Object),
}

/// An item as plain mathematical values.
pub enum ItemView {
    Pop,
    Bucket(BucketView),
    CommonPrefix(Seq<char>),
    Object(ObjectView),
}

impl View for S3Item {
    type V = ItemView;

    open spec fn view(&self) -> ItemView {
        match self {
            S3Item::Pop => ItemView::Pop,
            S3Item::Bucket(b) => ItemView::Bucket(b@),
            S3Item::CommonPrefix(p) => ItemView::CommonPrefix(p@),
            S3Item::Object(o) => ItemView::Object(o@),
        }
    }
}

impl DeepView for S3Item {
    type V = ItemView;

    open spec fn deep_view(&self) -> ItemView {
        self@
    }
}

/// The three columns of a row: date or marker, size or location, name.
pub type RowView = (Seq<char>, Seq<char>, Seq<char>);

impl ItemView {
    /// The kind of the item.
    pub open spec fn item_type(self) -> S3ItemType {
        match self {
            ItemView::Pop => S3ItemType::Pop,
            ItemView::Bucket(_) => S3ItemType::Bucket,
            ItemView::CommonPrefix(_) => S3ItemType::CommonPrefix,
            ItemView::Object(_) => S3ItemType::Object,
        }
    }

    /// The name a search looks at: the bucket's name, or the last component
    /// of the prefix or key. The way back has none.
    pub open spec fn display_name(self) -> Option<Seq<char>> {
        match self {
            ItemView::Pop => None,
            ItemView::Bucket(b) => Some(b.name),
            ItemView::CommonPrefix(p) => Some(last_component_of(p)),
            ItemView::Object(o) => Some(last_component_of(o.key)),
        }
    }

    /// Whether a search for `text` finds the item: its display name holds
    /// `text` as a substring.
    pub open spec fn matches(self, text: Seq<char>) -> bool {
        match self.display_name() {
            Some(name) => has_substring(name, text),
            None => false,
        }
    }

    /// What identifies the item among those of its kind.
    pub open spec fn identity(self) -> Seq<char> {
        match self {
            ItemView::Pop => Seq::empty(),
            ItemView::Bucket(b) => b.name,
            ItemView::CommonPrefix(p) => p,
            ItemView::Object(o) => o.key,
        }
    }

    /// Two items are the same item when they are of the same kind and have
    /// the same identity.
    pub open spec fn same_item(self, other: ItemView) -> bool {
        self.item_type() == other.item_type() && self.identity() == other.identity()
    }

    /// The row the item is shown as.
    pub open spec fn row(self) -> RowView {
        match self {
            ItemView::Pop => (".."@, Seq::empty(), Seq::empty()),
            ItemView::Bucket(b) => (
                Seq::empty(),
                if b.location.len() > 0 {
                    b.location
                } else {
                    "unknown"@
                },
                b.name,
            ),
            ItemView::CommonPrefix(p) => ("PRE"@, Seq::empty(), last_component_of(p)),
            ItemView::Object(o) => (
                match o.last_modified {
                    Some(t) => date_text(t),
                    None => Seq::empty(),
                },
                byte_size_text(o.size, true),
                last_component_of(o.key),
            ),
        }
    }
}

/// The row of an object whose date and size are already written out.
pub fn object_row(modified: String, size: String, key: &str) -> (row: (String, String, String))
    ensures
        row@ == (modified@, size@, last_component_of(key@)),
{
    (modified, size, last_component(key))
}

impl S3Item {
    /// Whether a search for `search_text` finds this item.
    pub fn is_matched(&self, search_text: &str) -> (found: bool)
        ensures
            found == self@.matches(search_text@),
    {
        let needle = chars_of(search_text);
        match self {
            S3Item::Pop => false,
            S3Item::Bucket(b) => {
                let name = chars_of(b.name.as_str());
                contains_chars(&name, &needle)
            },
            S3Item::CommonPrefix(c) => {
                let component = last_component(c.prefix.as_str());
                let name = chars_of(component.as_str());
                contains_chars(&name, &needle)
            },
            S3Item::Object(k) => {
                let component = last_component(k.key.as_str());
                let name = chars_of(component.as_str());
                contains_chars(&name, &needle)
            },
        }
    }

    /// The kind of this item.
    pub fn get_type(&self) -> (kind: S3ItemType)
        ensures
            kind == self@.item_type(),
    {
        match self {
            S3Item::Pop => S3ItemType::Pop,
            S3Item::Bucket(_) => S3ItemType::Bucket,
            S3Item::CommonPrefix(_) => S3ItemType::CommonPrefix,
            S3Item::Object(_) => S3ItemType::Object,
        }
    }

    /// The three columns this item is shown as.
    pub fn as_row(&self) -> (row: (String, String, String))
        ensures
            row@ == self@.row(),
    {
        match self {
            S3Item::CommonPrefix(d) => (
                "PRE".to_owned(),
                String::new(),
                last_component(d.prefix.as_str()),
            ),
            S3Item::Object(k) => {
                let modified = match &k.last_modified {
                    Some(m) => m.to_text(),
                    None => String::new(),
                };
                object_row(modified, humanize_bytes(k.size, true), k.key.as_str())
            },
            S3Item::Bucket(b) => {
                let location = if b.location.as_str().unicode_len() > 0 {
                    b.location.clone()
                } else {
                    "unknown".to_owned()
                };
                (String::new(), location, b.name.clone())
            },
            S3Item::Pop => ("..".to_owned(), String::new(), String::new()),
        }
    }
}

impl Clone for S3Item {
    fn clone(&self) -> (copy: Self)
        ensures
            copy == *self,
    {
        match self {
            S3Item::Pop => S3Item::Pop,
            S3Item::Bucket(b) => S3Item::Bucket(b.clone()),
            S3Item::CommonPrefix(p) => S3Item::CommonPrefix(p.clone()),
            S3Item::Object(o) => S3Item::Object(o.clone()),
        }
    }
}

impl PartialEq for S3Item {
    fn eq(&self, other: &Self) -> (same: bool)
    {
        match (self, other) {
            (S3Item::Pop, S3Item::Pop) => true,
            (S3Item::Bucket(a), S3Item::Bucket(b)) => a.name == b.name,
            (S3Item::CommonPrefix(a), S3Item::CommonPrefix(b)) => a.prefix == b.prefix,
            (S3Item::Object(a), S3Item::Object(b)) => a.key == b.key,
            _ => false,
        }
    }
}

impl vstd::std_specs::cmp::PartialEqSpecImpl for S3Item {
    open spec fn obeys_eq_spec() -> bool {
        true
    }

    open spec fn eq_spec(&self, other: &Self) -> bool {
        self@.same_item(other@)
    }
}

impl From<BucketWithLocation> for S3Item {
    fn from(bucket: BucketWithLocation) -> (item: Self)
    {
        S3Item::Bucket(bucket)
    }
}

impl vstd::std_specs::convert::FromSpecImpl<BucketWithLocation> for S3Item {
    open spec fn obeys_from_spec() -> bool {
        true
    }

    open spec fn from_spec(bucket: BucketWithLocation) -> Self {
        S3Item::Bucket(bucket)
    }
}

impl From<CommonPrefix> for S3Item {
    fn from(common_prefix: CommonPrefix) -> (item: Self)
    {
        S3Item::CommonPrefix(common_prefix)
    }
}

impl vstd::std_specs::convert::FromSpecImpl<CommonPrefix> for S3Item {
    open spec fn obeys_from_spec() -> bool {
        true
    }

    open spec fn from_spec(common_prefix: CommonPrefix) -> Self {
        S3Item::CommonPrefix(common_prefix)
    }
}

impl From<Object> for S3Item {
    fn from(object: Object) -> (item: Self)
    {
        S3Item::Object(object)
    }
}

impl vstd::std_specs::convert::FromSpecImpl<Object> for S3Item {
    open spec fn obeys_from_spec() -> bool {
        true
    }

    open spec fn from_spec(object: Object) -> Self {
        S3Item::Object(object)
    }
}

} // verus!
