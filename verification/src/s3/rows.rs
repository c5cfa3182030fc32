//! From the items of a level to the rows on screen: the items are grouped
//! by kind, and within each group the first two columns are right-aligned.

use crate::s3::model::{ItemView, RowView, S3Item, S3ItemType};
use crate::s3::view_model::item_views;
use crate::text::{
    blank_string,
    blanks,
    byte_len,
    lemma_byte_len_blanks,
    lemma_byte_len_concat,
    width_of,
};
use vstd::prelude::*;
use vstd::string::*;

verus! {

/// The test for items of one kind.
pub open spec fn of_kind(kind: S3ItemType) -> spec_fn(ItemView) -> bool {
    |item: ItemView| item.item_type() == kind
}

/// The rows of the items of one kind, in the order of the items.
pub open spec fn rows_of_kind(items: Seq<ItemView>, kind: S3ItemType) -> Seq<RowView> {
    items.filter(of_kind(kind)).map_values(|item: ItemView| item.row())
}

/// The cell of a row in column 0, 1 or 2.
pub open spec fn cell(row: RowView, column: int) -> Seq<char> {
    if column == 0 {
        row.0
    } else if column == 1 {
        row.1
    } else {
        row.2
    }
}

/// The width of the widest cell of a column, 0 where there are no rows.
pub open spec fn widest(rows: Seq<RowView>, column: int) -> nat
    decreases rows.len(),
{
    if rows.len() == 0 {
        0
    } else {
        let before = widest(rows.drop_last(), column);
        let here = byte_len(cell(rows.last(), column));
        if here > before {
            here
        } else {
            before
        }
    }
}

/// No cell of a column is wider than the widest.
pub proof fn lemma_widest(rows: Seq<RowView>, column: int, i: int)
    requires
        0 <= i < rows.len(),
    ensures
        byte_len(cell(rows[i], column)) <= widest(rows, column),
    decreases rows.len(),
{
    if i < rows.len() - 1 {
        lemma_widest(rows.drop_last(), column, i);
    }
}

/// A cell filled up with blanks on its left to `width`, and one blank
/// after it.
pub open spec fn padded(text: Seq<char>, width: nat) -> Seq<char> {
    blanks(width - byte_len(text)) + text + seq![' ']
}

/// The rows with their first two columns filled up to the widest cell of
/// each. The third column stays as it is.
pub open spec fn aligned(rows: Seq<RowView>) -> Seq<RowView> {
    rows.map_values(
        |row: RowView| (padded(row.0, widest(rows, 0)), padded(row.1, widest(rows, 1)), row.2),
    )
}

/// The rows a level is shown as: the way back, then buckets, then prefixes,
/// then objects; each kind in the order of the listing, and aligned within
/// itself.
pub open spec fn display_rows(items: Seq<ItemView>) -> Seq<RowView> {
    aligned(rows_of_kind(items, S3ItemType::Pop)) + aligned(
        rows_of_kind(items, S3ItemType::Bucket),
    ) + aligned(rows_of_kind(items, S3ItemType::CommonPrefix)) + aligned(
        rows_of_kind(items, S3ItemType::Object),
    )
}

/// Grouping by kind neither drops nor repeats an item: there are as many
/// rows as items.
pub proof fn lemma_display_rows_len(items: Seq<ItemView>)
    ensures
        display_rows(items).len() == items.len(),
    decreases items.len(),
{
    if items.len() == 0 {
        reveal(Seq::filter);
    } else {
        let front = items.drop_last();
        let item = items.last();
        lemma_display_rows_len(front);
        assert(items =~= front.push(item));
        front.lemma_filter_push(item, of_kind(S3ItemType::Pop));
        front.lemma_filter_push(item, of_kind(S3ItemType::Bucket));
        front.lemma_filter_push(item, of_kind(S3ItemType::CommonPrefix));
        front.lemma_filter_push(item, of_kind(S3ItemType::Object));
    }
}

/// Alignment does what it is for: within a group every cell of the first
/// column is as wide as every other, and so is every cell of the second.
/// The width is that of the widest cell and the blank after it.
pub proof fn lemma_aligned_widths(rows: Seq<RowView>, i: int)
    requires
        0 <= i < rows.len(),
    ensures
        aligned(rows).len() == rows.len(),
        byte_len(aligned(rows)[i].0) == widest(rows, 0) + 1,
        byte_len(aligned(rows)[i].1) == widest(rows, 1) + 1,
        aligned(rows)[i].2 == rows[i].2,
{
    let blank = seq![' '];
    assert(blank =~= blanks(1));
    lemma_byte_len_blanks(1);
    lemma_widest(rows, 0, i);
    lemma_widest(rows, 1, i);
    let left = rows[i].0;
    let fill_left = blanks(widest(rows, 0) - byte_len(left));
    lemma_byte_len_blanks(widest(rows, 0) - byte_len(left));
    lemma_byte_len_concat(fill_left, left);
    lemma_byte_len_concat(fill_left + left, blank);
    let mid = rows[i].1;
    let fill_mid = blanks(widest(rows, 1) - byte_len(mid));
    lemma_byte_len_blanks(widest(rows, 1) - byte_len(mid));
    lemma_byte_len_concat(fill_mid, mid);
    lemma_byte_len_concat(fill_mid + mid, blank);
}

/// `text` filled up with blanks on its left to `width` bytes, and one blank
/// after it.
pub fn pad_left(text: &str, width: usize) -> (out: String)
    ensures
        out@ == padded(text@, width as nat),
{
    let len: usize = width_of(text);
    let fill: usize = if width > len {
        width - len
    } else {
        0
    };
    let mut out = blank_string(fill);
    out.append(text);
    proof {
        reveal_strlit(" ");
    }
    out.append(" ");
    assert(out@ =~= padded(text@, width as nat));
    out
}

/// The width in bytes of the widest cell of a column: of the first for 0,
/// of the second for 1, of the third for any other number.
pub fn widest_cell(rows: &Vec<(String, String, String)>, column: usize) -> (width: usize)
    ensures
        width == widest(rows.deep_view(), column as int),
{
    let mut width: usize = 0;
    let mut i: usize = 0;
    while i < rows.len()
        invariant
            i <= rows.len(),
            width == widest(rows.deep_view().take(i as int), column as int),
        decreases rows.len() - i,
    {
        let here: usize = if column == 0 {
            width_of(rows[i].0.as_str())
        } else if column == 1 {
            width_of(rows[i].1.as_str())
        } else {
            width_of(rows[i].2.as_str())
        };
        proof {
            let views = rows.deep_view();
            assert(views.take(i + 1).drop_last() =~= views.take(i as int));
            assert(views.take(i + 1).last() == views[i as int]);
        }
        if here > width {
            width = here;
        }
        i += 1;
    }
    assert(rows.deep_view().take(rows.len() as int) =~= rows.deep_view());
    width
}

/// Right-aligns the first two columns of a group of rows.
pub fn align_rows(columns: Vec<(String, String, String)>) -> (rows: Vec<(String, String, String)>)
    ensures
        rows.deep_view() == aligned(columns.deep_view()),
{
    let first_column_hint: usize = widest_cell(&columns, 0);
    let second_column_hint: usize = widest_cell(&columns, 1);
    let mut rows: Vec<(String, String, String)> = Vec::new();
    let mut i: usize = 0;
    while i < columns.len()
        invariant
            i <= columns.len(),
            rows.len() == i,
            first_column_hint == widest(columns.deep_view(), 0),
            second_column_hint == widest(columns.deep_view(), 1),
            forall|j: int| 0 <= j < i ==> rows@[j].deep_view() == aligned(columns.deep_view())[j],
        decreases columns.len() - i,
    {
        let row = &columns[i];
        let left = pad_left(row.0.as_str(), first_column_hint);
        let mid = pad_left(row.1.as_str(), second_column_hint);
        rows.push((left, mid, row.2.clone()));
        i += 1;
    }
    assert(rows.deep_view() =~= aligned(columns.deep_view()));
    rows
}

/// The rows of the items of one kind, in the order of the items.
pub fn rows_of(items: &Vec<S3Item>, kind: S3ItemType) -> (rows: Vec<(String, String, String)>)
    ensures
        rows.deep_view() == rows_of_kind(item_views(items@), kind),
{
    let ghost views = item_views(items@);
    let mut rows: Vec<(String, String, String)> = Vec::new();
    let mut i: usize = 0;
    proof {
        reveal(Seq::filter);
        assert(rows.deep_view() =~= rows_of_kind(views.take(0), kind));
    }
    while i < items.len()
        invariant
            i <= items.len(),
            views == item_views(items@),
            rows.deep_view() == rows_of_kind(views.take(i as int), kind),
        decreases items.len() - i,
    {
        let ghost before = rows.deep_view();
        proof {
            assert(views.take(i + 1) =~= views.take(i as int).push(views[i as int]));
            views.take(i as int).lemma_filter_push(views[i as int], of_kind(kind));
        }
        if items[i].get_type() == kind {
            let row = items[i].as_row();
            rows.push(row);
            assert(rows.deep_view() =~= before.push(views[i as int].row()));
            assert(rows.deep_view() =~= rows_of_kind(views.take(i + 1), kind));
        }
        i += 1;
    }
    assert(views.take(items.len() as int) =~= views);
    rows
}

/// The rows a list of items is shown as.
pub fn display_rows_of(items: &Vec<S3Item>) -> (rows: Vec<(String, String, String)>)
    ensures
        rows.deep_view() == display_rows(item_views(items@)),
{
    let mut rows = align_rows(rows_of(items, S3ItemType::Pop));
    let mut buckets = align_rows(rows_of(items, S3ItemType::Bucket));
    let mut prefixes = align_rows(rows_of(items, S3ItemType::CommonPrefix));
    let mut objects = align_rows(rows_of(items, S3ItemType::Object));
    let ghost r0 = rows.deep_view();
    let ghost r1 = buckets.deep_view();
    let ghost r2 = prefixes.deep_view();
    let ghost r3 = objects.deep_view();
    rows.append(&mut buckets);
    assert(rows.deep_view() =~= r0 + r1);
    rows.append(&mut prefixes);
    assert(rows.deep_view() =~= r0 + r1 + r2);
    rows.append(&mut objects);
    assert(rows.deep_view() =~= r0 + r1 + r2 + r3);
    rows
}

} // verus!
