//! The list of tables with its cursor, and what is shown of it.

use crate::glue::client::{Column, ColumnView, GlueTable, GlueTableView};
use crate::text::{
    blank_string,
    blanks,
    byte_len,
    lemma_byte_len_blanks,
    lemma_byte_len_concat,
    width_of,
};
use crate::stateful_list::{cursor_view, ListView, StatefulList};
use vstd::prelude::*;
use vstd::string::*;

verus! {

/// The views of a sequence of tables.
pub open spec fn table_views(tables: Seq<GlueTable>) -> Seq<GlueTableView> {
    Seq::new(tables.len(), |i: int| tables[i]@)
}

/// The line of a table in the list: the name of its database and its own.
pub open spec fn list_row(table: GlueTableView) -> (Seq<char>, Seq<char>) {
    (table.database, table.table.name)
}

/// The width in bytes of the longest name among the columns, 0 where there
/// are none.
pub open spec fn widest_name(columns: Seq<ColumnView>) -> nat
    decreases columns.len(),
{
    if columns.len() == 0 {
        0
    } else {
        let before = widest_name(columns.drop_last());
        let here = byte_len(columns.last().name);
        if here > before {
            here
        } else {
            before
        }
    }
}

/// The lines that describe the columns: each name filled up with blanks on
/// its right to the width of the longest, and the type beside it.
pub open spec fn detail_rows(columns: Seq<ColumnView>) -> Seq<(Seq<char>, Seq<char>)> {
    columns.map_values(
        |column: ColumnView|
            (
                column.name + blanks(widest_name(columns) - byte_len(column.name)),
                column.column_type,
            ),
    )
}

/// What is shown beside the list: the columns of the selected table.
/// Nothing is shown where no table is selected, and where the selected one
/// has no columns.
pub open spec fn detail_of(list: ListView<GlueTableView>) -> Option<Seq<(Seq<char>, Seq<char>)>> {
    match list.selected() {
        Some(selected) => match selected.table.columns {
            Some(columns) => if columns.len() > 0 {
                Some(detail_rows(columns))
            } else {
                None
            },
            None => None,
        },
        None => None,
    }
}

/// No name is wider than the widest.
pub proof fn lemma_widest_name(columns: Seq<ColumnView>, i: int)
    requires
        0 <= i < columns.len(),
    ensures
        byte_len(columns[i].name) <= widest_name(columns),
    decreases columns.len(),
{
    if i < columns.len() - 1 {
        lemma_widest_name(columns.drop_last(), i);
    }
}

/// Every name is filled up to the same width, that of the widest, and
/// every type stays as it is.
pub proof fn lemma_detail_widths(columns: Seq<ColumnView>, i: int)
    requires
        0 <= i < columns.len(),
    ensures
        detail_rows(columns).len() == columns.len(),
        byte_len(detail_rows(columns)[i].0) == widest_name(columns),
        detail_rows(columns)[i].1 == columns[i].column_type,
{
    let name = columns[i].name;
    lemma_widest_name(columns, i);
    lemma_byte_len_blanks(widest_name(columns) - byte_len(name));
    lemma_byte_len_concat(name, blanks(widest_name(columns) - byte_len(name)));
}

/// The width in bytes of the longest name among the columns.
pub fn widest_name_of(columns: &Vec<Column>) -> (width: usize)
    ensures
        width == widest_name(columns.deep_view()),
{
    let mut width: usize = 0;
    let mut i: usize = 0;
    while i < columns.len()
        invariant
            i <= columns.len(),
            width == widest_name(columns.deep_view().take(i as int)),
        decreases columns.len() - i,
    {
        let here: usize = width_of(columns[i].name.as_str());
        proof {
            let views = columns.deep_view();
            assert(views.take(i + 1).drop_last() =~= views.take(i as int));
            assert(views.take(i + 1).last() == views[i as int]);
        }
        if here > width {
            width = here;
        }
        i += 1;
    }
    assert(columns.deep_view().take(columns.len() as int) =~= columns.deep_view());
    width
}

/// The lines that describe the columns.
pub fn detail_rows_of(columns: &Vec<Column>) -> (rows: Vec<(String, String)>)
    ensures
        rows.deep_view() == detail_rows(columns.deep_view()),
{
    let max_name_len: usize = widest_name_of(columns);
    let mut rows: Vec<(String, String)> = Vec::new();
    let mut i: usize = 0;
    while i < columns.len()
        invariant
            i <= columns.len(),
            rows.len() == i,
            max_name_len == widest_name(columns.deep_view()),
            forall|j: int|
                0 <= j < i ==> rows@[j].deep_view() == detail_rows(columns.deep_view())[j],
        decreases columns.len() - i,
    {
        let column = &columns[i];
        let len: usize = width_of(column.name.as_str());
        let fill: usize = if max_name_len > len {
            max_name_len - len
        } else {
            0
        };
        let mut name = column.name.clone();
        let padding = blank_string(fill);
        name.append(padding.as_str());
        rows.push((name, column.column_type.clone()));
        i += 1;
    }
    assert(rows.deep_view() =~= detail_rows(columns.deep_view()));
    rows
}

/// The list of tables and its cursor.
pub struct ViewModel {
    pub list: StatefulList<GlueTable>,
}

impl View for ViewModel {
    type V = ListView<GlueTableView>;

    open spec fn view(&self) -> ListView<GlueTableView> {
        ListView { items: table_views(self.list@.items), cursor: self.list@.cursor }
    }
}

impl ViewModel {
    /// A list of the tables, with the cursor on the first.
    pub fn new(tables: Vec<GlueTable>) -> (vm: Self)
        ensures
            vm@ == ListView::fresh(tables.deep_view()),
    {
        let ghost views = tables.deep_view();
        let vm = ViewModel { list: StatefulList::new(tables) };
        assert(vm@.items =~= views);
        vm
    }

    /// The columns of the selected table, for the pane beside the list.
    pub fn make_detail_view(&self) -> (detail: Option<Vec<(String, String)>>)
        ensures
            detail.deep_view() == detail_of(self@),
    {
        match self.list.selected() {
            Some(selected) => match &selected.table.columns {
                Some(columns) => if columns.len() > 0 {
                    Some(detail_rows_of(columns))
                } else {
                    None
                },
                None => None,
            },
            None => None,
        }
    }

    /// The lines of the list and the index of the selected one.
    pub fn make_list_view(&self) -> (view: (Vec<(String, String)>, Option<usize>))
        ensures
            view.0.deep_view() == self@.items.map_values(|table: GlueTableView| list_row(table)),
            cursor_view(view.1) == self@.cursor,
            self@.wf(),
    {
        let glue_tables = self.list.items();
        let mut rows: Vec<(String, String)> = Vec::new();
        let mut i: usize = 0;
        while i < glue_tables.len()
            invariant
                i <= glue_tables.len(),
                rows.len() == i,
                glue_tables@ == self.list@.items,
                forall|j: int|
                    0 <= j < i ==> rows@[j].deep_view() == list_row(glue_tables@[j]@),
            decreases glue_tables.len() - i,
        {
            let table = &glue_tables[i];
            rows.push((table.database.clone(), table.table.name.clone()));
            i += 1;
        }
        assert(rows.deep_view() =~= self@.items.map_values(
            |table: GlueTableView| list_row(table),
        ));
        (rows, self.list.state())
    }
}

} // verus!
