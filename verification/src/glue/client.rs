//! What the catalogue service reports, as plain values.

use vstd::prelude::*;

verus! {

/// A column of a table.
#[derive(Debug)]
pub struct Column {
    pub name: String,
    /// The type of the values, as the catalogue names it.
    pub column_type: String,
}

/// A column as character sequences.
pub struct ColumnView {
    pub name: Seq<char>,
    pub column_type: Seq<char>,
}

impl View for Column {
    type V = ColumnView;

    open spec fn view(&self) -> ColumnView {
        ColumnView { name: self.name@, column_type: self.column_type@ }
    }
}

impl DeepView for Column {
    type V = ColumnView;

    open spec fn deep_view(&self) -> ColumnView {
        self@
    }
}

impl Clone for Column {
    fn clone(&self) -> (copy: Self)
        ensures
            copy == *self,
    {
        Column { name: self.name.clone(), column_type: self.column_type.clone() }
    }
}

/// A table of the catalogue.
#[derive(Debug)]
pub struct Table {
    pub name: String,
    /// The columns, where the catalogue describes how the table is stored.
    pub columns: Option<Vec<Column>>,
}

/// A table as plain mathematical values.
pub struct TableView {
    pub name: Seq<char>,
    pub columns: Option<Seq<ColumnView>>,
}

impl View for Table {
    type V = TableView;

    open spec fn view(&self) -> TableView {
        TableView { name: self.name@, columns: self.columns.deep_view() }
    }
}

impl DeepView for Table {
    type V = TableView;

    open spec fn deep_view(&self) -> TableView {
        self@
    }
}

/// A table together with the database it belongs to.
#[derive(Debug)]
pub struct GlueTable {
    /// The name of the database.
    pub database: String,
    pub table: Table,
}

/// A table and its database as plain mathematical values.
pub struct GlueTableView {
    pub database: Seq<char>,
    pub table: TableView,
}

impl View for GlueTable {
    type V = GlueTableView;

    open spec fn view(&self) -> GlueTableView {
        GlueTableView { database: self.database@, table: self.table@ }
    }
}

impl DeepView for GlueTable {
    type V = GlueTableView;

    open spec fn deep_view(&self) -> GlueTableView {
        self@
    }
}

/// Why the tables could not be listed.
#[derive(Clone, Copy, Debug, PartialEq, Eq, Structural)]
pub enum GlueError {
    /// The catalogue reported no list of databases.
    NoDatabase,
}

impl GlueError {
    /// The error in words.
    pub fn message(&self) -> (text: String)
        ensures
            text@ == "No database in Glue"@,
    {
        "No database in Glue".to_owned()
    }
}

/// The tables of one database, each with the name of the database.
pub open spec fn tables_in(database: Seq<char>, tables: Seq<TableView>) -> Seq<GlueTableView> {
    tables.map_values(|table: TableView| GlueTableView { database, table })
}

/// All tables of the databases whose tables could be listed: database by
/// database, and within each in the order of its list.
pub open spec fn all_tables(found: Seq<(Seq<char>, Option<Seq<TableView>>)>) -> Seq<GlueTableView>
    decreases found.len(),
{
    if found.len() == 0 {
        Seq::empty()
    } else {
        let before = all_tables(found.drop_last());
        match found.last().1 {
            Some(tables) => before + tables_in(found.last().0, tables),
            None => before,
        }
    }
}

/// The tables of all databases in one list. Each pair is the name of a
/// database and its tables, where they could be listed; `None` for the
/// whole says that the catalogue reported no databases at all.
pub fn glue_tables(found: Option<Vec<(String, Option<Vec<Table>>)>>) -> (tables: Result<
    Vec<GlueTable>,
    GlueError,
>)
    ensures
        match found {
            Some(list) => tables is Ok && tables->Ok_0.deep_view() == all_tables(list.deep_view()),
            None => tables == Err::<Vec<GlueTable>, GlueError>(GlueError::NoDatabase),
        },
{
    let list = match found {
        Some(list) => list,
        None => {
            return Err(GlueError::NoDatabase);
        },
    };
    let ghost all = list.deep_view();
    let ghost pairs = list@;
    let mut tables: Vec<GlueTable> = Vec::new();
    for pair in it: list.into_iter()
        invariant
            it.seq() == pairs,
            all == Seq::new(pairs.len(), |j: int| pairs[j].deep_view()),
            tables.deep_view() == all_tables(all.take(it.index() as int)),
    {
        let ghost i = it.index() as int;
        proof {
            assert(all.take(i + 1).drop_last() =~= all.take(i));
            assert(all.take(i + 1).last() == all[i]);
        }
        let (database, listed) = pair;
        match listed {
            Some(of_database) => {
                let ghost before = tables.deep_view();
                let ghost added = of_database.deep_view();
                let ghost elements = of_database@;
                for table in inner: of_database.into_iter()
                    invariant
                        inner.seq() == elements,
                        added == Seq::new(elements.len(), |j: int| elements[j].deep_view()),
                        tables.deep_view() == before + tables_in(
                            database@,
                            added.take(inner.index() as int),
                        ),
                {
                    let ghost k = inner.index() as int;
                    let ghost so_far = tables.deep_view();
                    tables.push(GlueTable { database: database.clone(), table });
                    assert(tables.deep_view() =~= so_far.push(
                        GlueTableView { database: database@, table: added[k] },
                    ));
                    assert(tables.deep_view() =~= before + tables_in(database@, added.take(k + 1)));
                }
                assert(added.take(elements.len() as int) =~= added);
            },
            None => {},
        }
    }
    assert(all.take(pairs.len() as int) =~= all);
    Ok(tables)
}

} // verus!
