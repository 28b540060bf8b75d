//! Turning a resolved execution result into a displayable table or status.

use vstd::prelude::*;

use crate::column::Column;
use crate::result::Executed;
use crate::result::ResultSet;
use crate::result::LazyExecuted;
use crate::result::Row;
use crate::table::column_fields;
use crate::table::column_headers;
use crate::table::ColumnWrapper;
use crate::value::value_text;
use crate::value::Value;

verus! {

/// The text a cell renders as: its value's natural form, or the
/// distinguished `<null>` marker for SQL NULL.
pub open spec fn cell_text(c: Option<Value>) -> Seq<char> {
    match c {
        Some(v) => value_text(v),
        None => "<null>"@,
    }
}

/// The rendered texts of one row's cells.
pub open spec fn row_texts(cells: Seq<Option<Value>>) -> Seq<Seq<char>> {
    cells.map_values(|c: Option<Value>| cell_text(c))
}

/// The cell sequences of a fetched row list.
pub open spec fn rows_cells(rows: Seq<Row>) -> Seq<Seq<Option<Value>>> {
    rows.map_values(|r: Row| r.cells@)
}

/// The rendered body of a query table.
pub open spec fn body_texts(rows: Seq<Row>) -> Seq<Seq<Seq<char>>> {
    rows.map_values(|r: Row| row_texts(r.cells@))
}

/// The header of a query table: the column names.
pub open spec fn column_names(cols: Seq<Column>) -> Seq<Seq<char>> {
    cols.map_values(|c: Column| c.name@)
}

/// The body of a `desc` metadata table: one row per column.
pub open spec fn meta_body(cols: Seq<Column>) -> Seq<Seq<Seq<char>>> {
    cols.map_values(|c: Column| column_fields(c))
}

/// The `(row, column)` positions of the NULL cells in one row, scanning
/// cells left to right starting at column `x0` of row `y`.
pub open spec fn row_nulls(cells: Seq<Option<Value>>, y: usize, x0: usize) -> Seq<(usize, usize)>
    decreases cells.len(),
{
    if cells.len() == 0 {
        Seq::empty()
    } else {
        (if cells[0] is None {
            seq![(y, x0)]
        } else {
            Seq::empty()
        }) + row_nulls(cells.skip(1), y, (x0 + 1) as usize)
    }
}

/// The `(row, column)` positions of the NULL cells of a whole table,
/// row-major, starting at row `y0`.
pub open spec fn table_nulls(rows: Seq<Seq<Option<Value>>>, y0: usize) -> Seq<(usize, usize)>
    decreases rows.len(),
{
    if rows.len() == 0 {
        Seq::empty()
    } else {
        row_nulls(rows[0], y0, 0) + table_nulls(rows.skip(1), (y0 + 1) as usize)
    }
}

proof fn lemma_row_nulls_snoc(cells: Seq<Option<Value>>, c: Option<Value>, y: usize, x0: usize)
    requires
        x0 + cells.len() + 1 <= usize::MAX,
    ensures
        row_nulls(cells.push(c), y, x0) == row_nulls(cells, y, x0) + (if c is None {
            seq![(y, (x0 + cells.len()) as usize)]
        } else {
            Seq::<(usize, usize)>::empty()
        }),
    decreases cells.len(),
{
    if cells.len() == 0 {
        assert(cells.push(c)[0] == c);
        assert(cells.push(c).skip(1) =~= Seq::<Option<Value>>::empty());
        assert(row_nulls(Seq::<Option<Value>>::empty(), y, (x0 + 1) as usize) == Seq::<
            (usize, usize),
        >::empty());
        assert(row_nulls(cells, y, x0) == Seq::<(usize, usize)>::empty());
        if c is None {
            assert(row_nulls(cells.push(c), y, x0) =~= seq![(y, x0)]);
            assert(row_nulls(cells, y, x0) + seq![(y, (x0 + cells.len()) as usize)] =~= seq![
                (y, x0),
            ]);
        } else {
            assert(row_nulls(cells.push(c), y, x0) =~= Seq::<(usize, usize)>::empty());
            assert(row_nulls(cells, y, x0) + Seq::<(usize, usize)>::empty() =~= Seq::<
                (usize, usize),
            >::empty());
        }
    } else {
        lemma_row_nulls_snoc(cells.skip(1), c, y, (x0 + 1) as usize);
        assert(cells.push(c)[0] == cells[0]);
        assert(cells.push(c).skip(1) =~= cells.skip(1).push(c));
        assert(row_nulls(cells.push(c), y, x0) =~= row_nulls(cells, y, x0) + (if c is None {
            seq![(y, (x0 + cells.len()) as usize)]
        } else {
            Seq::<(usize, usize)>::empty()
        }));
    }
}

proof fn lemma_table_nulls_snoc(rows: Seq<Seq<Option<Value>>>, last: Seq<Option<Value>>, y0: usize)
    requires
        y0 + rows.len() + 1 <= usize::MAX,
    ensures
        table_nulls(rows.push(last), y0) == table_nulls(rows, y0) + row_nulls(
            last,
            (y0 + rows.len()) as usize,
            0,
        ),
    decreases rows.len(),
{
    if rows.len() == 0 {
        assert(rows.push(last)[0] == last);
        assert(rows.push(last).skip(1) =~= Seq::<Seq<Option<Value>>>::empty());
        assert(table_nulls(Seq::<Seq<Option<Value>>>::empty(), (y0 + 1) as usize) == Seq::<
            (usize, usize),
        >::empty());
        assert(table_nulls(rows, y0) == Seq::<(usize, usize)>::empty());
        assert(table_nulls(rows.push(last), y0) =~= row_nulls(last, y0, 0));
        assert(table_nulls(rows, y0) + row_nulls(last, y0, 0) =~= row_nulls(last, y0, 0));
    } else {
        lemma_table_nulls_snoc(rows.skip(1), last, (y0 + 1) as usize);
        assert(rows.push(last)[0] == rows[0]);
        assert(rows.push(last).skip(1) =~= rows.skip(1).push(last));
        assert(table_nulls(rows.push(last), y0) =~= table_nulls(rows, y0) + row_nulls(
            last,
            (y0 + rows.len()) as usize,
            0,
        ));
    }
}

proof fn lemma_row_nulls_contains(
    cells: Seq<Option<Value>>,
    y: usize,
    x0: usize,
    a: usize,
    b: usize,
)
    requires
        x0 + cells.len() <= usize::MAX,
    ensures
        row_nulls(cells, y, x0).contains((a, b)) <==> (a == y && x0 <= b < x0 + cells.len()
            && cells[b - x0] is None),
    decreases cells.len(),
{
    if cells.len() > 0 {
        lemma_row_nulls_contains(cells.skip(1), y, (x0 + 1) as usize, a, b);
        let head: Seq<(usize, usize)> = if cells[0] is None {
            seq![(y, x0)]
        } else {
            Seq::empty()
        };
        let rest = row_nulls(cells.skip(1), y, (x0 + 1) as usize);
        assert(row_nulls(cells, y, x0) == head + rest);
        if (head + rest).contains((a, b)) {
            let i = choose|i: int| 0 <= i < (head + rest).len() && (head + rest)[i] == (a, b);
            if i < head.len() {
                assert(head.contains((a, b)));
            } else {
                assert(rest[i - head.len()] == (a, b));
                assert(rest.contains((a, b)));
            }
        }
        if head.contains((a, b)) {
            assert((head + rest)[0] == (a, b));
        }
        if rest.contains((a, b)) {
            let i = choose|i: int| 0 <= i < rest.len() && rest[i] == (a, b);
            assert((head + rest)[head.len() + i] == (a, b));
        }
    }
}

/// The null-marker positions of a materialized table are exactly the cells
/// reported as SQL NULL: `(a, b)` is marked iff row `a` exists, column `b`
/// exists in it, and that cell is `None` — that cell, and no other.
pub proof fn lemma_null_positions_exact(rows: Seq<Seq<Option<Value>>>, a: usize, b: usize)
    requires
        rows.len() <= usize::MAX,
        forall|i: int| 0 <= i < rows.len() ==> #[trigger] rows[i].len() <= usize::MAX,
    ensures
        table_nulls(rows, 0).contains((a, b)) <==> (a < rows.len() && b < rows[a as int].len()
            && rows[a as int][b as int] is None),
{
    lemma_table_nulls_contains(rows, 0, a, b);
}

proof fn lemma_table_nulls_contains(rows: Seq<Seq<Option<Value>>>, y0: usize, a: usize, b: usize)
    requires
        y0 + rows.len() <= usize::MAX,
        forall|i: int| 0 <= i < rows.len() ==> #[trigger] rows[i].len() <= usize::MAX,
    ensures
        table_nulls(rows, y0).contains((a, b)) <==> (y0 <= a < y0 + rows.len() && b < rows[a
            - y0].len() && rows[a - y0][b as int] is None),
    decreases rows.len(),
{
    if rows.len() > 0 {
        lemma_row_nulls_contains(rows[0], y0, 0, a, b);
        lemma_table_nulls_contains(rows.skip(1), (y0 + 1) as usize, a, b);
        let head = row_nulls(rows[0], y0, 0);
        let rest = table_nulls(rows.skip(1), (y0 + 1) as usize);
        assert(table_nulls(rows, y0) == head + rest);
        if (head + rest).contains((a, b)) {
            let i = choose|i: int| 0 <= i < (head + rest).len() && (head + rest)[i] == (a, b);
            if i < head.len() {
                assert(head[i] == (a, b));
                assert(head.contains((a, b)));
            } else {
                assert(rest[i - head.len()] == (a, b));
                assert(rest.contains((a, b)));
            }
        }
        if head.contains((a, b)) {
            let i = choose|i: int| 0 <= i < head.len() && head[i] == (a, b);
            assert((head + rest)[i] == (a, b));
            assert((head + rest).contains((a, b)));
        }
        if rest.contains((a, b)) {
            let i = choose|i: int| 0 <= i < rest.len() && rest[i] == (a, b);
            assert((head + rest)[head.len() + i] == (a, b));
            assert((head + rest).contains((a, b)));
        }
    }
}

/// A rowset is well formed when every fetched row holds exactly one cell
/// per reported column.
pub open spec fn rowset_well_formed(rs: ResultSet) -> bool {
    forall|i: int|
        0 <= i < rs.rows@.len() ==> #[trigger] rs.rows@[i].cells@.len() == rs.columns@.len()
}

/// The rendered query table's shape matches the rowset exactly: one
/// header cell per reported column, one body row per fetched row, and —
/// for a well-formed rowset — one body cell per column in every row, the
/// zero-row case included.
pub proof fn lemma_query_table_shape(rs: ResultSet)
    requires
        rowset_well_formed(rs),
    ensures
        column_names(rs.columns@).len() == rs.columns@.len(),
        body_texts(rs.rows@).len() == rs.rows@.len(),
        forall|y: int|
            0 <= y < rs.rows@.len() ==> #[trigger] body_texts(rs.rows@)[y].len()
                == rs.columns@.len(),
{
}

/// A materialized result, ready to print: a table structure plus counts,
/// or a bare status.
#[derive(Debug)]
pub enum Displayed {
    /// A query result: the header row, the rendered body cells, the
    /// positions of the NULL markers, and how many rows were fetched.
    Query { header: Vec<String>, body: Vec<Vec<String>>, nulls: Vec<(usize, usize)>, fetched: usize },
    /// A `desc` result: column metadata only; no rows are ever fetched.
    Metadata { header: Vec<String>, body: Vec<Vec<String>> },
    /// A DML result: the affected-row count.
    Affected { count: usize },
    /// A DCL acknowledgement.
    Instruction,
    /// Any unrecognized statement kind.
    Succeeded,
}

fn render_cells(cells: &Vec<Option<Value>>) -> (r: Vec<String>)
    ensures
        r.deep_view() == row_texts(cells@),
{
    let mut out: Vec<String> = Vec::new();
    let n = cells.len();
    let mut x: usize = 0;
    proof {
        reveal_strlit("<null>");
    }
    while x < n
        invariant
            0 <= x <= n,
            n == cells@.len(),
            out@.len() == x,
            forall|k: int| 0 <= k < x ==> #[trigger] out@[k]@ == cell_text(cells@[k]),
        decreases n - x,
    {
        let text = match &cells[x] {
            Some(v) => v.render(),
            None => "<null>".to_owned(),
        };
        out.push(text);
        x = x + 1;
    }
    assert(out.deep_view() =~= row_texts(cells@));
    out
}

fn collect_nulls(rows: &Vec<Row>) -> (r: Vec<(usize, usize)>)
    ensures
        r@ == table_nulls(rows_cells(rows@), 0),
{
    let mut out: Vec<(usize, usize)> = Vec::new();
    let n = rows.len();
    let mut y: usize = 0;
    assert(rows_cells(rows@).take(0) =~= Seq::<Seq<Option<Value>>>::empty());
    while y < n
        invariant
            0 <= y <= n,
            n == rows@.len(),
            out@ == table_nulls(rows_cells(rows@).take(y as int), 0),
        decreases n - y,
    {
        let cells = &rows[y].cells;
        let m = cells.len();
        let mut x: usize = 0;
        let ghost prev = out@;
        assert(cells@.take(0) =~= Seq::<Option<Value>>::empty());
        while x < m
            invariant
                0 <= x <= m,
                0 <= y < n,
                n == rows@.len(),
                m == cells@.len(),
                cells@ == rows@[y as int].cells@,
                out@ == prev + row_nulls(cells@.take(x as int), y, 0),
            decreases m - x,
        {
            proof {
                lemma_row_nulls_snoc(cells@.take(x as int), cells@[x as int], y, 0);
                assert(cells@.take(x as int).push(cells@[x as int]) =~= cells@.take(x + 1));
            }
            if cells[x].is_none() {
                out.push((y, x));
            }
            x = x + 1;
        }
        assert(cells@.take(m as int) =~= cells@);
        proof {
            lemma_table_nulls_snoc(rows_cells(rows@).take(y as int), cells@, 0);
            assert(rows_cells(rows@).take(y as int).push(cells@) =~= rows_cells(rows@).take(
                y + 1,
            ));
        }
        y = y + 1;
    }
    assert(rows_cells(rows@).take(n as int) =~= rows_cells(rows@));
    out
}

/// Resolve an execution result and build what is to be displayed.
///
/// A query materializes its whole rowset, rendering each cell's natural
/// text and substituting the `<null>` marker for SQL NULL; a `desc`
/// renders column metadata only and fetches no row; DML reports its
/// affected count; DCL and unrecognized kinds report acknowledgements.
pub fn materialize(result: LazyExecuted, describe: bool) -> (d: Displayed)
    ensures
        (result.sql_type is Query && describe) ==> (d matches Displayed::Metadata { header, body }
            && header.deep_view() == column_headers() && body.deep_view() == meta_body(
            result.result_set.columns@,
        )),
        (result.sql_type is Query && !describe) ==> (d matches Displayed::Query {
            header,
            body,
            nulls,
            fetched,
        } && header.deep_view() == column_names(result.result_set.columns@) && body.deep_view()
            == body_texts(result.result_set.rows@) && nulls@ == table_nulls(
            rows_cells(result.result_set.rows@),
            0,
        ) && fetched == result.result_set.rows@.len()),
        (result.sql_type is Insert || result.sql_type is Update || result.sql_type is Delete
            || result.sql_type is Merge) ==> (d matches Displayed::Affected { count } && count
            == result.affected),
        (result.sql_type is Grant || result.sql_type is Revoke || result.sql_type is Commit
            || result.sql_type is Rollback) ==> d is Instruction,
        result.sql_type is Other ==> d is Succeeded,
{
    match result.resolve() {
        Executed::DQL(rs) => {
            if describe {
                let header = ColumnWrapper::headers();
                let mut body: Vec<Vec<String>> = Vec::new();
                let n = rs.columns.len();
                let mut i: usize = 0;
                while i < n
                    invariant
                        0 <= i <= n,
                        n == rs.columns@.len(),
                        body@.len() == i,
                        forall|k: int|
                            0 <= k < i ==> #[trigger] body@[k].deep_view() == column_fields(
                                rs.columns@[k],
                            ),
                    decreases n - i,
                {
                    let row = ColumnWrapper(&rs.columns[i]).fields();
                    body.push(row);
                    i = i + 1;
                }
                assert(body.deep_view() =~= meta_body(rs.columns@));
                Displayed::Metadata { header, body }
            } else {
                let mut header: Vec<String> = Vec::new();
                let n = rs.columns.len();
                let mut i: usize = 0;
                while i < n
                    invariant
                        0 <= i <= n,
                        n == rs.columns@.len(),
                        header@.len() == i,
                        forall|k: int|
                            0 <= k < i ==> #[trigger] header@[k]@ == rs.columns@[k].name@,
                    decreases n - i,
                {
                    header.push(rs.columns[i].name.clone());
                    i = i + 1;
                }
                assert(header.deep_view() =~= column_names(rs.columns@));
                let nulls = collect_nulls(&rs.rows);
                let mut body: Vec<Vec<String>> = Vec::new();
                let m = rs.rows.len();
                let mut y: usize = 0;
                while y < m
                    invariant
                        0 <= y <= m,
                        m == rs.rows@.len(),
                        body@.len() == y,
                        forall|k: int|
                            0 <= k < y ==> #[trigger] body@[k].deep_view() == row_texts(
                                rs.rows@[k].cells@,
                            ),
                    decreases m - y,
                {
                    let row = render_cells(&rs.rows[y].cells);
                    body.push(row);
                    y = y + 1;
                }
                assert(body.deep_view() =~= body_texts(rs.rows@));
                Displayed::Query { header, body, nulls, fetched: m }
            }
        },
        Executed::DML(a) => Displayed::Affected { count: a.affected() },
        Executed::DCL(_) => Displayed::Instruction,
        Executed::Unknown => Displayed::Succeeded,
    }
}

} // verus!
