//! The printed text of a materialized result.
//!
//! The box-drawing itself is done by the `tabled` crate; everything around
//! it — which lines appear, the counts, the status texts — is verified.

use vstd::prelude::*;

use crate::materialize::Displayed;
use crate::strutil::dec_digits;
use crate::strutil::usize_dec;

verus! {

/// What `tabled` renders for a table with the given cell texts, one inner
/// sequence per row, the first row being the header.
pub uninterp spec fn table_text_of(rows: Seq<Seq<Seq<char>>>) -> Seq<char>;

/// Relies on tabled's `Builder`, `Style::rounded` and `Table`'s `Display`:
/// the rendered text is a function of the cell texts alone.
#[verifier::external_body]
fn render_table(rows: &Vec<Vec<String>>) -> (r: String)
    ensures
        r@ == table_text_of(rows.deep_view()),
{
    let mut builder = tabled::builder::Builder::default();
    for row in rows.iter() {
        builder.push_record(row.iter().map(|cell| cell.as_str()));
    }
    let mut table = builder.build();
    table.with(tabled::settings::Style::rounded());
    table.to_string()
}

/// The row-count line after a query table.
pub open spec fn fetched_text(n: usize) -> Seq<char> {
    dec_digits(n as nat) + " row(s) fetched"@
}

/// The affected-count line after a DML statement.
pub open spec fn affected_text(n: usize) -> Seq<char> {
    dec_digits(n as nat) + " row(s) affected"@
}

fn clone_string_vec(v: &Vec<String>) -> (r: Vec<String>)
    ensures
        r@ == v@,
{
    let mut out: Vec<String> = Vec::new();
    let n = v.len();
    let mut i: usize = 0;
    while i < n
        invariant
            0 <= i <= n,
            n == v@.len(),
            out@.len() == i,
            forall|k: int| 0 <= k < i ==> out@[k] == v@[k],
        decreases n - i,
    {
        out.push(v[i].clone());
        i = i + 1;
    }
    assert(out@ =~= v@);
    out
}

fn combine(header: &Vec<String>, body: &Vec<Vec<String>>) -> (r: Vec<Vec<String>>)
    ensures
        r.deep_view() == seq![header.deep_view()] + body.deep_view(),
{
    let mut all: Vec<Vec<String>> = Vec::new();
    all.push(clone_string_vec(header));
    let n = body.len();
    let mut i: usize = 0;
    while i < n
        invariant
            0 <= i <= n,
            n == body@.len(),
            all@.len() == i + 1,
            all@[0]@ == header@,
            forall|k: int| 0 <= k < i ==> #[trigger] all@[k + 1]@ == body@[k]@,
        decreases n - i,
    {
        all.push(clone_string_vec(&body[i]));
        i = i + 1;
    }
    proof {
        let expected = seq![header.deep_view()] + body.deep_view();
        assert forall|k: int| 0 <= k < n + 1 implies all.deep_view()[k] == expected[k] by {
            if k == 0 {
                assert(all@[0]@ == header@);
                assert(all@[0].deep_view() =~= header.deep_view());
            } else {
                assert(all@[(k - 1) + 1]@ == body@[k - 1]@);
                assert(all@[k].deep_view() =~= body@[k - 1].deep_view());
            }
        }
        assert(all.deep_view() =~= seq![header.deep_view()] + body.deep_view());
    }
    all
}

impl Displayed {
    /// The lines this result prints, in order.
    ///
    /// A query with rows prints its table and then the row-count line; a
    /// zero-row query prints the count line alone; a `desc` prints the
    /// metadata table and no count; DML, DCL and unrecognized kinds print
    /// one status line.
    pub fn lines(&self) -> (r: Vec<String>)
        ensures
            *self matches Displayed::Query { header, body, nulls, fetched } ==> (if fetched > 0 {
                r.deep_view() == seq![
                    table_text_of(seq![header.deep_view()] + body.deep_view()),
                    fetched_text(fetched),
                ]
            } else {
                r.deep_view() == seq![fetched_text(fetched)]
            }),
            *self matches Displayed::Metadata { header, body } ==> r.deep_view() == seq![
                table_text_of(seq![header.deep_view()] + body.deep_view()),
            ],
            *self matches Displayed::Affected { count } ==> r.deep_view() == seq![
                affected_text(count),
            ],
            *self is Instruction ==> r.deep_view() == seq!["DCL executed"@],
            *self is Succeeded ==> r.deep_view() == seq!["Succeed"@],
    {
        proof {
            reveal_strlit(" row(s) fetched");
            reveal_strlit(" row(s) affected");
        }
        match self {
            Displayed::Query { header, body, nulls: _, fetched } => {
                let mut out: Vec<String> = Vec::new();
                if *fetched > 0 {
                    let all = combine(header, body);
                    out.push(render_table(&all));
                }
                let mut line = usize_dec(*fetched);
                line.append(" row(s) fetched");
                out.push(line);
                assert(out.deep_view() =~= (if *fetched > 0 {
                    seq![
                        table_text_of(seq![header.deep_view()] + body.deep_view()),
                        fetched_text(*fetched),
                    ]
                } else {
                    seq![fetched_text(*fetched)]
                }));
                out
            },
            Displayed::Metadata { header, body } => {
                let all = combine(header, body);
                let mut out: Vec<String> = Vec::new();
                out.push(render_table(&all));
                assert(out.deep_view() =~= seq![
                    table_text_of(seq![header.deep_view()] + body.deep_view()),
                ]);
                out
            },
            Displayed::Affected { count } => {
                let mut line = usize_dec(*count);
                line.append(" row(s) affected");
                let mut out: Vec<String> = Vec::new();
                out.push(line);
                assert(out.deep_view() =~= seq![affected_text(*count)]);
                out
            },
            Displayed::Instruction => {
                let mut out: Vec<String> = Vec::new();
                out.push("DCL executed".to_owned());
                assert(out.deep_view() =~= seq!["DCL executed"@]);
                out
            },
            Displayed::Succeeded => {
                let mut out: Vec<String> = Vec::new();
                out.push("Succeed".to_owned());
                assert(out.deep_view() =~= seq!["Succeed"@]);
                out
            },
        }
    }
}

} // verus!
