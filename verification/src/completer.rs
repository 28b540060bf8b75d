//! Candidate computation for tab completion: filtering cached table,
//! view and column names against what the user has typed.

use vstd::prelude::*;

use crate::strutil::has_prefix;
use crate::strutil::prefix_of;

verus! {

/// One completion candidate: the text still to be typed.
#[derive(Debug)]
pub enum YspCandidate {
    Keyword(String),
    Table(String),
    View(String),
    Column(String),
}

/// The mathematical shape of a [`YspCandidate`].
pub enum CandidateView {
    Keyword(Seq<char>),
    Table(Seq<char>),
    View(Seq<char>),
    Column(Seq<char>),
}

impl View for YspCandidate {
    type V = CandidateView;

    open spec fn view(&self) -> CandidateView {
        match self {
            YspCandidate::Keyword(v) => CandidateView::Keyword(v@),
            YspCandidate::Table(v) => CandidateView::Table(v@),
            YspCandidate::View(v) => CandidateView::View(v@),
            YspCandidate::Column(v) => CandidateView::Column(v@),
        }
    }
}

/// The candidate's inner text.
pub open spec fn candidate_text(c: CandidateView) -> Seq<char> {
    match c {
        CandidateView::Keyword(v) => v,
        CandidateView::Table(v) => v,
        CandidateView::View(v) => v,
        CandidateView::Column(v) => v,
    }
}

impl YspCandidate {
    /// The text shown for this candidate.
    pub fn display(&self) -> (r: &str)
        ensures
            r@ == candidate_text(self@),
    {
        match self {
            YspCandidate::Keyword(v) => v.as_str(),
            YspCandidate::Table(v) => v.as_str(),
            YspCandidate::View(v) => v.as_str(),
            YspCandidate::Column(v) => v.as_str(),
        }
    }

    /// The text inserted when this candidate is elected.
    pub fn replacement(&self) -> (r: &str)
        ensures
            r@ == candidate_text(self@),
    {
        match self {
            YspCandidate::Keyword(v) => v.as_str(),
            YspCandidate::Table(v) => v.as_str(),
            YspCandidate::View(v) => v.as_str(),
            YspCandidate::Column(v) => v.as_str(),
        }
    }
}

/// The view of a candidate list.
pub open spec fn candidates_view(s: Seq<YspCandidate>) -> Seq<CandidateView> {
    s.map_values(|c: YspCandidate| c@)
}

/// The last space-separated token of `s`, as `split(' ').last()` yields it.
pub open spec fn last_token(s: Seq<char>) -> Seq<char>
    decreases s.len(),
{
    if s.len() == 0 {
        Seq::empty()
    } else if s.last() == ' ' {
        Seq::empty()
    } else {
        last_token(s.drop_last()) + seq![s.last()]
    }
}

proof fn lemma_last_token_from(t: Seq<char>, k: int)
    requires
        0 <= k <= t.len(),
        forall|j: int| k <= j < t.len() ==> t[j] != ' ',
        k == 0 || t[k - 1] == ' ',
    ensures
        last_token(t) == t.subrange(k, t.len() as int),
    decreases t.len(),
{
    if t.len() == 0 {
        assert(last_token(t) =~= t.subrange(k, t.len() as int));
    } else if k == t.len() {
        if k > 0 {
            assert(t.last() == ' ');
        }
        assert(last_token(t) =~= t.subrange(k, t.len() as int));
    } else {
        assert(t.last() != ' ');
        lemma_last_token_from(t.drop_last(), k);
        assert(t.subrange(k, t.len() as int) =~= t.drop_last().subrange(k, t.len() - 1) + seq![
            t.last(),
        ]);
    }
}

/// The last space-separated token of `s`, as an owned string.
pub fn last_token_str(s: &str) -> (r: String)
    ensures
        r@ == last_token(s@),
{
    let n: usize = s.unicode_len();
    let mut start: usize = 0;
    let mut i: usize = 0;
    while i < n
        invariant
            0 <= start <= i <= n,
            n == s@.len(),
            forall|j: int| start <= j < i ==> s@[j] != ' ',
            start == 0 || s@[start - 1] == ' ',
        decreases n - i,
    {
        if s.get_char(i) == ' ' {
            start = i + 1;
        }
        i = i + 1;
    }
    proof {
        lemma_last_token_from(s@, start as int);
    }
    let seg = s.substring_char(start, n);
    assert(seg@ == last_token(s@));
    seg.to_owned()
}

/// What case-folding to upper case yields; the result depends on the
/// characters alone.
pub uninterp spec fn upper_of(s: Seq<char>) -> Seq<char>;

/// Relies on str::to_uppercase: a pure function of the characters, and an
/// empty string stays empty.
#[verifier::external_body]
fn to_upper(s: &str) -> (r: String)
    ensures
        r@ == upper_of(s@),
        s@.len() == 0 ==> r@.len() == 0,
{
    s.to_uppercase()
}

/// The names among `names` that start with `prefix`, each with the prefix
/// stripped, in order.
pub open spec fn filter_strip(names: Seq<Seq<char>>, prefix: Seq<char>) -> Seq<Seq<char>>
    decreases names.len(),
{
    if names.len() == 0 {
        Seq::empty()
    } else {
        (if prefix_of(names[0], prefix) {
            seq![names[0].skip(prefix.len() as int)]
        } else {
            Seq::empty()
        }) + filter_strip(names.skip(1), prefix)
    }
}

proof fn lemma_filter_strip_snoc(names: Seq<Seq<char>>, nm: Seq<char>, prefix: Seq<char>)
    ensures
        filter_strip(names.push(nm), prefix) == filter_strip(names, prefix) + (if prefix_of(
            nm,
            prefix,
        ) {
            seq![nm.skip(prefix.len() as int)]
        } else {
            Seq::<Seq<char>>::empty()
        }),
    decreases names.len(),
{
    if names.len() == 0 {
        assert(names.push(nm)[0] == nm);
        assert(names.push(nm).skip(1) =~= Seq::<Seq<char>>::empty());
        assert(filter_strip(Seq::<Seq<char>>::empty(), prefix) == Seq::<Seq<char>>::empty());
        assert(filter_strip(names.push(nm), prefix) =~= filter_strip(names, prefix) + (
        if prefix_of(nm, prefix) {
            seq![nm.skip(prefix.len() as int)]
        } else {
            Seq::<Seq<char>>::empty()
        }));
    } else {
        lemma_filter_strip_snoc(names.skip(1), nm, prefix);
        assert(names.push(nm)[0] == names[0]);
        assert(names.push(nm).skip(1) =~= names.skip(1).push(nm));
        assert(filter_strip(names.push(nm), prefix) =~= filter_strip(names, prefix) + (
        if prefix_of(nm, prefix) {
            seq![nm.skip(prefix.len() as int)]
        } else {
            Seq::<Seq<char>>::empty()
        }));
    }
}

/// The view of a string list.
pub open spec fn names_view(v: Seq<String>) -> Seq<Seq<char>> {
    v.map_values(|s: String| s@)
}

fn filter_strip_exec(names: &Vec<String>, prefix: &str) -> (r: Vec<String>)
    ensures
        names_view(r@) == filter_strip(names_view(names@), prefix@),
{
    let mut out: Vec<String> = Vec::new();
    let n = names.len();
    let mut i: usize = 0;
    assert(names_view(names@).take(0) =~= Seq::<Seq<char>>::empty());
    assert(filter_strip(Seq::<Seq<char>>::empty(), prefix@) == Seq::<Seq<char>>::empty());
    assert(names_view(out@) =~= Seq::<Seq<char>>::empty());
    while i < n
        invariant
            0 <= i <= n,
            n == names@.len(),
            names_view(out@) == filter_strip(names_view(names@).take(i as int), prefix@),
        decreases n - i,
    {
        proof {
            lemma_filter_strip_snoc(
                names_view(names@).take(i as int),
                names@[i as int]@,
                prefix@,
            );
            assert(names_view(names@).take(i as int).push(names@[i as int]@) =~= names_view(
                names@,
            ).take(i + 1));
        }
        let name = &names[i];
        let ghost before = names_view(out@);
        if has_prefix(name.as_str(), prefix) {
            let m = name.as_str().unicode_len();
            let p = prefix.unicode_len();
            let stripped = name.as_str().substring_char(p, m).to_owned();
            assert(stripped@ =~= name@.skip(prefix@.len() as int));
            out.push(stripped);
            assert(names_view(out@) =~= before + seq![name@.skip(prefix@.len() as int)]);
        } else {
            assert(names_view(out@) + Seq::<Seq<char>>::empty() =~= names_view(out@));
        }
        i = i + 1;
    }
    assert(names_view(names@).take(n as int) =~= names_view(names@));
    out
}

/// Completion over cached table and view name lists.
pub struct YspCompleter {
    pub tables: Vec<String>,
    pub views: Vec<String>,
}

/// The candidates for one trailing text: each cached table name starting
/// with the upper-cased last token, prefix stripped, then each view name
/// likewise.
pub open spec fn query_candidates(
    tables: Seq<Seq<char>>,
    views: Seq<Seq<char>>,
    prefix: Seq<char>,
) -> Seq<CandidateView> {
    filter_strip(tables, prefix).map_values(|t: Seq<char>| CandidateView::Table(t)) + filter_strip(
        views,
        prefix,
    ).map_values(|t: Seq<char>| CandidateView::View(t))
}

impl YspCompleter {
    /// A completer over these cached table and view names.
    pub fn new(tables: Vec<String>, views: Vec<String>) -> (r: Self)
        ensures
            r.tables == tables,
            r.views == views,
    {
        YspCompleter { tables, views }
    }

    /// Complete an object name: the candidates for the trailing text
    /// after `select * from ` or `desc `, per [`query_candidates`].
    pub fn complete_query(&self, trailing: &str) -> (r: Vec<YspCandidate>)
        ensures
            candidates_view(r@) == query_candidates(
                names_view(self.tables@),
                names_view(self.views@),
                upper_of(last_token(trailing@)),
            ),
    {
        let token = last_token_str(trailing);
        let prefix = to_upper(token.as_str());
        let table_matches = filter_strip_exec(&self.tables, prefix.as_str());
        let view_matches = filter_strip_exec(&self.views, prefix.as_str());
        let mut out: Vec<YspCandidate> = Vec::new();
        let tn = table_matches.len();
        let mut i: usize = 0;
        while i < tn
            invariant
                0 <= i <= tn,
                tn == table_matches@.len(),
                out@.len() == i,
                forall|k: int|
                    0 <= k < i ==> #[trigger] out@[k]@ == CandidateView::Table(
                        table_matches@[k]@,
                    ),
            decreases tn - i,
        {
            out.push(YspCandidate::Table(table_matches[i].clone()));
            i = i + 1;
        }
        let vn = view_matches.len();
        let mut j: usize = 0;
        while j < vn
            invariant
                0 <= j <= vn,
                vn == view_matches@.len(),
                tn == table_matches@.len(),
                out@.len() == tn + j,
                forall|k: int|
                    0 <= k < tn ==> #[trigger] out@[k]@ == CandidateView::Table(
                        table_matches@[k]@,
                    ),
                forall|k: int|
                    0 <= k < j ==> #[trigger] out@[tn + k]@ == CandidateView::View(
                        view_matches@[k]@,
                    ),
            decreases vn - j,
        {
            out.push(YspCandidate::View(view_matches[j].clone()));
            j = j + 1;
        }
        proof {
            let expected = query_candidates(
                names_view(self.tables@),
                names_view(self.views@),
                upper_of(last_token(trailing@)),
            );
            assert(names_view(table_matches@).len() == tn);
            assert(names_view(view_matches@).len() == vn);
            assert(expected.len() == tn + vn);
            assert forall|k: int| 0 <= k < tn + vn implies candidates_view(out@)[k]
                == expected[k] by {
                if k < tn {
                    assert(out@[k]@ == CandidateView::Table(table_matches@[k]@));
                    assert(expected[k] == CandidateView::Table(
                        names_view(table_matches@)[k],
                    ));
                } else {
                    assert(out@[tn + (k - tn)]@ == CandidateView::View(
                        view_matches@[k - tn]@,
                    ));
                    assert(expected[k] == CandidateView::View(
                        names_view(view_matches@)[k - tn],
                    ));
                }
            }
            assert(candidates_view(out@) =~= expected);
        }
        out
    }
}

/// Complete a column name: each fetched column name starting with the
/// prefix, stripped of it, in order.
pub fn column_candidates(names: &Vec<String>, prefix: &str) -> (r: Vec<YspCandidate>)
    ensures
        candidates_view(r@) == filter_strip(names_view(names@), prefix@).map_values(
            |t: Seq<char>| CandidateView::Column(t),
        ),
{
    let matches_list = filter_strip_exec(names, prefix);
    let mut out: Vec<YspCandidate> = Vec::new();
    let n = matches_list.len();
    let mut i: usize = 0;
    while i < n
        invariant
            0 <= i <= n,
            n == matches_list@.len(),
            out@.len() == i,
            forall|k: int|
                0 <= k < i ==> #[trigger] out@[k]@ == CandidateView::Column(matches_list@[k]@),
        decreases n - i,
    {
        out.push(YspCandidate::Column(matches_list[i].clone()));
        i = i + 1;
    }
    assert(candidates_view(out@) =~= filter_strip(names_view(names@), prefix@).map_values(
        |t: Seq<char>| CandidateView::Column(t),
    ));
    out
}

/// The fixed keyword list offered when no object completion applies.
pub fn keywords() -> (r: Vec<&'static str>)
    ensures
        r@.len() == 3,
        r@[0]@ == "SELECT"@,
        r@[1]@ == "CREATE"@,
        r@[2]@ == "INSERT"@,
{
    let mut out: Vec<&'static str> = Vec::new();
    out.push("SELECT");
    out.push("CREATE");
    out.push("INSERT");
    out
}

} // verus!
