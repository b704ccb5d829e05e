//! Searching: which sources to ask, and what of their answers to show.
use vstd::prelude::*;

verus! {

/// Which of the two package sources a search asks.
#[derive(Clone, Copy, Debug, PartialEq, Eq, Structural)]
pub struct SearchPlan {
    /// Ask the official repositories through the package manager.
    pub official: bool,
    /// Ask the AUR's search endpoint.
    pub aur: bool,
}

/// Chooses the sources for a search from the two filter flags.
///
/// The flags never conflict: `aur_only` skips the official repositories and
/// `pacman_only` skips the AUR, so with both set nothing is asked.
pub fn plan_search(pacman_only: bool, aur_only: bool) -> (r: SearchPlan)
    ensures
        r.official == !aur_only,
        r.aur == !pacman_only,
{
    SearchPlan { official: !aur_only, aur: !pacman_only }
}

/// How many lines of the official search, and how many AUR results, are shown.
pub const SHOWN: usize = 10;

/// A line without the carriage return that ended it together with a newline.
pub open spec fn strip_cr(line: Seq<u8>) -> Seq<u8> {
    if line.len() > 0 && line.last() == 13u8 {
        line.drop_last()
    } else {
        line
    }
}

/// The lines of `s` from the one that starts at `start`, scanning from `i`:
/// each ends at a newline, which is dropped with a carriage return just
/// before it, and a last line without a newline counts when it is not empty.
pub open spec fn lines_from(s: Seq<u8>, start: int, i: int) -> Seq<Seq<u8>>
    decreases s.len() - i,
{
    if i >= s.len() {
        if start < s.len() {
            seq![s.subrange(start, s.len() as int)]
        } else {
            Seq::empty()
        }
    } else if s[i] == 10u8 {
        seq![strip_cr(s.subrange(start, i))] + lines_from(s, i + 1, i + 1)
    } else {
        lines_from(s, start, i + 1)
    }
}

/// The lines of a command's output.
pub open spec fn lines_of(s: Seq<u8>) -> Seq<Seq<u8>> {
    lines_from(s, 0, 0)
}

/// The first `n` lines, or all of them when there are fewer.
pub open spec fn first_lines(lines: Seq<Seq<u8>>, n: int) -> Seq<Seq<u8>> {
    if lines.len() <= n {
        lines
    } else {
        lines.take(n)
    }
}

/// The part of the official search's output that is shown: its first
/// [`SHOWN`] lines. `None` when the output is empty, which means that no
/// official package matched.
pub fn official_preview(output: &Vec<u8>) -> (r: Option<Vec<Vec<u8>>>)
    ensures
        output@.len() == 0 <==> r is None,
        r matches Some(lines) ==> lines@.map_values(|l: Vec<u8>| l@) == first_lines(
            lines_of(output@),
            SHOWN as int,
        ),
{
    if output.len() == 0 {
        return None;
    }
    let ghost s = output@;
    let mut lines: Vec<Vec<u8>> = Vec::new();
    let mut current: Vec<u8> = Vec::new();
    let mut i: usize = 0;
    let ghost mut start: int = 0;
    while i < output.len()
        invariant
            s == output@,
            0 <= start <= i <= s.len(),
            current@ == s.subrange(start, i as int),
            lines@.len() < SHOWN,
            lines@.map_values(|l: Vec<u8>| l@) + lines_from(s, start, i as int) == lines_of(s),
        decreases s.len() - i,
    {
        let b = output[i];
        if b == 10u8 {
            let ghost line = s.subrange(start, i as int);
            let ghost before = lines@.map_values(|l: Vec<u8>| l@);
            assert(lines_from(s, start, i as int) == seq![strip_cr(line)] + lines_from(
                s,
                i + 1,
                i + 1,
            ));
            if current.len() > 0 && current[current.len() - 1] == 13u8 {
                current.pop();
            }
            assert(current@ == strip_cr(line));
            lines.push(current);
            current = Vec::new();
            i = i + 1;
            proof {
                start = i as int;
                assert(lines@.map_values(|l: Vec<u8>| l@) =~= before + seq![strip_cr(line)]);
                assert(lines@.map_values(|l: Vec<u8>| l@) + lines_from(s, start, i as int) =~= before
                    + (seq![strip_cr(line)] + lines_from(s, start, i as int)));
            }
            if lines.len() == SHOWN {
                assert(first_lines(lines_of(s), SHOWN as int) =~= lines@.map_values(|l: Vec<u8>| l@));
                return Some(lines);
            }
        } else {
            current.push(b);
            i = i + 1;
            assert(current@ =~= s.subrange(start, i as int));
        }
    }
    let ghost before = lines@.map_values(|l: Vec<u8>| l@);
    if current.len() > 0 {
        lines.push(current);
        assert(lines@.map_values(|l: Vec<u8>| l@) =~= lines_of(s));
    } else {
        assert(before =~= lines_of(s));
    }
    Some(lines)
}

/// One package of an AUR search answer.
#[derive(Debug)]
pub struct AurPackage {
    pub name: String,
    pub version: String,
    /// Absent when the package has no description.
    pub description: Option<String>,
}

/// The AUR's search answer: the count it reports, and the packages.
#[derive(Debug)]
pub struct AurResponse {
    pub resultcount: i32,
    pub results: Vec<AurPackage>,
}

/// One row of the table of AUR results: name, version, description.
#[derive(Debug)]
pub struct AurRow {
    pub name: String,
    pub version: String,
    pub description: String,
}

/// What an AUR search shows.
#[derive(Debug)]
pub enum AurReport {
    /// The answer reports no result: a "not found" message, and no table.
    NotFound,
    /// The answer reports `count` results; the table holds `rows`.
    Found { count: i32, rows: Vec<AurRow> },
}

/// The text shown for a package without a description.
pub open spec fn placeholder() -> Seq<char> {
    "No description"@
}

/// The description column of a package.
pub open spec fn description_of(d: Option<String>) -> Seq<char> {
    match d {
        Some(s) => s@,
        None => placeholder(),
    }
}

/// The row that shows a package.
pub open spec fn shows(row: AurRow, p: AurPackage) -> bool {
    &&& row.name@ == p.name@
    &&& row.version@ == p.version@
    &&& row.description@ == description_of(p.description)
}

/// The number of rows shown for `n` results.
pub open spec fn shown_count(n: int) -> int {
    if n < SHOWN { n } else { SHOWN as int }
}

fn row_of(p: &AurPackage) -> (r: AurRow)
    ensures
        shows(r, *p),
{
    let description = match &p.description {
        Some(d) => d.clone(),
        None => String::from_str("No description"),
    };
    AurRow { name: p.name.clone(), version: p.version.clone(), description }
}

/// Turns the AUR's answer into what is shown: "not found" when the reported
/// count is not positive, else a table of the first [`SHOWN`] packages in
/// their order, each description falling back to a placeholder.
pub fn aur_report(resp: &AurResponse) -> (r: AurReport)
    ensures
        resp.resultcount <= 0 <==> r is NotFound,
        r matches AurReport::Found { count, rows } ==> {
            &&& count == resp.resultcount
            &&& rows@.len() == shown_count(resp.results@.len() as int)
            &&& forall|i: int| 0 <= i < rows@.len() ==> shows(#[trigger] rows@[i], resp.results@[i])
        },
{
    if resp.resultcount <= 0 {
        return AurReport::NotFound;
    }
    let mut rows: Vec<AurRow> = Vec::new();
    let mut i: usize = 0;
    while i < resp.results.len() && i < SHOWN
        invariant
            i <= resp.results@.len(),
            i <= SHOWN,
            rows@.len() == i,
            forall|j: int| 0 <= j < i ==> shows(#[trigger] rows@[j], resp.results@[j]),
        decreases resp.results@.len() - i,
    {
        rows.push(row_of(&resp.results[i]));
        i = i + 1;
    }
    AurReport::Found { count: resp.resultcount, rows }
}

} // verus!
