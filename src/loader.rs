use crate::store::pairs_view;
use vstd::prelude::*;

verus! {

/// The pieces of `s` between occurrences of `sep`, in order: one more piece
/// than there are separators, each possibly empty.
pub open spec fn split_spec(s: Seq<char>, sep: char) -> Seq<Seq<char>>
    decreases s.len(),
{
    if s.len() == 0 {
        seq![Seq::<char>::empty()]
    } else {
        let r = split_spec(s.drop_last(), sep);
        if s.last() == sep {
            r.push(Seq::<char>::empty())
        } else {
            r.update(r.len() - 1, r.last().push(s.last()))
        }
    }
}

/// The abstract value of a list of strings.
pub open spec fn strings_view(v: Seq<String>) -> Seq<Seq<char>> {
    v.map_values(|x: String| x@)
}

/// The entry a line stands for: its first two comma-separated fields, when
/// the line has at least two fields and neither of the first two is empty.
pub open spec fn entry_of_line(line: Seq<char>) -> Option<(Seq<char>, Seq<char>)> {
    let fields = split_spec(line, ',');
    if fields.len() >= 2 && fields[0].len() > 0 && fields[1].len() > 0 {
        Some((fields[0], fields[1]))
    } else {
        None
    }
}

/// The entries of a list of lines, in order, skipping lines that are no
/// entry.
pub open spec fn entries_of_lines(lines: Seq<Seq<char>>) -> Seq<(Seq<char>, Seq<char>)>
    decreases lines.len(),
{
    if lines.len() == 0 {
        Seq::empty()
    } else {
        let r = entries_of_lines(lines.drop_last());
        match entry_of_line(lines.last()) {
            Some(e) => r.push(e),
            None => r,
        }
    }
}

/// The entries of a text: one per line that is an entry.
pub open spec fn entries_of_text(text: Seq<char>) -> Seq<(Seq<char>, Seq<char>)> {
    entries_of_lines(split_spec(text, '\n'))
}

/// Relies on `str::split` with a `char` pattern: the substrings between
/// occurrences of `sep`, in order, empty ones included.
#[verifier::external_body]
fn split_on(s: &str, sep: char) -> (r: Vec<String>)
    ensures
        strings_view(r@) == split_spec(s@, sep),
{
    s.split(sep).map(String::from).collect()
}

/// Reads prompt/response pairs from comma-separated text: each line whose
/// first two fields are non-empty gives one pair; other lines are skipped,
/// and fields after the second are ignored.
pub fn parse_entries(text: &str) -> (r: Vec<(String, String)>)
    ensures
        pairs_view(r@) == entries_of_text(text@),
{
    let lines = split_on(text, '\n');
    let ghost ls = strings_view(lines@);
    let mut out: Vec<(String, String)> = Vec::new();
    let mut i: usize = 0;
    while i < lines.len()
        invariant
            ls == strings_view(lines@),
            ls == split_spec(text@, '\n'),
            i <= lines@.len(),
            pairs_view(out@) == entries_of_lines(ls.take(i as int)),
        decreases lines@.len() - i,
    {
        let fields = split_on(lines[i].as_str(), ',');
        assert(ls.take(i + 1).drop_last() =~= ls.take(i as int));
        assert(ls.take(i + 1).last() == lines@[i as int]@);
        if fields.len() >= 2 && !fields[0].as_str().is_empty() && !fields[1].as_str().is_empty() {
            let ghost before = out@;
            let prompt = fields[0].clone();
            let response = fields[1].clone();
            out.push((prompt, response));
            assert(pairs_view(out@) =~= pairs_view(before).push((prompt@, response@)));
        }
        i = i + 1;
    }
    assert(ls.take(lines@.len() as int) =~= ls);
    out
}

} // verus!
