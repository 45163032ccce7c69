use vstd::prelude::*;

verus! {

/// What `str::trim` makes of a line: the line without leading or trailing whitespace.
pub uninterp spec fn trimmed(s: Seq<char>) -> Seq<char>;

/// Relies on `str::trim`: strips leading and trailing whitespace, so the result
/// depends on the line's characters alone.
#[verifier::external_body]
fn trim<'a>(s: &'a str) -> (r: &'a str)
    ensures
        r@ == trimmed(s@),
{
    s.trim()
}

/// The text that a placeholder line begins with.
pub open spec fn placeholder_prefix() -> Seq<char> {
    "Empty content in file ["@
}

/// The single line that stands in for a source with nothing to practise.
pub open spec fn placeholder(name: Seq<char>) -> Seq<char> {
    placeholder_prefix() + name + "]"@
}

/// The trimmed raw lines that are not blank, in their original order.
pub open spec fn kept_lines(raw: Seq<Seq<char>>) -> Seq<Seq<char>> {
    raw.map_values(|s: Seq<char>| trimmed(s)).filter(|t: Seq<char>| t.len() > 0)
}

/// The lines of a session over the raw lines of a source named `name`.
pub open spec fn loaded_lines(raw: Seq<Seq<char>>, name: Seq<char>) -> Seq<Seq<char>> {
    let kept = kept_lines(raw);
    if kept.len() == 0 {
        seq![placeholder(name)]
    } else {
        kept
    }
}

/// Trims each raw line and drops the blank ones; a source left with no line
/// gets the placeholder that names it.
pub fn load_lines(raw: &Vec<&str>, file_name: &str) -> (r: Vec<String>)
    ensures
        r@.map_values(|s: String| s@) == loaded_lines(raw@.map_values(|s: &str| s@), file_name@),
        forall|i: int| 0 <= i < r@.len() ==> #[trigger] r@[i]@.len() > 0,
{
    let ghost rv = raw@.map_values(|s: &str| s@);
    let mut r: Vec<String> = Vec::new();
    let mut i: usize = 0;
    while i < raw.len()
        invariant
            i <= raw.len(),
            rv == raw@.map_values(|s: &str| s@),
            r@.map_values(|s: String| s@) == kept_lines(rv.take(i as int)),
            forall|j: int| 0 <= j < r@.len() ==> #[trigger] r@[j]@.len() > 0,
        decreases raw.len() - i,
    {
        let line = trim(raw[i]);
        proof {
            let pred = |t: Seq<char>| t.len() > 0;
            let before = rv.take(i as int).map_values(|s: Seq<char>| trimmed(s));
            assert(rv.take(i + 1).map_values(|s: Seq<char>| trimmed(s)) =~= before.push(line@));
            before.lemma_filter_push(line@, pred);
        }
        if !line.is_empty() {
            let owned = line.to_owned();
            r.push(owned);
            assert(r@.map_values(|s: String| s@) =~= kept_lines(rv.take(i as int)).push(line@));
        }
        i += 1;
    }
    assert(rv.take(raw.len() as int) =~= rv);
    if r.len() < 1 {
        let mut p = "Empty content in file [".to_owned();
        p.append(file_name);
        p.append("]");
        proof {
            reveal_strlit("]");
        }
        r.push(p);
        assert(r@.map_values(|s: String| s@) =~= seq![placeholder(file_name@)]);
    }
    r
}

/// Only blank lines give no line to keep.
proof fn lemma_blank_lines_keep_nothing(raw: Seq<Seq<char>>)
    requires
        forall|i: int| 0 <= i < raw.len() ==> #[trigger] trimmed(raw[i]).len() == 0,
    ensures
        kept_lines(raw).len() == 0,
    decreases raw.len(),
{
    reveal(Seq::filter);
    if raw.len() > 0 {
        lemma_blank_lines_keep_nothing(raw.drop_last());
        assert(raw.map_values(|s: Seq<char>| trimmed(s)).drop_last() =~= raw.drop_last().map_values(
            |s: Seq<char>| trimmed(s),
        ));
        assert(trimmed(raw[raw.len() - 1]).len() == 0);
    }
}

/// A source whose lines are all blank, or that has none, loads as exactly one
/// line: the placeholder, which holds the source's name after its fixed prefix.
pub proof fn lemma_blank_source_loads_placeholder(raw: Seq<Seq<char>>, name: Seq<char>)
    requires
        forall|i: int| 0 <= i < raw.len() ==> #[trigger] trimmed(raw[i]).len() == 0,
    ensures
        loaded_lines(raw, name) == seq![placeholder(name)],
        placeholder(name).subrange(
            placeholder_prefix().len() as int,
            (placeholder_prefix().len() + name.len()) as int,
        ) == name,
{
    lemma_blank_lines_keep_nothing(raw);
    assert(placeholder(name).subrange(
        placeholder_prefix().len() as int,
        (placeholder_prefix().len() + name.len()) as int,
    ) =~= name);
}

} // verus!
