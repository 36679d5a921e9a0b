//! The delimited-table source: a header line, then `active,body,name[,...]` rows.
use vstd::prelude::*;
use crate::equation::{build_equations, fallback_name, sanitized, unique_name, views, Equation};
use crate::text::{comma_fields, eq_ascii_case_insensitive, eq_ignore_ascii_case, split_commas, trim, trimmed};

verus! {

/// The rows among `lines` (all of them, no header skipped) split into fields,
/// keeping those with at least three fields, in order.
pub open spec fn kept_rows(lines: Seq<Seq<char>>) -> Seq<Seq<Seq<char>>>
    decreases lines.len(),
{
    if lines.len() == 0 {
        Seq::empty()
    } else {
        let prev = kept_rows(lines.drop_last());
        let f = comma_fields(lines.last());
        if f.len() >= 3 {
            prev.push(f)
        } else {
            prev
        }
    }
}

/// The rows of a table that yield equations: those after the header with at
/// least three fields.
pub open spec fn table_rows(lines: Seq<Seq<char>>) -> Seq<Seq<Seq<char>>> {
    if lines.len() == 0 {
        Seq::empty()
    } else {
        kept_rows(lines.drop_first())
    }
}

/// A row is active when its first field, trimmed, is `yes` in any case.
pub open spec fn row_active(f: Seq<Seq<char>>) -> bool {
    eq_ascii_case_insensitive(trimmed(f[0]), "yes"@)
}

/// The body of a row: its second field, trimmed.
pub open spec fn row_body(f: Seq<Seq<char>>) -> Seq<char> {
    trimmed(f[1])
}

/// The base name of a row: its third field, trimmed, or the fallback name when that is blank.
pub open spec fn row_base(f: Seq<Seq<char>>) -> Seq<char> {
    if trimmed(f[2]).len() == 0 {
        fallback_name()
    } else {
        trimmed(f[2])
    }
}

/// What a table yields: one equation per kept row, in row order, named by
/// numbering repeated base names and sanitizing the result.
pub open spec fn table_equation_ok(rows: Seq<Seq<Seq<char>>>, i: int, e: Equation) -> bool {
    &&& e.active == row_active(rows[i])
    &&& e.body@ == row_body(rows[i])
    &&& e.name@ == sanitized(unique_name(rows.map_values(|f: Seq<Seq<char>>| row_base(f)), i))
}

/// Parses the lines of a table. The first line is a header; rows with fewer
/// than three fields are dropped.
pub fn parse_table(lines: &Vec<String>) -> (r: Vec<Equation>)
    ensures
        r.len() == table_rows(views(lines@)).len(),
        forall|i: int|
            0 <= i < r.len() ==> table_equation_ok(table_rows(views(lines@)), i, #[trigger] r[i]),
        forall|i: int| 0 <= i < r.len() ==> (#[trigger] r[i]).well_formed(),
{
    let ghost ls = views(lines@);
    let mut actives: Vec<bool> = Vec::new();
    let mut bodies: Vec<String> = Vec::new();
    let mut bases: Vec<String> = Vec::new();
    if lines.len() == 0 {
        return Vec::new();
    }
    let mut i: usize = 1;
    while i < lines.len()
        invariant
            ls == views(lines@),
            1 <= i <= lines.len(),
            actives.len() == bases.len(),
            bodies.len() == bases.len(),
            bases.len() == kept_rows(ls.subrange(1, i as int)).len(),
            forall|k: int|
                0 <= k < bases.len() ==> {
                    let f = #[trigger] kept_rows(ls.subrange(1, i as int))[k];
                    &&& actives[k] == row_active(f)
                    &&& bodies[k]@ == row_body(f)
                    &&& bases[k]@ == row_base(f)
                },
        decreases lines.len() - i,
    {
        let ghost prev = kept_rows(ls.subrange(1, i as int));
        assert(ls.subrange(1, i + 1).drop_last() =~= ls.subrange(1, i as int));
        let fields = split_commas(lines[i].as_str());
        if fields.len() >= 3 {
            assert(fields@.map_values(|f: String| f@)[0] == fields@[0]@);
            let ghost f = comma_fields(ls[i as int]);
            assert(fields@.map_values(|f: String| f@)[1] == fields@[1]@);
            assert(fields@.map_values(|f: String| f@)[2] == fields@[2]@);
            let active = eq_ignore_ascii_case(trim(fields[0].as_str()), "yes");
            let body = trim(fields[1].as_str());
            let name = trim(fields[2].as_str());
            let base = if name.is_empty() {
                crate::equation::FALLBACK_NAME
            } else {
                name
            };
            actives.push(active);
            bodies.push(body.to_owned());
            bases.push(base.to_owned());
        }
        i = i + 1;
    }
    proof {
        assert(ls.subrange(1, ls.len() as int) =~= ls.drop_first());
    }
    let ghost rows = table_rows(ls);
    assert(views(bases@) =~= rows.map_values(|f: Seq<Seq<char>>| row_base(f)));
    build_equations(&actives, &bases, &bodies)
}

} // verus!
