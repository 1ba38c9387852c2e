//! Parsing of print-subsystem discovery output: which printers the OS
//! reports, and which of them is the system default. The blocking calls
//! that produce the output live outside; everything that reads it is here.

use vstd::prelude::*;
use vstd::string::StrSliceExecFns;

use crate::text::{is_space, is_space_char, split_lines, split_to_lines, str_eq, trim_end,
    trim_start, trimmed};

verus! {

/// One printer visible to the OS, and whether it is the system default.
#[derive(Clone, Debug)]
pub struct Printer {
    pub name: String,
    pub is_default: bool,
}

/// The run of non-whitespace characters at the head of the text.
pub open spec fn token_prefix(s: Seq<char>) -> Seq<char>
    decreases s.len(),
{
    if s.len() > 0 && !is_space(s[0]) {
        seq![s[0]] + token_prefix(s.drop_first())
    } else {
        Seq::empty()
    }
}

/// The first whitespace-delimited token of the text; empty when there is
/// none.
pub open spec fn first_token(s: Seq<char>) -> Seq<char>
    decreases s.len(),
{
    if s.len() > 0 && is_space(s[0]) {
        first_token(s.drop_first())
    } else {
        token_prefix(s)
    }
}

/// What one line of listing output contributes: the printer name that
/// follows the `printer ` prefix, if the line carries one.
pub open spec fn parse_line(line: Seq<char>) -> Option<Seq<char>> {
    if line.len() >= 8 && line.take(8) == "printer "@ {
        let name = first_token(line.skip(8));
        if name.len() > 0 {
            Some(name)
        } else {
            None
        }
    } else {
        None
    }
}

/// The printers named by a sequence of lines, in order, each marked as the
/// default exactly when its name is the default printer's.
pub open spec fn parsed_printers(lines: Seq<Seq<char>>, dflt: Option<Seq<char>>) -> Seq<
    (Seq<char>, bool),
>
    decreases lines.len(),
{
    if lines.len() == 0 {
        Seq::empty()
    } else {
        let rest = parsed_printers(lines.drop_first(), dflt);
        match parse_line(lines.first()) {
            Some(name) => seq![(name, dflt == Some(name))] + rest,
            None => rest,
        }
    }
}

/// The printers a whole listing output names.
pub open spec fn printers_of(s: Seq<char>, dflt: Option<Seq<char>>) -> Seq<(Seq<char>, bool)> {
    parsed_printers(split_lines(s), dflt)
}

pub open spec fn opt_view(o: Option<String>) -> Option<Seq<char>> {
    match o {
        Some(s) => Some(s@),
        None => None,
    }
}

pub open spec fn printer_pairs(v: Seq<Printer>) -> Seq<(Seq<char>, bool)> {
    v.map_values(|p: Printer| (p.name@, p.is_default))
}

/// A scanned run of non-whitespace that ends at whitespace or at the end
/// of the text is exactly the token prefix.
proof fn lemma_token_prefix_scan(s: Seq<char>, start: int, e: int)
    requires
        0 <= start <= e <= s.len(),
        forall|k: int| start <= k < e ==> !is_space(s[k]),
        e < s.len() ==> is_space(s[e]),
    ensures
        token_prefix(s.skip(start)) =~= s.subrange(start, e),
    decreases e - start,
{
    let t = s.skip(start);
    if start == e {
        assert(s.subrange(start, e) =~= Seq::<char>::empty());
    } else {
        assert(t.drop_first() =~= s.skip(start + 1));
        lemma_token_prefix_scan(s, start + 1, e);
        assert(seq![t[0]] + s.subrange(start + 1, e) =~= s.subrange(start, e));
    }
}

/// Parse one line of listing output, exactly as `parse_line` states it.
pub fn parse_printer_line(line: &str) -> (r: Option<String>)
    ensures
        r is Some <==> parse_line(line@) is Some,
        r matches Some(nm) ==> parse_line(line@) == Some(nm@),
{
    proof {
        reveal_strlit("printer ");
    }
    let n = line.unicode_len();
    if n < 8 {
        return None;
    }
    let prefix = line.substring_char(0, 8);
    proof {
        assert(line@.take(8) =~= line@.subrange(0, 8));
    }
    if !str_eq(prefix, "printer ") {
        return None;
    }
    let mut start: usize = 8;
    while start < n && is_space_char(line.get_char(start))
        invariant
            n == line@.len(),
            8 <= start <= n,
            first_token(line@.skip(8)) == first_token(line@.skip(start as int)),
        decreases n - start,
    {
        proof {
            assert(line@.skip(start as int).drop_first() =~= line@.skip(start as int + 1));
        }
        start += 1;
    }
    let mut e: usize = start;
    while e < n && !is_space_char(line.get_char(e))
        invariant
            n == line@.len(),
            start <= e <= n,
            forall|k: int| start <= k < e ==> !is_space(line@[k]),
        decreases n - e,
    {
        e += 1;
    }
    proof {
        lemma_token_prefix_scan(line@, start as int, e as int);
        assert(first_token(line@.skip(start as int)) == token_prefix(line@.skip(start as int)));
    }
    if e == start {
        return None;
    }
    let name = line.substring_char(start, e).to_owned();
    Some(name)
}

/// Parse a whole printer listing: one entry per line that names a printer,
/// in the listing's order, each marked as the default exactly when its
/// name equals the given default printer's.
pub fn parse_printer_list(out: &str, default_name: &Option<String>) -> (r: Vec<Printer>)
    ensures
        printer_pairs(r@) == printers_of(out@, opt_view(*default_name)),
{
    let lines = split_to_lines(out);
    let ghost dv = opt_view(*default_name);
    let ghost lseq = lines.deep_view();
    let mut r: Vec<Printer> = Vec::new();
    let mut i: usize = 0;
    proof {
        assert(lseq.skip(0) =~= lseq);
    }
    while i < lines.len()
        invariant
            lseq == lines.deep_view(),
            dv == opt_view(*default_name),
            i <= lseq.len(),
            lines@.len() == lseq.len(),
            parsed_printers(lseq, dv) =~= printer_pairs(r@) + parsed_printers(
                lseq.skip(i as int),
                dv,
            ),
        decreases lseq.len() - i,
    {
        let ghost prev = r@;
        proof {
            assert(lseq[i as int] == lines@[i as int]@);
            assert(lseq.skip(i as int).first() == lseq[i as int]);
            assert(lseq.skip(i as int).drop_first() =~= lseq.skip(i as int + 1));
        }
        match parse_printer_line(lines[i].as_str()) {
            Some(name) => {
                let is_default = match default_name {
                    Some(d) => str_eq(name.as_str(), d.as_str()),
                    None => false,
                };
                proof {
                    assert(is_default == (dv == Some(name@)));
                }
                r.push(Printer { name, is_default });
                proof {
                    assert(printer_pairs(r@) =~= printer_pairs(prev) + seq![
                        (r@[r@.len() - 1].name@, r@[r@.len() - 1].is_default),
                    ]);
                }
            },
            None => {},
        }
        i += 1;
    }
    proof {
        assert(lseq.skip(lseq.len() as int) =~= Seq::<Seq<char>>::empty());
        assert(printer_pairs(r@) =~= parsed_printers(lseq, dv));
    }
    r
}

/// Whether a `name: value` separator stands at this position.
pub open spec fn sep_at(s: Seq<char>, i: int) -> bool {
    0 <= i && i + 2 <= s.len() && s[i] == ':' && s[i + 1] == ' '
}

/// The first `name: value` separator at or after the given position.
pub open spec fn find_sep(s: Seq<char>, from: int) -> Option<int>
    decreases s.len() - from,
{
    if from + 2 > s.len() {
        None
    } else if s[from] == ':' && s[from + 1] == ' ' {
        Some(from)
    } else {
        find_sep(s, from + 1)
    }
}

/// The default printer a `destination: NAME` style line names: the text
/// between the first separator and the next one (or the end), trimmed.
/// Output without a separator names none.
pub open spec fn default_printer_of(s: Seq<char>) -> Option<Seq<char>> {
    match find_sep(s, 0) {
        None => None,
        Some(i) => {
            let piece_end = match find_sep(s, i + 2) {
                Some(j) => j,
                None => s.len() as int,
            };
            Some(trimmed(s.subrange(i + 2, piece_end)))
        },
    }
}

fn find_sep_from(s: &str, from: usize) -> (r: Option<usize>)
    ensures
        r matches Some(j) ==> ({
            &&& from <= j
            &&& j + 2 <= s@.len()
            &&& find_sep(s@, from as int) == Some(j as int)
        }),
        r is None ==> find_sep(s@, from as int) is None,
{
    let n = s.unicode_len();
    let mut j: usize = from;
    while j < n && j + 1 < n
        invariant
            n == s@.len(),
            from <= j,
            find_sep(s@, from as int) == find_sep(s@, j as int),
        decreases n - j,
    {
        if s.get_char(j) == ':' && s.get_char(j + 1) == ' ' {
            return Some(j);
        }
        j += 1;
    }
    None
}

/// Parse the default-destination output, exactly as `default_printer_of`
/// states it.
pub fn parse_default_printer(out: &str) -> (r: Option<String>)
    ensures
        r is Some <==> default_printer_of(out@) is Some,
        r matches Some(p) ==> default_printer_of(out@) == Some(p@),
{
    let n = out.unicode_len();
    let i = match find_sep_from(out, 0) {
        Some(i) => i,
        None => {
            return None;
        },
    };
    let piece_end = match find_sep_from(out, i + 2) {
        Some(j) => j,
        None => n,
    };
    let ghost piece = out@.subrange(i as int + 2, piece_end as int);
    let mut ts: usize = i + 2;
    let mut te: usize = piece_end;
    while ts < te && is_space_char(out.get_char(ts))
        invariant
            n == out@.len(),
            i + 2 <= ts <= te,
            te == piece_end <= n,
            trim_start(piece) == trim_start(out@.subrange(ts as int, te as int)),
        decreases te - ts,
    {
        proof {
            assert(out@.subrange(ts as int, te as int).drop_first() =~= out@.subrange(
                ts as int + 1,
                te as int,
            ));
        }
        ts += 1;
    }
    proof {
        assert(trim_start(piece) == out@.subrange(ts as int, piece_end as int));
    }
    while te > ts && is_space_char(out.get_char(te - 1))
        invariant
            n == out@.len(),
            i + 2 <= ts <= te <= piece_end <= n,
            trim_end(out@.subrange(ts as int, piece_end as int)) == trim_end(
                out@.subrange(ts as int, te as int),
            ),
        decreases te,
    {
        proof {
            assert(out@.subrange(ts as int, te as int).drop_last() =~= out@.subrange(
                ts as int,
                te as int - 1,
            ));
        }
        te -= 1;
    }
    proof {
        assert(trimmed(piece) == out@.subrange(ts as int, te as int));
    }
    let name = out.substring_char(ts, te).to_owned();
    Some(name)
}

} // verus!
