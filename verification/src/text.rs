//! Small verified text helpers shared by the request pipeline and the
//! printer-discovery parser.

use vstd::prelude::*;
use vstd::string::StrSliceExecFns;

verus! {

/// Character-wise string equality, proved against the string views.
pub fn str_eq(a: &str, b: &str) -> (r: bool)
    ensures
        r == (a@ == b@),
{
    let an = a.unicode_len();
    let bn = b.unicode_len();
    if an != bn {
        return false;
    }
    let mut i: usize = 0;
    while i < an
        invariant
            an == a@.len(),
            bn == b@.len(),
            an == bn,
            i <= an,
            forall|j: int| 0 <= j < i ==> a@[j] == b@[j],
        decreases an - i,
    {
        if a.get_char(i) != b.get_char(i) {
            return false;
        }
        i += 1;
    }
    proof {
        assert(a@ =~= b@);
    }
    true
}

/// Whitespace as the platform's tokenizing and trimming utilities treat
/// it: the characters of Unicode's `White_Space` set.
pub open spec fn is_space(c: char) -> bool {
    ||| c == '\u{0009}'
    ||| c == '\u{000A}'
    ||| c == '\u{000B}'
    ||| c == '\u{000C}'
    ||| c == '\u{000D}'
    ||| c == '\u{0020}'
    ||| c == '\u{0085}'
    ||| c == '\u{00A0}'
    ||| c == '\u{1680}'
    ||| c == '\u{2000}'
    ||| c == '\u{2001}'
    ||| c == '\u{2002}'
    ||| c == '\u{2003}'
    ||| c == '\u{2004}'
    ||| c == '\u{2005}'
    ||| c == '\u{2006}'
    ||| c == '\u{2007}'
    ||| c == '\u{2008}'
    ||| c == '\u{2009}'
    ||| c == '\u{200A}'
    ||| c == '\u{2028}'
    ||| c == '\u{2029}'
    ||| c == '\u{202F}'
    ||| c == '\u{205F}'
    ||| c == '\u{3000}'
}

pub fn is_space_char(c: char) -> (r: bool)
    ensures
        r == is_space(c),
{
    c == '\u{0009}' || c == '\u{000A}' || c == '\u{000B}' || c == '\u{000C}' || c == '\u{000D}'
        || c == '\u{0020}' || c == '\u{0085}' || c == '\u{00A0}' || c == '\u{1680}'
        || c == '\u{2000}' || c == '\u{2001}' || c == '\u{2002}' || c == '\u{2003}'
        || c == '\u{2004}' || c == '\u{2005}' || c == '\u{2006}' || c == '\u{2007}'
        || c == '\u{2008}' || c == '\u{2009}' || c == '\u{200A}' || c == '\u{2028}'
        || c == '\u{2029}' || c == '\u{202F}' || c == '\u{205F}' || c == '\u{3000}'
}

/// The text with leading whitespace dropped.
pub open spec fn trim_start(s: Seq<char>) -> Seq<char>
    decreases s.len(),
{
    if s.len() > 0 && is_space(s[0]) {
        trim_start(s.drop_first())
    } else {
        s
    }
}

/// The text with trailing whitespace dropped.
pub open spec fn trim_end(s: Seq<char>) -> Seq<char>
    decreases s.len(),
{
    if s.len() > 0 && is_space(s.last()) {
        trim_end(s.drop_last())
    } else {
        s
    }
}

/// The text with whitespace dropped from both ends.
pub open spec fn trimmed(s: Seq<char>) -> Seq<char> {
    trim_end(trim_start(s))
}

/// The text split at newlines: one entry per line, the separators dropped,
/// and no trailing empty entry when the text ends in a newline.
pub open spec fn split_lines(s: Seq<char>) -> Seq<Seq<char>>
    decreases s.len(),
{
    if s.len() == 0 {
        Seq::empty()
    } else if s[0] == '\n' {
        seq![Seq::<char>::empty()] + split_lines(s.drop_first())
    } else {
        let rest = split_lines(s.drop_first());
        if rest.len() == 0 {
            seq![seq![s[0]]]
        } else {
            seq![seq![s[0]] + rest[0]] + rest.drop_first()
        }
    }
}

/// A stretch without newlines that ends at one splits off as one whole
/// line.
proof fn lemma_split_lines_step(s: Seq<char>, start: int, e: int)
    requires
        0 <= start <= e < s.len(),
        forall|k: int| start <= k < e ==> s[k] != '\n',
        s[e] == '\n',
    ensures
        split_lines(s.skip(start)) =~= seq![s.subrange(start, e)] + split_lines(s.skip(e + 1)),
    decreases e - start,
{
    let t = s.skip(start);
    if start == e {
        assert(t.drop_first() =~= s.skip(e + 1));
        assert(s.subrange(start, e) =~= Seq::<char>::empty());
    } else {
        assert(t.drop_first() =~= s.skip(start + 1));
        lemma_split_lines_step(s, start + 1, e);
        let rest = split_lines(s.skip(start + 1));
        assert(seq![t[0]] + rest[0] =~= s.subrange(start, e));
        assert(rest.drop_first() =~= split_lines(s.skip(e + 1)));
    }
}

/// A final stretch without newlines is the last line — or nothing at all
/// when the text is already exhausted.
proof fn lemma_split_lines_tail(s: Seq<char>, start: int)
    requires
        0 <= start <= s.len(),
        forall|k: int| start <= k < s.len() ==> s[k] != '\n',
    ensures
        start == s.len() ==> split_lines(s.skip(start)) =~= Seq::<Seq<char>>::empty(),
        start < s.len() ==> split_lines(s.skip(start)) =~= seq![
            s.subrange(start, s.len() as int),
        ],
    decreases s.len() - start,
{
    let t = s.skip(start);
    if start == s.len() {
        assert(t =~= Seq::<char>::empty());
    } else {
        assert(t.drop_first() =~= s.skip(start + 1));
        lemma_split_lines_tail(s, start + 1);
        if start + 1 == s.len() {
            assert(seq![t[0]] =~= s.subrange(start, s.len() as int));
        } else {
            let rest = split_lines(s.skip(start + 1));
            assert(seq![t[0]] + rest[0] =~= s.subrange(start, s.len() as int));
        }
    }
}

/// Split a string into its lines, exactly as `split_lines` states it.
pub fn split_to_lines(s: &str) -> (r: Vec<String>)
    ensures
        r.deep_view() == split_lines(s@),
{
    let n = s.unicode_len();
    let mut r: Vec<String> = Vec::new();
    let mut pos: usize = 0;
    proof {
        assert(s@.skip(0) =~= s@);
    }
    while pos < n
        invariant
            n == s@.len(),
            pos <= n,
            split_lines(s@) =~= r.deep_view() + split_lines(s@.skip(pos as int)),
        decreases n - pos,
    {
        let mut e: usize = pos;
        while e < n && s.get_char(e) != '\n'
            invariant
                n == s@.len(),
                pos <= e <= n,
                forall|k: int| pos <= k < e ==> s@[k] != '\n',
            decreases n - e,
        {
            e += 1;
        }
        let ghost prev = r.deep_view();
        let line = s.substring_char(pos, e).to_owned();
        r.push(line);
        proof {
            assert(r.deep_view() =~= prev + seq![s@.subrange(pos as int, e as int)]);
            if e < n {
                lemma_split_lines_step(s@, pos as int, e as int);
            } else {
                lemma_split_lines_tail(s@, pos as int);
                assert(s@.skip(n as int) =~= Seq::<char>::empty());
            }
        }
        if e < n {
            pos = e + 1;
        } else {
            pos = n;
        }
    }
    proof {
        assert(s@.skip(n as int) =~= Seq::<char>::empty());
        assert(r.deep_view() =~= split_lines(s@));
    }
    r
}

} // verus!
