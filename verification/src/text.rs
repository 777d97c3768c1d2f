use vstd::prelude::*;
use vstd::string::*;

verus! {

/// The character written for the decimal digit `d`.
pub open spec fn digit_char(d: int) -> char {
    seq!['0', '1', '2', '3', '4', '5', '6', '7', '8', '9'][d]
}

/// Decimal notation of `n`, most significant digit first, without padding.
pub open spec fn decimal(n: nat) -> Seq<char>
    decreases n,
{
    if n < 10 {
        seq![digit_char(n as int)]
    } else {
        decimal(n / 10).push(digit_char((n % 10) as int))
    }
}

fn digit_str(d: u16) -> (s: &'static str)
    requires
        d < 10,
    ensures
        s@ == seq![digit_char(d as int)],
{
    proof {
        reveal_strlit("0");
        reveal_strlit("1");
        reveal_strlit("2");
        reveal_strlit("3");
        reveal_strlit("4");
        reveal_strlit("5");
        reveal_strlit("6");
        reveal_strlit("7");
        reveal_strlit("8");
        reveal_strlit("9");
    }
    let s = match d {
        0 => "0",
        1 => "1",
        2 => "2",
        3 => "3",
        4 => "4",
        5 => "5",
        6 => "6",
        7 => "7",
        8 => "8",
        _ => "9",
    };
    assert(s@ =~= seq![digit_char(d as int)]);
    s
}

/// Writes a port number in decimal.
pub fn render_decimal(n: u16) -> (s: String)
    ensures
        s@ == decimal(n as nat),
    decreases n,
{
    if n < 10 {
        String::from_str(digit_str(n))
    } else {
        let mut s = render_decimal(n / 10);
        s.append(digit_str(n % 10));
        assert(s@ =~= decimal(n as nat));
        s
    }
}

/// What a path separator is replaced by in the name of a volume directory.
pub open spec fn separator_marker() -> Seq<char> {
    seq!['$', '_', '_', '$']
}

/// Whether `c` separates the parts of a path, on any system.
pub open spec fn is_separator(c: char) -> bool {
    c == '/' || c == '\\'
}

/// What stands for `c` in an escaped path.
pub open spec fn escaped_char(c: char) -> Seq<char> {
    if is_separator(c) {
        separator_marker()
    } else {
        seq![c]
    }
}

/// A path with each separator, forward or backward, replaced by the marker.
pub open spec fn escaped(path: Seq<char>) -> Seq<char>
    decreases path.len(),
{
    if path.len() == 0 {
        Seq::empty()
    } else {
        escaped(path.drop_last()) + escaped_char(path.last())
    }
}

/// An escaped path holds no separator, so it names one directory entry and
/// never a place deeper in, or outside of, the directory it is put in.
pub proof fn lemma_escaped_has_no_separator(path: Seq<char>)
    ensures
        forall|i: int| 0 <= i < escaped(path).len() ==> !is_separator(#[trigger] escaped(path)[i]),
    decreases path.len(),
{
    if path.len() > 0 {
        lemma_escaped_has_no_separator(path.drop_last());
        let head = escaped(path.drop_last());
        let tail = escaped_char(path.last());
        assert forall|i: int| 0 <= i < escaped(path).len() implies !is_separator(
            #[trigger] escaped(path)[i],
        ) by {
            if i < head.len() {
                assert(escaped(path)[i] == head[i]);
            } else {
                assert(escaped(path)[i] == tail[i - head.len()]);
            }
        }
    }
}

/// `String::push` of std: the character is appended to the end of the
/// string, and nothing else changes.
pub assume_specification[ String::push ](s: &mut String, ch: char)
    ensures
        final(s)@ == old(s)@.push(ch),
;

/// Replaces each separator of `path` by the marker.
pub fn escape_separators(path: &str) -> (out: String)
    ensures
        out@ == escaped(path@),
{
    let mut out = String::new();
    for c in it: path.chars()
        invariant
            it.seq() == path@,
            out@ == escaped(path@.take(it.index() as int)),
    {
        proof {
            reveal_strlit("$__$");
            let prefix = path@.take(it.index() + 1);
            assert(prefix.drop_last() =~= path@.take(it.index() as int));
            assert(prefix.last() == c);
        }
        if c == '/' || c == '\\' {
            out.append("$__$");
        } else {
            out.push(c);
        }
        assert(out@ =~= escaped(path@.take(it.index() + 1)));
    }
    assert(path@.take(path@.len() as int) =~= path@);
    out
}

/// `segment` adjoined to the directory `base`: an absolute segment stands
/// for itself, any other is put under `base`, after one separator.
pub open spec fn joined(base: Seq<char>, segment: Seq<char>) -> Seq<char> {
    if segment.len() > 0 && segment[0] == '/' {
        segment
    } else if base.len() == 0 || base.last() == '/' {
        base + segment
    } else {
        base + seq!['/'] + segment
    }
}

/// Adjoins `segment` to the directory `base`.
pub fn join_path(base: &str, segment: &str) -> (path: String)
    ensures
        path@ == joined(base@, segment@),
{
    if !segment.is_empty() && segment.get_char(0) == '/' {
        return String::from_str(segment);
    }
    let mut path = String::from_str(base);
    let length = base.unicode_len();
    if length > 0 && base.get_char(length - 1) != '/' {
        proof {
            reveal_strlit("/");
        }
        path.append("/");
    }
    path.append(segment);
    assert(path@ =~= joined(base@, segment@));
    path
}

} // verus!
