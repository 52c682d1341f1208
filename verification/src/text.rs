//! Small operations on text that the query encoding is built from.

use vstd::prelude::*;
use vstd::string::*;

verus! {

/// The character that writes a single decimal digit.
pub open spec fn digit_char(d: int) -> char {
    if d == 0 {
        '0'
    } else if d == 1 {
        '1'
    } else if d == 2 {
        '2'
    } else if d == 3 {
        '3'
    } else if d == 4 {
        '4'
    } else if d == 5 {
        '5'
    } else if d == 6 {
        '6'
    } else if d == 7 {
        '7'
    } else if d == 8 {
        '8'
    } else {
        '9'
    }
}

/// A number written in decimal, without sign or leading zeros.
pub open spec fn decimal_text(n: nat) -> Seq<char>
    decreases n,
{
    if n < 10 {
        seq![digit_char(n as int)]
    } else {
        decimal_text(n / 10).push(digit_char((n % 10) as int))
    }
}

/// Texts laid end to end with a separator between each two neighbours.
pub open spec fn joined(parts: Seq<Seq<char>>, sep: Seq<char>) -> Seq<char>
    decreases parts.len(),
{
    if parts.len() == 0 {
        Seq::empty()
    } else if parts.len() == 1 {
        parts[0]
    } else {
        joined(parts.drop_last(), sep) + sep + parts.last()
    }
}

/// Two texts are joined as the first, the separator, the second.
pub proof fn joined_pair(first: Seq<char>, second: Seq<char>, sep: Seq<char>)
    ensures
        joined(seq![first, second], sep) == first + sep + second,
{
    let parts = seq![first, second];
    assert(parts.drop_last() =~= seq![first]);
    assert(joined(parts.drop_last(), sep) == first);
}

/// A joined text begins with its first part and ends with its last part: no
/// separator stands before the first part or behind the last. It is as long as
/// its parts together and a separator for each part but the first.
pub proof fn joined_has_no_outer_separator(parts: Seq<Seq<char>>, sep: Seq<char>)
    requires
        parts.len() >= 1,
    ensures
        parts[0].is_prefix_of(joined(parts, sep)),
        parts.last().is_suffix_of(joined(parts, sep)),
        joined(parts, sep).len() == total_len(parts) + (parts.len() - 1) * sep.len(),
    decreases parts.len(),
{
    let whole = joined(parts, sep);
    if parts.len() == 1 {
        assert(total_len(parts.drop_last()) == 0);
        assert(whole.subrange(0, parts[0].len() as int) =~= parts[0]);
        assert(whole.subrange(whole.len() - parts.last().len(), whole.len() as int) =~= parts.last());
    } else {
        let earlier = parts.drop_last();
        joined_has_no_outer_separator(earlier, sep);
        let head = joined(earlier, sep);
        assert(earlier[0] == parts[0]);
        assert(head.subrange(0, parts[0].len() as int) == parts[0]);
        assert(whole.subrange(0, parts[0].len() as int) =~= head.subrange(
            0,
            parts[0].len() as int,
        ));
        assert(whole.subrange(whole.len() - parts.last().len(), whole.len() as int) =~= parts.last());
        assert((parts.len() - 1) * sep.len() == (earlier.len() - 1) * sep.len() + sep.len())
            by (nonlinear_arith)
            requires
                earlier.len() == parts.len() - 1,
        ;
    }
}

/// The lengths of the parts, added up.
pub open spec fn total_len(parts: Seq<Seq<char>>) -> nat
    decreases parts.len(),
{
    if parts.len() == 0 {
        0
    } else {
        total_len(parts.drop_last()) + parts.last().len()
    }
}

/// The views of a list of strings, in order.
pub open spec fn views(parts: Seq<String>) -> Seq<Seq<char>> {
    parts.map_values(|s: String| s@)
}

/// Whether two texts hold the same characters.
pub fn same_text(a: &str, b: &str) -> (same: bool)
    ensures
        same == (a@ == b@),
{
    a.to_owned() == b.to_owned()
}

/// The text of one decimal digit.
fn digit_str(d: u32) -> (text: &'static str)
    requires
        d < 10,
    ensures
        text@ == seq![digit_char(d as int)],
{
    proof {
        reveal_strlit("0");
        reveal_strlit("1");
        reveal_strlit("2");
        reveal_strlit("3");
        reveal_strlit("4");
        reveal_strlit("5");
        reveal_strlit("6");
        reveal_strlit("7");
        reveal_strlit("8");
        reveal_strlit("9");
    }
    let text = match d {
        0 => "0",
        1 => "1",
        2 => "2",
        3 => "3",
        4 => "4",
        5 => "5",
        6 => "6",
        7 => "7",
        8 => "8",
        _ => "9",
    };
    assert(text@ =~= seq![digit_char(d as int)]);
    text
}

/// Writes a number in decimal.
pub fn decimal(n: u32) -> (text: String)
    ensures
        text@ == decimal_text(n as nat),
    decreases n,
{
    if n < 10 {
        String::from_str(digit_str(n))
    } else {
        let mut text = decimal(n / 10);
        text.append(digit_str(n % 10));
        assert(text@ =~= decimal_text(n as nat));
        text
    }
}

/// Lays the parts end to end, with the separator between each two neighbours
/// and none before the first or after the last.
pub fn join(parts: &Vec<String>, sep: &str) -> (text: String)
    ensures
        text@ == joined(views(parts@), sep@),
{
    let mut text = String::new();
    let mut i: usize = 0;
    while i < parts.len()
        invariant
            i <= parts.len(),
            text@ == joined(views(parts@).take(i as int), sep@),
        decreases parts.len() - i,
    {
        let ghost before = views(parts@).take(i as int);
        let ghost after = views(parts@).take(i + 1);
        proof {
            assert(after.drop_last() =~= before);
            assert(after.last() == parts@[i as int]@);
        }
        if i > 0 {
            text.append(sep);
        }
        text.append(parts[i].as_str());
        proof {
            assert(text@ =~= joined(after, sep@));
        }
        i = i + 1;
    }
    proof {
        assert(views(parts@).take(i as int) =~= views(parts@));
    }
    text
}

} // verus!
