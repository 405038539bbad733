//! Building message text: decimal and hexadecimal numerals, and lists of
//! strings seen as sequences of characters.

use vstd::prelude::*;
use vstd::string::StringExecFns;

verus! {

/// The character of one decimal digit.
pub open spec fn digit_char(d: int) -> char {
    if d == 0 {
        '0'
    } else if d == 1 {
        '1'
    } else if d == 2 {
        '2'
    } else if d == 3 {
        '3'
    } else if d == 4 {
        '4'
    } else if d == 5 {
        '5'
    } else if d == 6 {
        '6'
    } else if d == 7 {
        '7'
    } else if d == 8 {
        '8'
    } else {
        '9'
    }
}

/// The decimal numeral of `n`, without sign or leading zeros; "0" for zero.
pub open spec fn decimal(n: nat) -> Seq<char>
    decreases n,
{
    if n < 10 {
        seq![digit_char(n as int)]
    } else {
        decimal(n / 10).push(digit_char((n % 10) as int))
    }
}

/// The character of one hexadecimal digit, in lower case.
pub open spec fn hex_char(d: int) -> char {
    if d < 10 {
        digit_char(d)
    } else if d == 10 {
        'a'
    } else if d == 11 {
        'b'
    } else if d == 12 {
        'c'
    } else if d == 13 {
        'd'
    } else if d == 14 {
        'e'
    } else {
        'f'
    }
}

/// The two lower-case hexadecimal digits of a byte, high digit first.
pub open spec fn hex2(b: u8) -> Seq<char> {
    seq![hex_char(b as int / 16), hex_char(b as int % 16)]
}

/// The text of a hexadecimal digit as a one-character string.
fn hex_digit_str(d: u8) -> (s: &'static str)
    requires
        d < 16,
    ensures
        s@ == seq![hex_char(d as int)],
{
    proof {
        reveal_strlit("0");
        reveal_strlit("1");
        reveal_strlit("2");
        reveal_strlit("3");
        reveal_strlit("4");
        reveal_strlit("5");
        reveal_strlit("6");
        reveal_strlit("7");
        reveal_strlit("8");
        reveal_strlit("9");
        reveal_strlit("a");
        reveal_strlit("b");
        reveal_strlit("c");
        reveal_strlit("d");
        reveal_strlit("e");
        reveal_strlit("f");
    }
    let s = match d {
        0 => "0",
        1 => "1",
        2 => "2",
        3 => "3",
        4 => "4",
        5 => "5",
        6 => "6",
        7 => "7",
        8 => "8",
        9 => "9",
        10 => "a",
        11 => "b",
        12 => "c",
        13 => "d",
        14 => "e",
        _ => "f",
    };
    assert(s@ =~= seq![hex_char(d as int)]);
    s
}

/// Appends the decimal numeral of `n` to `out`.
pub fn push_decimal(out: &mut String, n: u64)
    ensures
        final(out)@ == old(out)@ + decimal(n as nat),
{
    push_decimal_wide(out, n as u128);
}

/// Appends the decimal numeral of a number of up to 128 bits to `out`.
pub fn push_decimal_wide(out: &mut String, n: u128)
    ensures
        final(out)@ == old(out)@ + decimal(n as nat),
    decreases n,
{
    if n >= 10 {
        push_decimal_wide(out, n / 10);
    }
    let d: u8 = (n % 10) as u8;
    out.append(hex_digit_str(d));
    proof {
        if n >= 10 {
            assert(final(out)@ =~= old(out)@ + decimal(n as nat));
        } else {
            assert(final(out)@ =~= old(out)@ + decimal(n as nat));
        }
    }
}

/// Appends the two hexadecimal digits of `b` to `out`.
pub fn push_hex2(out: &mut String, b: u8)
    ensures
        final(out)@ == old(out)@ + hex2(b),
{
    out.append(hex_digit_str(b / 16));
    out.append(hex_digit_str(b % 16));
    proof {
        assert(final(out)@ =~= old(out)@ + hex2(b));
    }
}

/// The decimal numeral of `n` as a string.
pub fn decimal_string(n: u64) -> (s: String)
    ensures
        s@ == decimal(n as nat),
{
    let mut s = String::new();
    push_decimal(&mut s, n);
    proof {
        assert(s@ =~= decimal(n as nat));
    }
    s
}

/// A list of strings seen as a sequence of character sequences.
pub open spec fn lines(v: Seq<String>) -> Seq<Seq<char>> {
    v.map_values(|s: String| s@)
}

/// Pushing a string onto a list pushes its text onto the list's lines.
pub proof fn lemma_lines_push(v: Seq<String>, s: String)
    ensures
        lines(v.push(s)) == lines(v).push(s@),
{
    assert(lines(v.push(s)) =~= lines(v).push(s@));
}

/// Appends a string to a list.
pub fn push_line(out: &mut Vec<String>, line: String)
    ensures
        lines(final(out)@) == lines(old(out)@).push(line@),
{
    proof {
        lemma_lines_push(out@, line);
    }
    out.push(line);
}

/// Appends the lines of `more` to `out`.
pub fn push_lines(out: &mut Vec<String>, more: Vec<String>)
    ensures
        lines(final(out)@) == lines(old(out)@) + lines(more@),
{
    let mut more = more;
    let ghost all = more@;
    let ghost start = out@;
    proof {
        assert(lines(out@) + lines(more@) =~= lines(start) + lines(all));
    }
    out.append(&mut more);
    proof {
        assert(lines(out@) =~= lines(start) + lines(all));
    }
}

/// A copy of a list of strings.
pub fn copy_lines(list: &Vec<String>) -> (copy: Vec<String>)
    ensures
        lines(copy@) == lines(list@),
{
    let mut copy: Vec<String> = Vec::new();
    let mut i: usize = 0;
    while i < list.len()
        invariant
            i <= list.len(),
            lines(copy@) == lines(list@.take(i as int)),
        decreases list.len() - i,
    {
        let line = list[i].clone();
        proof {
            lemma_lines_push(copy@, line);
            assert(lines(list@.take(i + 1)) =~= lines(list@.take(i as int)).push(list@[i as int]@));
        }
        copy.push(line);
        i += 1;
    }
    proof {
        assert(list@.take(list@.len() as int) =~= list@);
    }
    copy
}

/// The parts written one after the other with `separator` between them.
pub open spec fn joined(parts: Seq<Seq<char>>, separator: Seq<char>) -> Seq<char>
    decreases parts.len(),
{
    if parts.len() == 0 {
        Seq::empty()
    } else if parts.len() == 1 {
        parts[0]
    } else {
        joined(parts.drop_last(), separator) + separator + parts.last()
    }
}

/// The strings of a list written one after the other with `separator`
/// between them.
pub fn join_lines(parts: &Vec<String>, separator: &str) -> (s: String)
    ensures
        s@ == joined(lines(parts@), separator@),
{
    let mut s = String::new();
    let mut i: usize = 0;
    proof {
        assert(lines(parts@.take(0)) =~= Seq::<Seq<char>>::empty());
    }
    while i < parts.len()
        invariant
            i <= parts.len(),
            s@ == joined(lines(parts@.take(i as int)), separator@),
        decreases parts.len() - i,
    {
        let ghost before = s@;
        if i > 0 {
            s.append(separator);
        }
        s.append(parts[i].as_str());
        proof {
            let next = lines(parts@.take(i + 1));
            assert(next.drop_last() =~= lines(parts@.take(i as int)));
            assert(next.last() == parts@[i as int]@);
            if i == 0 {
                assert(s@ =~= parts@[0]@);
                assert(next[0] == parts@[0]@);
            } else {
                assert(s@ =~= before + separator@ + parts@[i as int]@);
            }
        }
        i += 1;
    }
    proof {
        assert(parts@.take(parts@.len() as int) =~= parts@);
    }
    s
}

} // verus!
