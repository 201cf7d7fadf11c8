//! Text building blocks: decimal numbers and padding to a column width.
use vstd::prelude::*;
use vstd::string::*;

verus! {

/// The character of one decimal digit.
pub open spec fn digit_char(d: nat) -> char {
    if d == 0 {
        '0'
    } else if d == 1 {
        '1'
    } else if d == 2 {
        '2'
    } else if d == 3 {
        '3'
    } else if d == 4 {
        '4'
    } else if d == 5 {
        '5'
    } else if d == 6 {
        '6'
    } else if d == 7 {
        '7'
    } else if d == 8 {
        '8'
    } else {
        '9'
    }
}

/// A number written in decimal, without sign or leading zeros.
pub open spec fn decimal(n: nat) -> Seq<char>
    decreases n,
{
    if n < 10 {
        seq![digit_char(n)]
    } else {
        decimal(n / 10).push(digit_char(n % 10))
    }
}

/// `count` copies of `c`.
pub open spec fn repeated(c: char, count: nat) -> Seq<char> {
    Seq::new(count, |i: int| c)
}

/// `s` followed by as many spaces as it takes to reach `width` characters;
/// `s` itself where it is that long already.
pub open spec fn padded(s: Seq<char>, width: nat) -> Seq<char> {
    if s.len() >= width {
        s
    } else {
        s + repeated(' ', (width - s.len()) as nat)
    }
}

/// The text of one decimal digit.
fn digit_text(d: u8) -> (text: &'static str)
    requires
        d < 10,
    ensures
        text@ == seq![digit_char(d as nat)],
{
    proof {
        reveal_strlit("0");
        reveal_strlit("1");
        reveal_strlit("2");
        reveal_strlit("3");
        reveal_strlit("4");
        reveal_strlit("5");
        reveal_strlit("6");
        reveal_strlit("7");
        reveal_strlit("8");
        reveal_strlit("9");
    }
    let text = if d == 0 {
        "0"
    } else if d == 1 {
        "1"
    } else if d == 2 {
        "2"
    } else if d == 3 {
        "3"
    } else if d == 4 {
        "4"
    } else if d == 5 {
        "5"
    } else if d == 6 {
        "6"
    } else if d == 7 {
        "7"
    } else if d == 8 {
        "8"
    } else {
        "9"
    };
    assert(text@ =~= seq![digit_char(d as nat)]);
    text
}

/// `n` written in decimal.
pub fn decimal_text(n: usize) -> (text: String)
    ensures
        text@ == decimal(n as nat),
{
    let mut digits: Vec<u8> = Vec::new();
    let mut rest: usize = n;
    while rest >= 10
        invariant
            forall|i: int| 0 <= i < digits@.len() ==> digits@[i] < 10,
            decimal(n as nat) == decimal(rest as nat) + low_digits(digits@),
        decreases rest,
    {
        let d: u8 = (rest % 10) as u8;
        proof {
            assert(decimal(rest as nat) == decimal((rest / 10) as nat).push(digit_char(d as nat)));
            assert(low_digits(digits@.push(d)) == seq![digit_char(d as nat)] + low_digits(
                digits@,
            )) by {
                assert(digits@.push(d).drop_last() =~= digits@);
            }
            assert(decimal((rest / 10) as nat).push(digit_char(d as nat)) + low_digits(digits@)
                =~= decimal((rest / 10) as nat) + (seq![digit_char(d as nat)] + low_digits(
                digits@,
            )));
        }
        digits.push(d);
        rest = rest / 10;
    }
    let mut text = String::from_str(digit_text(rest as u8));
    let mut left: usize = digits.len();
    proof {
        assert(digits@.take(left as int) =~= digits@);
    }
    while left > 0
        invariant
            left <= digits@.len(),
            forall|i: int| 0 <= i < digits@.len() ==> digits@[i] < 10,
            text@ + low_digits(digits@.take(left as int)) == decimal(n as nat),
        decreases left,
    {
        proof {
            let head = digits@.take(left as int);
            assert(head.drop_last() =~= digits@.take(left - 1));
            assert(text@ + (seq![digit_char(head.last() as nat)] + low_digits(head.drop_last()))
                =~= (text@ + seq![digit_char(digits@[left - 1] as nat)]) + low_digits(
                digits@.take(left - 1),
            ));
        }
        left = left - 1;
        text.append(digit_text(digits[left]));
    }
    proof {
        assert(digits@.take(0) =~= Seq::<u8>::empty());
        assert(text@ + low_digits(Seq::<u8>::empty()) =~= text@);
    }
    text
}

/// The digits collected from the low end of a number, read back in the order
/// in which they are written: the digit collected last comes first.
pub open spec fn low_digits(collected: Seq<u8>) -> Seq<char>
    decreases collected.len(),
{
    if collected.len() == 0 {
        Seq::empty()
    } else {
        seq![digit_char(collected.last() as nat)] + low_digits(collected.drop_last())
    }
}

/// Appends `count` copies of the one-character text `unit` to `line`.
fn append_repeated(line: &mut String, unit: &str, c: char, count: usize)
    requires
        unit@ == seq![c],
    ensures
        final(line)@ == old(line)@ + repeated(c, count as nat),
{
    let mut done: usize = 0;
    while done < count
        invariant
            done <= count,
            unit@ == seq![c],
            line@ == old(line)@ + repeated(c, done as nat),
        decreases count - done,
    {
        line.append(unit);
        done = done + 1;
        assert(line@ =~= old(line)@ + repeated(c, done as nat));
    }
}

/// Appends `count` dashes to `line`.
pub fn append_dashes(line: &mut String, count: usize)
    ensures
        final(line)@ == old(line)@ + repeated('-', count as nat),
{
    proof {
        reveal_strlit("-");
    }
    assert("-"@ =~= seq!['-']);
    append_repeated(line, "-", '-', count);
}

/// Appends `cell` to `line`, then spaces until the cell is `width`
/// characters wide. A cell that is wider already is appended whole.
pub fn append_padded(line: &mut String, cell: &str, width: usize)
    ensures
        final(line)@ == old(line)@ + padded(cell@, width as nat),
{
    proof {
        reveal_strlit(" ");
    }
    assert(" "@ =~= seq![' ']);
    let used = cell.unicode_len();
    line.append(cell);
    if used < width {
        append_repeated(line, " ", ' ', width - used);
        assert(line@ =~= old(line)@ + padded(cell@, width as nat));
    }
}

} // verus!
