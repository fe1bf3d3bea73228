//! Texts, and numbers in decimal notation.
use vstd::prelude::*;

verus! {

/// The digit `d` as a character.
pub open spec fn digit(d: nat) -> char {
    ('0' as nat + d) as char
}

/// `n` in decimal notation.
pub open spec fn decimal(n: nat) -> Seq<char>
    decreases n,
{
    if n < 10 {
        seq![digit(n)]
    } else {
        decimal(n / 10).push(digit(n % 10))
    }
}

/// The texts of a list of strings.
pub open spec fn texts(list: Seq<String>) -> Seq<Seq<char>> {
    list.map_values(|s: String| s@)
}

/// The text of a string, if there is one.
pub open spec fn text_of(line: Option<String>) -> Option<Seq<char>> {
    match line {
        Some(s) => Some(s@),
        None => None,
    }
}

/// `n` in decimal notation, with a minus sign if it is negative.
pub open spec fn signed_decimal(n: int) -> Seq<char> {
    if n < 0 {
        "-"@ + decimal((-n) as nat)
    } else {
        decimal(n as nat)
    }
}

/// The text of one digit.
fn digit_str(d: usize) -> (s: &'static str)
    requires
        d < 10,
    ensures
        s@ == seq![digit(d as nat)],
{
    proof {
        reveal_strlit("0");
        reveal_strlit("1");
        reveal_strlit("2");
        reveal_strlit("3");
        reveal_strlit("4");
        reveal_strlit("5");
        reveal_strlit("6");
        reveal_strlit("7");
        reveal_strlit("8");
        reveal_strlit("9");
    }
    let s: &'static str = match d {
        0 => "0",
        1 => "1",
        2 => "2",
        3 => "3",
        4 => "4",
        5 => "5",
        6 => "6",
        7 => "7",
        8 => "8",
        _ => "9",
    };
    assert(s@ =~= seq![digit(d as nat)]);
    s
}

/// Appends `n` in decimal notation.
pub fn append_decimal(text: &mut String, n: usize)
    ensures
        final(text)@ == old(text)@ + decimal(n as nat),
    decreases n,
{
    let ghost before = text@;
    if n >= 10 {
        append_decimal(text, n / 10);
    }
    text.append(digit_str(n % 10));
    assert(text@ =~= before + decimal(n as nat));
}

/// Appends `n` in decimal notation, with a minus sign if it is negative.
pub fn append_signed(text: &mut String, n: i8)
    ensures
        final(text)@ == old(text)@ + signed_decimal(n as int),
{
    let ghost before = text@;
    if n < 0 {
        text.append("-");
        append_decimal(text, (-(n as i16)) as usize);
    } else {
        append_decimal(text, n as usize);
    }
    assert(text@ =~= before + signed_decimal(n as int));
}

/// The number that a text of digits stands for.
pub open spec fn read_decimal(text: Seq<char>) -> int
    decreases text.len(),
{
    if text.len() == 0 {
        0
    } else {
        read_decimal(text.drop_last()) * 10 + (text.last() as int - '0' as int)
    }
}

/// A number in decimal notation reads back as that number, is made of digits only, and has
/// no needless zero in front.
pub proof fn law_decimal_reads_back(n: nat)
    ensures
        read_decimal(decimal(n)) == n,
        decimal(n).len() > 0,
        forall|i: int| 0 <= i < decimal(n).len() ==> '0' <= #[trigger] decimal(n)[i] <= '9',
        n > 0 ==> decimal(n)[0] != '0',
        n == 0 ==> decimal(n).len() == 1,
    decreases n,
{
    reveal_with_fuel(read_decimal, 2);
    if n < 10 {
        assert(decimal(n).drop_last() =~= Seq::<char>::empty());
    } else {
        law_decimal_reads_back(n / 10);
        assert(decimal(n).drop_last() =~= decimal(n / 10));
        assert forall|i: int| 0 <= i < decimal(n).len() implies '0' <= #[trigger] decimal(n)[i]
            <= '9' by {
            if i < decimal(n).len() - 1 {
                assert(decimal(n)[i] == decimal(n / 10)[i]);
            }
        }
        assert(decimal(n)[0] == decimal(n / 10)[0]);
    }
}

/// A negative number is a minus sign and its size; any other is written without a sign.
pub proof fn law_sign_is_written(n: int)
    ensures
        n >= 0 ==> read_decimal(signed_decimal(n)) == n,
        n < 0 ==> signed_decimal(n).len() > 0 && signed_decimal(n)[0] == '-' && read_decimal(
            signed_decimal(n).skip(1),
        ) == -n,
{
    reveal_strlit("-");
    if n < 0 {
        law_decimal_reads_back((-n) as nat);
        assert(signed_decimal(n).skip(1) =~= decimal((-n) as nat));
    } else {
        law_decimal_reads_back(n as nat);
    }
}

/// Texts are taken over one by one, in order.
pub proof fn law_texts_are_complete(list: Seq<String>, line: Option<String>, i: int)
    ensures
        texts(list).len() == list.len(),
        0 <= i < list.len() ==> texts(list)[i] == list[i]@,
        line is None <==> text_of(line) is None,
        line matches Some(s) ==> text_of(line) == Some(s@),
{
}

} // verus!
