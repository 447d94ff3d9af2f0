//! Plain text building blocks: decimal numbers, padding, comma separated lists.

use vstd::prelude::*;
use vstd::string::*;

verus! {

/// The decimal digit for `d`.
pub open spec fn digit(d: nat) -> char {
    (48 + d) as char
}

/// `n` in decimal, without leading zeros.
pub open spec fn decimal_text(n: nat) -> Seq<char>
    decreases n,
{
    if n < 10 {
        seq![digit(n)]
    } else {
        decimal_text(n / 10).push(digit(n % 10))
    }
}

/// The number that a sequence of decimal digits stands for.
pub open spec fn decimal_value(s: Seq<char>) -> int
    decreases s.len(),
{
    if s.len() == 0 {
        0
    } else {
        10 * decimal_value(s.drop_last()) + (s.last() as int - 48)
    }
}

/// `n` blanks.
pub open spec fn blanks(n: nat) -> Seq<char> {
    Seq::new(n, |i: int| ' ')
}

/// `s`, filled up with blanks on the right to `width` characters.
pub open spec fn padded_right(s: Seq<char>, width: nat) -> Seq<char> {
    if s.len() >= width {
        s
    } else {
        s + blanks((width - s.len()) as nat)
    }
}

/// `s`, filled up with blanks on the left to `width` characters.
pub open spec fn padded_left(s: Seq<char>, width: nat) -> Seq<char> {
    if s.len() >= width {
        s
    } else {
        blanks((width - s.len()) as nat) + s
    }
}

/// The texts one after the other, with a comma between neighbours.
pub open spec fn comma_separated(texts: Seq<Seq<char>>) -> Seq<char>
    decreases texts.len(),
{
    if texts.len() == 0 {
        Seq::empty()
    } else if texts.len() == 1 {
        texts[0]
    } else {
        comma_separated(texts.drop_last()) + ","@ + texts.last()
    }
}

/// One decimal digit as text.
fn digit_str(d: u64) -> (r: &'static str)
    requires
        d < 10,
    ensures
        r@ == seq![digit(d as nat)],
{
    proof {
        reveal_strlit("0");
        reveal_strlit("1");
        reveal_strlit("2");
        reveal_strlit("3");
        reveal_strlit("4");
        reveal_strlit("5");
        reveal_strlit("6");
        reveal_strlit("7");
        reveal_strlit("8");
        reveal_strlit("9");
    }
    match d {
        0 => "0",
        1 => "1",
        2 => "2",
        3 => "3",
        4 => "4",
        5 => "5",
        6 => "6",
        7 => "7",
        8 => "8",
        _ => "9",
    }
}

/// Writes `n` in decimal.
pub fn decimal(n: u64) -> (r: String)
    ensures
        r@ == decimal_text(n as nat),
    decreases n,
{
    if n < 10 {
        digit_str(n).to_owned()
    } else {
        let mut r: String = decimal(n / 10);
        r.append(digit_str(n % 10));
        r
    }
}

/// Adds `n` blanks to `s`.
fn append_blanks(s: &mut String, n: usize)
    ensures
        final(s)@ == old(s)@ + blanks(n as nat),
{
    let mut done: usize = 0;
    while done < n
        invariant
            done <= n,
            s@ == old(s)@ + blanks(done as nat),
        decreases n - done,
    {
        proof {
            reveal_strlit(" ");
        }
        s.append(" ");
        done = done + 1;
    }
}

/// Fills `s` up with blanks on the right to `width` characters; a longer text
/// stays as it is.
pub fn pad_right(s: &str, width: usize) -> (r: String)
    ensures
        r@ == padded_right(s@, width as nat),
{
    let mut r: String = s.to_owned();
    let len: usize = s.unicode_len();
    if len < width {
        append_blanks(&mut r, width - len);
    }
    r
}

/// Fills `s` up with blanks on the left to `width` characters; a longer text
/// stays as it is.
pub fn pad_left(s: &str, width: usize) -> (r: String)
    ensures
        r@ == padded_left(s@, width as nat),
{
    let mut r: String = String::new();
    let len: usize = s.unicode_len();
    if len < width {
        append_blanks(&mut r, width - len);
    }
    r.append(s);
    r
}

/// Reading back what `decimal` writes gives the number that was written.
pub proof fn decimal_reads_back(n: nat)
    ensures
        decimal_value(decimal_text(n)) == n,
    decreases n,
{
    if n < 10 {
        reveal_with_fuel(decimal_value, 2);
        assert(seq![digit(n)].drop_last() =~= Seq::<char>::empty());
    } else {
        decimal_reads_back(n / 10);
        assert(decimal_text(n).drop_last() =~= decimal_text(n / 10));
    }
}

/// What `decimal` writes is made of decimal digits, and begins with a zero only where it
/// is the number zero.
pub proof fn decimals_are_plain(n: nat)
    ensures
        decimal_text(n).len() >= 1,
        forall|i: int|
            0 <= i < decimal_text(n).len() ==> '0' <= #[trigger] decimal_text(n)[i] <= '9',
        decimal_text(n)[0] == '0' ==> n == 0,
    decreases n,
{
    if n >= 10 {
        decimals_are_plain(n / 10);
    }
}

/// A digit stands for itself, and a digit put behind a number stands for ten times that
/// number and the digit.
pub proof fn digits_count_by_tens(n: nat, c: char)
    requires
        '0' <= c <= '9',
    ensures
        decimal_text((c as int - '0' as int) as nat) == seq![c],
        n > 0 ==> decimal_text((10 * n + (c as int - '0' as int)) as nat) == decimal_text(n).push(c),
{
    let d: nat = (c as int - '0' as int) as nat;
    assert(digit(d) == c);
    if n > 0 {
        assert((10 * n + d) / 10 == n);
        assert((10 * n + d) % 10 == d);
    }
}

/// Padding on the right keeps the text in front, adds blanks only, and only as many as
/// are needed.
pub proof fn padding_right_adds_blanks(s: Seq<char>, width: nat)
    ensures
        padded_right(s, width).len() == if s.len() < width {
            width
        } else {
            s.len()
        },
        padded_right(s, width).take(s.len() as int) == s,
        forall|i: int|
            s.len() <= i < padded_right(s, width).len() ==> #[trigger] padded_right(s, width)[i]
                == ' ',
{
    assert(padded_right(s, width).take(s.len() as int) =~= s);
}

/// Padding on the left keeps the text at the end, adds blanks only, and only as many as
/// are needed.
pub proof fn padding_left_adds_blanks(s: Seq<char>, width: nat)
    ensures
        padded_left(s, width).len() == if s.len() < width {
            width
        } else {
            s.len()
        },
        padded_left(s, width).skip(padded_left(s, width).len() - s.len()) == s,
        forall|i: int|
            0 <= i < padded_left(s, width).len() - s.len() ==> #[trigger] padded_left(s, width)[i]
                == ' ',
{
    assert(padded_left(s, width).skip(padded_left(s, width).len() - s.len()) =~= s);
}

/// Where the `i`th of some texts begins, with one character between neighbours.
pub open spec fn offset(texts: Seq<Seq<char>>, i: int) -> int
    decreases i,
{
    if i <= 0 {
        0
    } else {
        offset(texts, i - 1) + texts[i - 1].len() + 1
    }
}

/// Each text begins behind the ones before it.
proof fn lemma_offsets(texts: Seq<Seq<char>>, i: int, j: int)
    requires
        0 <= i < j <= texts.len(),
    ensures
        0 <= offset(texts, i),
        offset(texts, i) + texts[i].len() + 1 <= offset(texts, j),
    decreases j,
{
    if i > 0 {
        lemma_offsets(texts, 0, i);
    }
    if j > i + 1 {
        lemma_offsets(texts, i, j - 1);
    }
}

/// Leaving the last text out moves no other one.
proof fn lemma_offsets_of_fewer(texts: Seq<Seq<char>>, i: int)
    requires
        0 <= i <= texts.len() - 1,
    ensures
        offset(texts.drop_last(), i) == offset(texts, i),
    decreases i,
{
    if i > 0 {
        lemma_offsets_of_fewer(texts, i - 1);
    }
}

/// A comma separated list holds every one of its texts, in their order, with one comma
/// before each but the first, and nothing else.
pub proof fn lists_hold_every_text(texts: Seq<Seq<char>>)
    requires
        texts.len() > 0,
    ensures
        comma_separated(texts).len() == offset(texts, texts.len() as int) - 1,
        forall|i: int|
            0 <= i < texts.len() ==> comma_separated(texts).subrange(
                offset(texts, i),
                offset(texts, i) + (#[trigger] texts[i]).len(),
            ) == texts[i],
        forall|i: int|
            0 < i < texts.len() ==> comma_separated(texts)[#[trigger] offset(texts, i) - 1] == ',',
    decreases texts.len(),
{
    let n: int = texts.len() as int;
    let list = comma_separated(texts);
    reveal_strlit(",");
    if n == 1 {
        reveal_with_fuel(offset, 2);
        assert(list.subrange(0, texts[0].len() as int) =~= texts[0]);
    } else {
        let fewer = texts.drop_last();
        let start = comma_separated(fewer);
        lists_hold_every_text(fewer);
        lemma_offsets_of_fewer(texts, n - 1);
        assert(start.len() == offset(texts, n - 1) - 1);
        assert forall|i: int| 0 <= i < n implies list.subrange(
            offset(texts, i),
            offset(texts, i) + (#[trigger] texts[i]).len(),
        ) == texts[i] by {
            if i < n - 1 {
                lemma_offsets_of_fewer(texts, i);
                lemma_offsets(texts, i, n - 1);
                assert(fewer[i] == texts[i]);
                assert(start.subrange(offset(fewer, i), offset(fewer, i) + fewer[i].len())
                    == fewer[i]);
                assert(list.subrange(offset(texts, i), offset(texts, i) + texts[i].len())
                    =~= start.subrange(offset(fewer, i), offset(fewer, i) + fewer[i].len()));
            } else {
                assert(list.subrange(offset(texts, i), offset(texts, i) + texts[i].len())
                    =~= texts[i]);
            }
        }
        assert forall|i: int| 0 < i < n implies list[#[trigger] offset(texts, i) - 1] == ',' by {
            if i < n - 1 {
                lemma_offsets_of_fewer(texts, i);
                lemma_offsets(texts, i, n - 1);
                lemma_offsets(texts, 0, i);
                assert(start[offset(fewer, i) - 1] == ',');
                assert(list[offset(texts, i) - 1] == start[offset(texts, i) - 1]);
            }
        }
    }
}

/// A list of no texts is empty.
pub proof fn empty_lists_are_empty()
    ensures
        comma_separated(Seq::empty()).len() == 0,
{
}

/// Padding a text that was padded to the same width changes nothing.
pub proof fn padding_twice_is_padding_once(s: Seq<char>, width: nat)
    ensures
        padded_right(padded_right(s, width), width) == padded_right(s, width),
        padded_left(padded_left(s, width), width) == padded_left(s, width),
{
}

} // verus!
