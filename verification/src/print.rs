//! Numbers as text for the character display: decimal digits, padded with
//! spaces to a width.

use vstd::prelude::*;

verus! {

/// The side of its field to which a number is set.
#[derive(Clone, Copy, PartialEq, Eq, Debug, Structural)]
pub enum Alignment {
    Left,
    Right,
}

/// The character for the decimal digit `d`.
pub open spec fn digit(d: nat) -> u8 {
    (48 + d) as u8
}

/// The decimal digits of `n`, most significant first, as characters.
pub open spec fn digits(n: nat) -> Seq<u8>
    decreases n,
{
    if n < 10 {
        seq![digit(n)]
    } else {
        digits(n / 10).push(digit(n % 10))
    }
}

/// `count` copies of the character `c`.
pub open spec fn filler(c: u8, count: int) -> Seq<u8> {
    Seq::new(
        if count > 0 {
            count as nat
        } else {
            0
        },
        |i: int| c,
    )
}

/// `text` brought to `width` characters with spaces: in front of it when
/// it is aligned to the right, behind it when to the left. A text that is
/// wider stays as it is.
pub open spec fn padded(text: Seq<u8>, alignment: Alignment, width: nat) -> Seq<u8> {
    match alignment {
        Alignment::Right => filler(32, width - text.len()) + text,
        Alignment::Left => text + filler(32, width - text.len()),
    }
}

/// `text` brought to `width` characters with zeros in front of it.
pub open spec fn zero_filled(text: Seq<u8>, width: nat) -> Seq<u8> {
    filler(48, width - text.len()) + text
}

/// A number has at most ten digits when it fits 32 bits.
pub proof fn lemma_digits_len(n: nat)
    ensures
        1 <= digits(n).len(),
        n < 10 ==> digits(n).len() == 1,
        n <= 0xffff_ffff ==> digits(n).len() <= 10,
        forall|i: int| 0 <= i < digits(n).len() ==> 48 <= #[trigger] digits(n)[i] <= 57,
    decreases n,
{
    if n >= 10 {
        lemma_digits_len(n / 10);
        if n <= 0xffff_ffff {
            lemma_digits_bounded(n);
        }
    }
}

proof fn lemma_digits_bounded(n: nat)
    requires
        n <= 0xffff_ffff,
    ensures
        digits(n).len() <= 10,
{
    reveal_with_fuel(digits, 11);
    assert(n / 10 / 10 / 10 / 10 / 10 / 10 / 10 / 10 / 10 < 10);
}

/// Appends the decimal digits of `number` to `out`.
pub fn push_digits(out: &mut Vec<u8>, number: u32)
    ensures
        final(out)@ == old(out)@ + digits(number as nat),
{
    let ghost before = out@;
    let at: usize = out.len();
    let mut n: u32 = number;
    let d: u8 = (n % 10) as u8;
    out.push(48 + d);
    n = n / 10;
    assert(out@ =~= before + seq![digit((number % 10) as nat)]);
    while n != 0
        invariant
            at == before.len(),
            number >= 10 ==> n == 0 || digits(number as nat) =~= digits(n as nat) + out@.subrange(
                at as int,
                out@.len() as int,
            ),
            number < 10 ==> n == 0 && out@ =~= before + digits(number as nat),
            n == 0 && number >= 10 ==> out@ =~= before + digits(number as nat),
            out@.len() > at,
            out@.subrange(0, at as int) =~= before,
        decreases n,
    {
        let d: u8 = (n % 10) as u8;
        let ghost tail = out@.subrange(at as int, out@.len() as int);
        out.insert(at, 48 + d);
        proof {
            let now = out@.subrange(at as int, out@.len() as int);
            assert(now =~= seq![digit((n % 10) as nat)] + tail);
            if n >= 10 {
                assert(digits(n as nat) =~= digits((n / 10) as nat).push(digit((n % 10) as nat)));
                assert(digits(number as nat) =~= digits((n / 10) as nat) + now);
            } else {
                assert(digits(n as nat) =~= seq![digit(n as nat)]);
                assert(digits(number as nat) =~= now);
                assert(out@ =~= out@.subrange(0, at as int) + now);
            }
        }
        n = n / 10;
    }
}

/// The text of `number` in decimal, brought to `padding` characters with
/// spaces on the side that `alignment` leaves free.
pub fn format_number(number: u32, alignment: Alignment, padding: usize) -> (out: Vec<u8>)
    ensures
        out@ == padded(digits(number as nat), alignment, padding as nat),
{
    let mut out: Vec<u8> = Vec::new();
    push_digits(&mut out, number);
    assert(out@ =~= digits(number as nat));
    let ghost text = out@;
    match alignment {
        Alignment::Right => {
            while out.len() < padding
                invariant
                    out@ =~= filler(32, out@.len() - text.len()) + text,
                    out@.len() >= text.len(),
                    out@.len() <= padding || out@.len() == text.len(),
                decreases padding - out.len(),
            {
                out.insert(0, 32);
            }
        },
        Alignment::Left => {
            while out.len() < padding
                invariant
                    out@ =~= text + filler(32, out@.len() - text.len()),
                    out@.len() >= text.len(),
                    out@.len() <= padding || out@.len() == text.len(),
                decreases padding - out.len(),
            {
                out.push(32);
            }
        },
    }
    assert(out@ =~= padded(text, alignment, padding as nat));
    out
}

/// Appends `number` to `out` in decimal, with zeros in front up to `width`
/// digits.
pub fn push_zero_filled(out: &mut Vec<u8>, number: u32, width: usize)
    ensures
        final(out)@ == old(out)@ + zero_filled(digits(number as nat), width as nat),
{
    let ghost before = out@;
    let mut text: Vec<u8> = Vec::new();
    push_digits(&mut text, number);
    assert(text@ =~= digits(number as nat));
    let ghost plain = text@;
    while text.len() < width
        invariant
            text@ =~= filler(48, text@.len() - plain.len()) + plain,
            text@.len() >= plain.len(),
            text@.len() <= width || text@.len() == plain.len(),
        decreases width - text.len(),
    {
        text.insert(0, 48);
    }
    assert(text@ =~= zero_filled(plain, width as nat));
    let mut i: usize = 0;
    while i < text.len()
        invariant
            i <= text@.len(),
            out@ =~= before + text@.subrange(0, i as int),
        decreases text.len() - i,
    {
        out.push(text[i]);
        i = i + 1;
    }
    assert(text@.subrange(0, text@.len() as int) =~= text@);
}

/// Appends the characters of `text` to `out`.
pub fn push_all(out: &mut Vec<u8>, text: &Vec<u8>)
    ensures
        final(out)@ == old(out)@ + text@,
{
    let ghost before = out@;
    let mut i: usize = 0;
    while i < text.len()
        invariant
            i <= text@.len(),
            out@ =~= before + text@.subrange(0, i as int),
        decreases text.len() - i,
    {
        out.push(text[i]);
        i = i + 1;
    }
    assert(text@.subrange(0, text@.len() as int) =~= text@);
}

/// Appends `number` to `out` in decimal, brought to `width` characters
/// with spaces on the side that `alignment` leaves free.
pub fn push_number(out: &mut Vec<u8>, number: u32, alignment: Alignment, width: usize)
    ensures
        final(out)@ == old(out)@ + padded(digits(number as nat), alignment, width as nat),
{
    let text = format_number(number, alignment, width);
    push_all(out, &text);
}

} // verus!
