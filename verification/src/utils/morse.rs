//! Encoder from a 16-bit number to its optical code.
//!
//! A number is shown as its decimal digits, most significant first. Each
//! digit is a group of five symbols, dots and dashes, and one gap separates
//! neighbouring groups. The symbols are the ASCII bytes `.`, `-` and space.

use vstd::prelude::*;
use vstd::string::*;

verus! {

/// The short pulse, `.`.
pub const DOT: u8 = 0x2E;

/// The long pulse, `-`.
pub const DASH: u8 = 0x2D;

/// The separator between two digit groups, a space.
pub const GAP: u8 = 0x20;

/// The five symbols of one decimal digit: up to 5, that many dots and then
/// dashes; above 5, as many dashes as the digit exceeds 5 and then dots.
pub open spec fn digit_pattern(digit: nat) -> Seq<u8> {
    Seq::new(
        5,
        |i: int|
            if digit <= 5 {
                if i < digit {
                    DOT
                } else {
                    DASH
                }
            } else {
                if i < digit - 5 {
                    DASH
                } else {
                    DOT
                }
            },
    )
}

/// The decimal digits of `n`, most significant first; zero has the one digit 0.
pub open spec fn decimal_digits(n: nat) -> Seq<nat>
    decreases n,
{
    if n < 10 {
        seq![n]
    } else {
        decimal_digits(n / 10).push(n % 10)
    }
}

/// The digit groups of `digits`, in order, with one gap between neighbours.
pub open spec fn morse_of_digits(digits: Seq<nat>) -> Seq<u8>
    decreases digits.len(),
{
    if digits.len() == 0 {
        Seq::empty()
    } else if digits.len() == 1 {
        digit_pattern(digits[0])
    } else {
        morse_of_digits(digits.drop_last()) + seq![GAP] + digit_pattern(digits.last())
    }
}

/// The optical code of `number`.
pub open spec fn morse_encoding(number: u16) -> Seq<u8> {
    morse_of_digits(decimal_digits(number as nat))
}

/// Whether `a` is the start of `b`.
spec fn is_prefix(a: Seq<u8>, b: Seq<u8>) -> bool {
    a.len() <= b.len() && a == b.subrange(0, a.len() as int)
}

/// A number has at least one digit, and each digit is below ten.
pub proof fn lemma_decimal_digits(n: nat)
    ensures
        decimal_digits(n).len() >= 1,
        forall|i: int| 0 <= i < decimal_digits(n).len() ==> decimal_digits(n)[i] < 10,
        n < 10 ==> decimal_digits(n).len() == 1,
        10 <= n < 100 ==> decimal_digits(n).len() == 2,
        100 <= n < 1000 ==> decimal_digits(n).len() == 3,
        1000 <= n < 10000 ==> decimal_digits(n).len() == 4,
        10000 <= n < 100000 ==> decimal_digits(n).len() == 5,
    decreases n,
{
    if n >= 10 {
        lemma_decimal_digits(n / 10);
    }
}

/// A code of `k >= 1` digits has `6k - 1` symbols, each a dot, a dash or a gap.
pub proof fn lemma_morse_of_digits(digits: Seq<nat>)
    ensures
        digits.len() >= 1 ==> morse_of_digits(digits).len() == 6 * digits.len() - 1,
        digits.len() == 0 ==> morse_of_digits(digits).len() == 0,
        forall|i: int|
            0 <= i < morse_of_digits(digits).len() ==> {
                let symbol = #[trigger] morse_of_digits(digits)[i];
                symbol == DOT || symbol == DASH || symbol == GAP
            },
    decreases digits.len(),
{
    if digits.len() >= 2 {
        lemma_morse_of_digits(digits.drop_last());
    }
}

/// The code of every 16-bit number has between 5 and 29 symbols, each a dot,
/// a dash or a gap: it fits any destination of 29 bytes or more.
pub proof fn lemma_encoding_length(number: u16)
    ensures
        5 <= morse_encoding(number).len() <= 29,
        forall|i: int|
            0 <= i < morse_encoding(number).len() ==> {
                let symbol = #[trigger] morse_encoding(number)[i];
                symbol == DOT || symbol == DASH || symbol == GAP
            },
{
    lemma_decimal_digits(number as nat);
    lemma_morse_of_digits(decimal_digits(number as nat));
}

/// The code of a number's leading digits is the start of the number's code.
proof fn lemma_leading_digits(n: nat)
    requires
        n >= 10,
    ensures
        is_prefix(morse_of_digits(decimal_digits(n / 10)), morse_of_digits(decimal_digits(n))),
        morse_of_digits(decimal_digits(n)) == morse_of_digits(decimal_digits(n / 10)) + seq![GAP]
            + digit_pattern(n % 10),
{
    let lead = decimal_digits(n / 10);
    let all = decimal_digits(n);
    lemma_decimal_digits(n / 10);
    assert(all == lead.push(n % 10));
    assert(all.drop_last() =~= lead);
    assert(all.last() == n % 10);
    assert(morse_of_digits(all) == morse_of_digits(lead) + seq![GAP] + digit_pattern(n % 10));
    assert(morse_of_digits(lead) =~= morse_of_digits(all).subrange(
        0,
        morse_of_digits(lead).len() as int,
    ));
}

/// Being the start of a sequence carries over two steps.
proof fn lemma_prefix_chain(a: Seq<u8>, b: Seq<u8>, c: Seq<u8>)
    requires
        is_prefix(a, b),
        is_prefix(b, c),
    ensures
        is_prefix(a, c),
{
    assert(a =~= c.subrange(0, a.len() as int));
}

/// The leading digits of `number` above the place `divisor`: what the
/// encoder has dealt with when it turns to that place.
spec fn digits_above(number: u16, divisor: u16) -> nat {
    if divisor == 10000 {
        0
    } else if divisor == 1000 {
        number as nat / 10000
    } else if divisor == 100 {
        number as nat / 1000
    } else if divisor == 10 {
        number as nat / 100
    } else if divisor == 1 {
        number as nat / 10
    } else {
        number as nat
    }
}

/// The code of the nonzero leading digits above any place is the start of
/// the number's code.
proof fn lemma_digits_above_prefix(number: u16, divisor: u16)
    requires
        divisor == 10000 || divisor == 1000 || divisor == 100 || divisor == 10 || divisor == 1
            || divisor == 0,
        digits_above(number, divisor) > 0,
    ensures
        is_prefix(
            morse_of_digits(decimal_digits(digits_above(number, divisor))),
            morse_encoding(number),
        ),
{
    let n = number as nat;
    let code = |k: nat| morse_of_digits(decimal_digits(k));
    assert(is_prefix(code(n), code(n))) by {
        assert(code(n) =~= code(n).subrange(0, code(n).len() as int));
    }
    if divisor != 0 {
        lemma_leading_digits(n);
        if divisor != 1 {
            lemma_leading_digits(n / 10);
            lemma_prefix_chain(code(n / 100), code(n / 10), code(n));
            if divisor != 10 {
                lemma_leading_digits(n / 100);
                lemma_prefix_chain(code(n / 1000), code(n / 100), code(n));
                if divisor != 100 {
                    lemma_leading_digits(n / 1000);
                    lemma_prefix_chain(code(n / 10000), code(n / 1000), code(n));
                }
            }
        }
    }
}

/// Returns the five symbols of one decimal digit.
pub fn digit_to_morse(digit: u8) -> (pattern: &'static str)
    requires
        digit <= 9,
    ensures
        pattern.spec_bytes() == digit_pattern(digit as nat),
{
    broadcast use is_ascii_spec_bytes;

    proof {
        reveal_strlit("-----");
        reveal_strlit(".----");
        reveal_strlit("..---");
        reveal_strlit("...--");
        reveal_strlit("....-");
        reveal_strlit(".....");
        reveal_strlit("-....");
        reveal_strlit("--...");
        reveal_strlit("---..");
        reveal_strlit("----.");
    }
    let pattern = match digit {
        0 => "-----",
        1 => ".----",
        2 => "..---",
        3 => "...--",
        4 => "....-",
        5 => ".....",
        6 => "-....",
        7 => "--...",
        8 => "---..",
        _ => "----.",
    };
    assert(is_ascii(pattern));
    assert(pattern.spec_bytes() =~= digit_pattern(digit as nat));
    pattern
}

/// `area` with `bytes` written over it from position `at` on, as far as the
/// area has room.
spec fn written(area: Seq<u8>, at: int, bytes: Seq<u8>) -> Seq<u8> {
    Seq::new(
        area.len(),
        |k: int|
            if at <= k < at + bytes.len() {
                bytes[k - at]
            } else {
                area[k]
            },
    )
}

/// Writing `a` and then `b` behind it is writing `a + b`.
proof fn lemma_written_twice(area: Seq<u8>, at: int, a: Seq<u8>, b: Seq<u8>)
    requires
        0 <= at,
    ensures
        written(written(area, at, a), at + a.len(), b) == written(area, at, a + b),
{
    assert(written(written(area, at, a), at + a.len(), b) =~= written(area, at, a + b));
}

/// What a write from the start of an area leaves: the bytes and then the
/// rest of the area where they fit, the start of the bytes where they do not.
proof fn lemma_written_from_start(area: Seq<u8>, bytes: Seq<u8>)
    ensures
        bytes.len() <= area.len() ==> written(area, 0, bytes) == bytes + area.subrange(
            bytes.len() as int,
            area.len() as int,
        ),
        bytes.len() > area.len() ==> written(area, 0, bytes) == bytes.subrange(
            0,
            area.len() as int,
        ),
        written(area, 0, Seq::<u8>::empty()) == area,
{
    if bytes.len() <= area.len() {
        assert(written(area, 0, bytes) =~= bytes + area.subrange(
            bytes.len() as int,
            area.len() as int,
        ));
    } else {
        assert(written(area, 0, bytes) =~= bytes.subrange(0, area.len() as int));
    }
    assert(written(area, 0, Seq::<u8>::empty()) =~= area);
}

/// The start of a start: where `a` is the start of `b`, both begin alike.
proof fn lemma_prefix_cut(a: Seq<u8>, b: Seq<u8>, room: int)
    requires
        is_prefix(a, b),
        0 <= room <= a.len(),
    ensures
        a.subrange(0, room) == b.subrange(0, room),
{
    assert(a.subrange(0, room) =~= b.subrange(0, room));
}

/// Whether `divisor` is a decimal place of a 16-bit number.
spec fn is_place(divisor: u16) -> bool {
    divisor == 10000 || divisor == 1000 || divisor == 100 || divisor == 10 || divisor == 1
}

/// The symbols that the encoder writes for one digit: its pattern, behind
/// a gap unless it is the first digit written.
spec fn group(digit: nat, first: bool) -> Seq<u8> {
    if first {
        digit_pattern(digit)
    } else {
        seq![GAP] + digit_pattern(digit)
    }
}

/// The code of the leading digits above a place, once a digit has been
/// written; nothing before.
spec fn code_above(number: u16, divisor: u16, first: bool) -> Seq<u8> {
    if first {
        Seq::empty()
    } else {
        morse_of_digits(decimal_digits(digits_above(number, divisor)))
    }
}

/// What the encoder knows when it turns to a place.
spec fn place_inv(number: u16, divisor: u16, first: bool) -> bool {
    &&& is_place(divisor) || divisor == 0
    &&& first ==> digits_above(number, divisor) == 0 && divisor != 0
    &&& !first && divisor != 0 ==> digits_above(number, divisor) > 0
    &&& is_prefix(code_above(number, divisor, first), morse_encoding(number))
    &&& divisor == 0 ==> code_above(number, divisor, first) == morse_encoding(number)
}

/// One place of the encoder. The digit at the place is below ten. Where it
/// is written, the code so far grows by its group to the code of the digits
/// above the next place; where it is skipped, nothing changes.
proof fn lemma_place(number: u16, divisor: u16, first: bool)
    requires
        is_place(divisor),
        place_inv(number, divisor, first),
    ensures
        (number / divisor) % 10 < 10,
        ({
            let digit = ((number / divisor) % 10) as nat;
            let next = (divisor / 10) as u16;
            let writes = digit != 0 || !first || divisor == 1;
            &&& writes ==> place_inv(number, next, false) && code_above(number, next, false)
                == code_above(number, divisor, first) + group(digit, first)
            &&& !writes ==> place_inv(number, next, true)
        }),
{
    let above = digits_above(number, divisor);
    let next = (divisor / 10) as u16;
    let digit = ((number / divisor) % 10) as nat;
    if divisor == 10000 {
        assert(digit == (number / 10000) % 10);
    } else if divisor == 1000 {
        assert(digit == (number / 1000) % 10);
    } else if divisor == 100 {
        assert(digit == (number / 100) % 10);
    } else if divisor == 10 {
        assert(digit == (number / 10) % 10);
    } else {
        assert(number / 1 == number);
        assert(digit == number % 10);
    }
    let grown_digits = digits_above(number, next);
    assert(grown_digits == 10 * above + digit);
    if digit != 0 || !first || divisor == 1 {
        let grown = morse_of_digits(decimal_digits(grown_digits));
        if first {
            assert(decimal_digits(digit) == seq![digit]);
            assert(grown == digit_pattern(digit));
            assert(Seq::<u8>::empty() + digit_pattern(digit) =~= digit_pattern(digit));
        } else {
            lemma_leading_digits(grown_digits);
            assert(grown_digits / 10 == above);
            assert(grown == morse_of_digits(decimal_digits(above)) + (seq![GAP] + digit_pattern(
                digit,
            ))) by {
                assert(morse_of_digits(decimal_digits(above)) + seq![GAP] + digit_pattern(digit)
                    =~= morse_of_digits(decimal_digits(above)) + (seq![GAP] + digit_pattern(
                    digit,
                )));
            }
        }
        if grown_digits > 0 {
            lemma_digits_above_prefix(number, next);
        } else {
            assert(next == 0);
        }
        if next == 0 {
            let code = morse_encoding(number);
            assert(grown == code);
            assert(code =~= code.subrange(0, code.len() as int));
        }
    }
}

/// Writes the optical code of `number` to the start of `buffer`.
///
/// Succeeds exactly when the code fits in `buffer`, and then returns the
/// code's length and leaves the bytes after the code untouched. Otherwise
/// `buffer` is filled with the start of the code, as far as it has room.
pub fn number_to_morse(number: u16, buffer: &mut [u8]) -> (result: Result<usize, &'static str>)
    ensures
        final(buffer)@.len() == old(buffer)@.len(),
        morse_encoding(number).len() <= old(buffer)@.len() ==> result == Ok::<usize, &'static str>(
            morse_encoding(number).len() as usize,
        ) && final(buffer)@ == morse_encoding(number) + old(buffer)@.subrange(
            morse_encoding(number).len() as int,
            old(buffer)@.len() as int,
        ),
        morse_encoding(number).len() > old(buffer)@.len() ==> result is Err && result->Err_0@
            == "Buffer overflow"@ && final(buffer)@ == morse_encoding(number).subrange(
            0,
            old(buffer)@.len() as int,
        ),
{
    let ghost code = morse_encoding(number);
    let ghost area = old(buffer)@;
    let mut writer = BufferWriter::new(buffer);
    let mut first = true;
    let mut divisor: u16 = 10000;
    proof {
        lemma_written_from_start(area, Seq::<u8>::empty());
        assert(Seq::<u8>::empty() =~= code.subrange(0, 0));
    }
    while divisor > 0
        invariant
            code == morse_encoding(number),
            area == old(buffer)@,
            after_borrow(buffer)@ == final(writer.buffer)@,
            place_inv(number, divisor, first),
            writer.index == code_above(number, divisor, first).len(),
            writer.index <= area.len(),
            writer.buffer@ == written(area, 0, code_above(number, divisor, first)),
        decreases divisor,
    {
        let digit = (number / divisor) % 10;
        let ghost done = code_above(number, divisor, first);
        proof {
            lemma_place(number, divisor, first);
        }
        if digit != 0 || !first || divisor == 1 {
            let ghost grown = code_above(number, (divisor / 10) as u16, false);
            proof {
                lemma_written_twice(area, 0, done, group(digit as nat, first));
            }
            match writer.write_group(digit as u8, first) {
                Ok(()) => {},
                Err(e) => {
                    proof {
                        lemma_written_from_start(area, grown);
                        lemma_prefix_cut(grown, code, area.len() as int);
                    }
                    return Err(e);
                },
            }
            first = false;
        }
        divisor /= 10;
    }
    proof {
        lemma_written_from_start(area, code);
    }
    Ok(writer.index)
}

/// Cursor over a destination buffer: bytes are written at `index`, which
/// then moves on.
struct BufferWriter<'a> {
    buffer: &'a mut [u8],
    index: usize,
}

impl<'a> BufferWriter<'a> {
    /// Starts writing at the beginning of `buffer`.
    fn new(buffer: &'a mut [u8]) -> (writer: Self)
        ensures
            writer.index == 0,
            writer.buffer@ == old(buffer)@,
            final(writer.buffer)@ == final(buffer)@,
    {
        BufferWriter { buffer, index: 0 }
    }

    /// Writes one byte, unless the buffer is full.
    fn write_byte(&mut self, byte: u8) -> (result: Result<(), &'static str>)
        ensures
            final(final(self).buffer)@ == final(old(self).buffer)@,
            final(self).buffer@ == written(old(self).buffer@, old(self).index as int, seq![byte]),
            old(self).index < old(self).buffer@.len() ==> result is Ok && final(self).index
                == old(self).index + 1,
            old(self).index >= old(self).buffer@.len() ==> result is Err && result->Err_0@
                == "Buffer overflow"@ && final(self).index == old(self).index,
    {
        if self.index >= self.buffer.len() {
            assert(self.buffer@ =~= written(self.buffer@, self.index as int, seq![byte]));
            return Err("Buffer overflow");
        }
        self.buffer[self.index] = byte;
        self.index += 1;
        assert(self.buffer@ =~= written(old(self).buffer@, old(self).index as int, seq![byte]));
        Ok(())
    }

    /// Writes the bytes of `s` in order, until the buffer is full.
    fn write_str(&mut self, s: &str) -> (result: Result<(), &'static str>)
        requires
            old(self).index <= old(self).buffer@.len(),
        ensures
            final(final(self).buffer)@ == final(old(self).buffer)@,
            final(self).buffer@ == written(
                old(self).buffer@,
                old(self).index as int,
                s.spec_bytes(),
            ),
            old(self).index + s.spec_bytes().len() <= old(self).buffer@.len() ==> result is Ok
                && final(self).index == old(self).index + s.spec_bytes().len(),
            old(self).index + s.spec_bytes().len() > old(self).buffer@.len() ==> result is Err
                && result->Err_0@ == "Buffer overflow"@
                && final(self).index == old(self).buffer@.len(),
    {
        let bytes = s.as_bytes();
        let ghost start = self.index as int;
        let ghost area = self.buffer@;
        let mut i: usize = 0;
        proof {
            assert(area =~= written(area, start, bytes@.subrange(0, 0)));
        }
        while i < bytes.len()
            invariant
                i <= bytes@.len(),
                bytes@ == s.spec_bytes(),
                start == old(self).index,
                area == old(self).buffer@,
                final(self.buffer)@ == final(old(self).buffer)@,
                self.index == start + i,
                self.index <= area.len(),
                self.buffer@ == written(area, start, bytes@.subrange(0, i as int)),
            decreases bytes@.len() - i,
        {
            proof {
                lemma_written_twice(
                    area,
                    start,
                    bytes@.subrange(0, i as int),
                    seq![bytes@[i as int]],
                );
                assert(bytes@.subrange(0, i as int) + seq![bytes@[i as int]] =~= bytes@.subrange(
                    0,
                    i + 1,
                ));
            }
            match self.write_byte(bytes[i]) {
                Ok(()) => {},
                Err(e) => {
                    proof {
                        assert(self.buffer@ =~= written(area, start, bytes@));
                    }
                    return Err(e);
                },
            }
            i += 1;
        }
        proof {
            assert(bytes@.subrange(0, i as int) =~= bytes@);
        }
        Ok(())
    }

    /// Writes the symbols of one digit, behind a gap unless it is the first
    /// digit written, until the buffer is full.
    fn write_group(&mut self, digit: u8, first: bool) -> (result: Result<(), &'static str>)
        requires
            digit <= 9,
            old(self).index <= old(self).buffer@.len(),
        ensures
            final(final(self).buffer)@ == final(old(self).buffer)@,
            final(self).buffer@ == written(
                old(self).buffer@,
                old(self).index as int,
                group(digit as nat, first),
            ),
            old(self).index + group(digit as nat, first).len() <= old(self).buffer@.len()
                ==> result is Ok && final(self).index == old(self).index + group(
                digit as nat,
                first,
            ).len(),
            old(self).index + group(digit as nat, first).len() > old(self).buffer@.len()
                ==> result is Err && result->Err_0@ == "Buffer overflow"@,
    {
        let ghost area = self.buffer@;
        let ghost start = self.index as int;
        if !first {
            proof {
                lemma_written_twice(area, start, seq![GAP], digit_pattern(digit as nat));
            }
            match self.write_byte(GAP) {
                Ok(()) => {},
                Err(e) => {
                    proof {
                        assert(self.buffer@ =~= written(area, start, group(digit as nat, first)));
                    }
                    return Err(e);
                },
            }
        }
        self.write_str(digit_to_morse(digit))
    }
}

} // verus!
