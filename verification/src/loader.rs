//! The list of permitted baud rates: the built-in list, and the text form of a list,
//! one decimal number per line.

use vstd::prelude::*;
use vstd::slice::slice_subrange;

verus! {

/// The byte that ends a line.
pub const LINE_FEED: u8 = 10;

/// The byte that may stand before a line feed and then belongs to the line ending.
pub const CARRIAGE_RETURN: u8 = 13;

/// The sign that may stand before the digits of a rate.
pub const PLUS: u8 = 43;

/// The digit zero.
pub const DIGIT_ZERO: u8 = 48;

/// The digit nine.
pub const DIGIT_NINE: u8 = 57;

/// The rates that are permitted when no list can be read.
pub open spec fn default_rates() -> Seq<u32> {
    seq![
        9600u32,
        14400u32,
        19200u32,
        38400u32,
        56000u32,
        57600u32,
        115200u32,
        128000u32,
        230400u32,
        256000u32,
        460800u32,
        512000u32,
        750000u32,
        921600u32,
        1500000u32,
    ]
}

/// Whether `byte` is a decimal digit.
pub open spec fn is_digit(byte: u8) -> bool {
    DIGIT_ZERO <= byte <= DIGIT_NINE
}

/// The number that the decimal digits `digits` write.
pub open spec fn decimal(digits: Seq<u8>) -> nat
    decreases digits.len(),
{
    if digits.len() == 0 {
        0
    } else {
        let last = if is_digit(digits.last()) {
            (digits.last() - DIGIT_ZERO) as nat
        } else {
            0
        };
        decimal(digits.drop_last()) * 10 + last
    }
}

/// A line without the plus sign that may stand at its start.
pub open spec fn unsigned_part(line: Seq<u8>) -> Seq<u8> {
    if line.len() > 0 && line[0] == PLUS {
        line.drop_first()
    } else {
        line
    }
}

/// Whether every byte of `digits` is a decimal digit.
pub open spec fn all_digits(digits: Seq<u8>) -> bool {
    forall|i: int| 0 <= i < digits.len() ==> is_digit(#[trigger] digits[i])
}

/// The rate that a line writes: one or more decimal digits, after at most one plus
/// sign, whose number fits in 32 bits. Any other line writes no rate.
pub open spec fn rate_of(line: Seq<u8>) -> Option<u32> {
    let digits = unsigned_part(line);
    if digits.len() > 0 && all_digits(digits) && decimal(digits) <= u32::MAX {
        Some(decimal(digits) as u32)
    } else {
        None
    }
}

/// The number of bytes before the first line feed of `text`; its length, if it has no
/// line feed.
pub open spec fn first_line_len(text: Seq<u8>) -> nat
    decreases text.len(),
{
    if text.len() == 0 || text[0] == LINE_FEED {
        0
    } else {
        1 + first_line_len(text.drop_first())
    }
}

/// A line without the carriage return before its line feed, if it has one.
pub open spec fn without_carriage_return(line: Seq<u8>) -> Seq<u8> {
    if line.len() > 0 && line.last() == CARRIAGE_RETURN {
        line.drop_last()
    } else {
        line
    }
}

/// The lines of `text`. A line ends with a line feed, or with a carriage return and a
/// line feed; neither belongs to the line. The last line needs no line ending, and
/// keeps a carriage return at its end if it has none.
pub open spec fn split_lines(text: Seq<u8>) -> Seq<Seq<u8>>
    decreases text.len(),
{
    if text.len() == 0 {
        Seq::empty()
    } else {
        let n = first_line_len(text) as int;
        if n < text.len() {
            seq![without_carriage_return(text.subrange(0, n))] + split_lines(
                text.subrange(n + 1, text.len() as int),
            )
        } else {
            seq![text]
        }
    }
}

/// Whether every one of `lines` writes a rate.
pub open spec fn well_formed(lines: Seq<Seq<u8>>) -> bool {
    forall|i: int| 0 <= i < lines.len() ==> (#[trigger] rate_of(lines[i])) is Some
}

/// The rates that `lines` write, line by line.
pub open spec fn rates_of(lines: Seq<Seq<u8>>) -> Seq<u32> {
    Seq::new(lines.len(), |i: int| rate_of(lines[i]).unwrap())
}

/// Whether the line at `index` is the first of `lines` that writes no rate.
pub open spec fn is_first_malformed(lines: Seq<Seq<u8>>, index: int) -> bool {
    &&& 0 <= index < lines.len()
    &&& rate_of(lines[index]) is None
    &&& forall|i: int| 0 <= i < index ==> (#[trigger] rate_of(lines[i])) is Some
}

/// A line of a list that writes no rate.
#[derive(Debug, Clone, Copy, PartialEq, Eq, Structural)]
pub struct BaudListError {
    /// The number of the line, counted from zero.
    pub line: usize,
}

/// Whether `outcome` is what the text of a list reads as: the rates of its lines, in
/// order, if every line writes one, and else the first line that does not.
pub open spec fn reads_as(text: Seq<u8>, outcome: Result<Vec<u32>, BaudListError>) -> bool {
    match outcome {
        Ok(rates) => well_formed(split_lines(text)) && rates@ == rates_of(split_lines(text)),
        Err(error) => is_first_malformed(split_lines(text), error.line as int),
    }
}

/// The number of a prefix of some digits is at most the number of all of them.
proof fn lemma_decimal_grows(digits: Seq<u8>, n: int)
    requires
        0 <= n <= digits.len(),
    ensures
        decimal(digits.take(n)) <= decimal(digits),
    decreases digits.len() - n,
{
    if n == digits.len() {
        assert(digits.take(n) =~= digits);
    } else {
        lemma_decimal_grows(digits, n + 1);
        assert(digits.take(n + 1).drop_last() =~= digits.take(n));
    }
}

/// A position is the length of the first line if no line feed stands before it and
/// the text ends there or has a line feed there.
proof fn lemma_first_line_len(text: Seq<u8>, n: int)
    requires
        0 <= n <= text.len(),
        forall|k: int| 0 <= k < n ==> text[k] != LINE_FEED,
        n == text.len() || text[n] == LINE_FEED,
    ensures
        first_line_len(text) == n,
    decreases n,
{
    if n > 0 {
        lemma_first_line_len(text.drop_first(), n - 1);
    }
}

/// The built-in list of permitted rates.
pub fn default_baud_list() -> (rates: Vec<u32>)
    ensures
        rates@ == default_rates(),
{
    let rates: Vec<u32> = vec![
        9600,
        14400,
        19200,
        38400,
        56000,
        57600,
        115200,
        128000,
        230400,
        256000,
        460800,
        512000,
        750000,
        921600,
        1500000,
    ];
    assert(rates@ =~= default_rates());
    rates
}

/// Reads one line of a list.
pub fn parse_rate(line: &[u8]) -> (rate: Option<u32>)
    ensures
        rate == rate_of(line@),
{
    let n: usize = line.len();
    let start: usize = if n > 0 && line[0] == PLUS {
        1
    } else {
        0
    };
    let ghost digits = line@.subrange(start as int, n as int);
    assert(digits =~= unsigned_part(line@));
    if start == n {
        return None;
    }
    let mut value: u64 = 0;
    let mut i: usize = start;
    assert(digits.take(0) =~= Seq::<u8>::empty());
    while i < n
        invariant
            start <= i <= n,
            n == line.len(),
            digits == line@.subrange(start as int, n as int),
            digits == unsigned_part(line@),
            forall|k: int| 0 <= k < i - start ==> is_digit(#[trigger] digits[k]),
            value == decimal(digits.take(i - start)),
            value <= u32::MAX,
        decreases n - i,
    {
        let byte: u8 = line[i];
        if byte < DIGIT_ZERO || byte > DIGIT_NINE {
            assert(!is_digit(digits[i - start]));
            return None;
        }
        let next: u64 = value * 10 + (byte - DIGIT_ZERO) as u64;
        proof {
            let taken = digits.take(i - start + 1);
            assert(taken.drop_last() =~= digits.take(i - start));
            assert(taken.last() == byte);
            assert(next == decimal(taken));
            lemma_decimal_grows(digits, i - start + 1);
        }
        if next > u32::MAX as u64 {
            return None;
        }
        value = next;
        i = i + 1;
    }
    assert(digits.take(i - start) =~= digits);
    Some(value as u32)
}

/// Reads the text of a list: one rate per line.
pub fn parse_baud_list(text: &[u8]) -> (outcome: Result<Vec<u32>, BaudListError>)
    ensures
        reads_as(text@, outcome),
{
    let n: usize = text.len();
    let mut rates: Vec<u32> = Vec::new();
    let mut start: usize = 0;
    let ghost mut done: Seq<Seq<u8>> = Seq::empty();
    assert(text@.subrange(0, n as int) =~= text@);
    while start < n
        invariant
            start <= n,
            n == text@.len(),
            split_lines(text@) == done + split_lines(text@.subrange(start as int, n as int)),
            rates@.len() == done.len(),
            forall|i: int| 0 <= i < done.len() ==> (#[trigger] rate_of(done[i])) == Some(rates@[i]),
        decreases n - start,
    {
        let mut end: usize = start;
        while end < n && text[end] != LINE_FEED
            invariant
                start <= end <= n,
                n == text@.len(),
                forall|k: int| start <= k < end ==> text@[k] != LINE_FEED,
            decreases n - end,
        {
            end = end + 1;
        }
        let terminated = end < n;
        let stripped = terminated && end > start && text[end - 1] == CARRIAGE_RETURN;
        let line_end: usize = if stripped {
            end - 1
        } else {
            end
        };
        let line = slice_subrange(text, start, line_end);
        let next_start: usize = if terminated {
            end + 1
        } else {
            end
        };
        proof {
            let rest = text@.subrange(start as int, n as int);
            lemma_first_line_len(rest, end - start);
            assert(rest.subrange(0, end - start) =~= text@.subrange(start as int, end as int));
            if terminated {
                assert(rest.subrange(end - start + 1, rest.len() as int) =~= text@.subrange(
                    next_start as int,
                    n as int,
                ));
                if stripped {
                    assert(text@.subrange(start as int, end as int).drop_last() =~= line@);
                }
            } else {
                assert(rest =~= line@);
                assert(split_lines(text@.subrange(next_start as int, n as int)) =~= Seq::<
                    Seq<u8>,
                >::empty());
            }
            assert(split_lines(rest) =~= seq![line@] + split_lines(
                text@.subrange(next_start as int, n as int),
            ));
            assert(split_lines(text@) =~= done.push(line@) + split_lines(
                text@.subrange(next_start as int, n as int),
            ));
            assert(split_lines(text@)[done.len() as int] == line@);
        }
        match parse_rate(line) {
            Some(rate) => {
                rates.push(rate);
            },
            None => {
                proof {
                    assert forall|i: int| 0 <= i < done.len() implies (#[trigger] rate_of(
                        split_lines(text@)[i],
                    )) is Some by {
                        assert(split_lines(text@)[i] == done[i]);
                    }
                }
                return Err(BaudListError { line: rates.len() });
            },
        }
        proof {
            done = done.push(line@);
        }
        start = next_start;
    }
    proof {
        assert(split_lines(text@) =~= done);
        assert(rates@ =~= rates_of(done));
    }
    Ok(rates)
}

/// The list of permitted rates: the rates that `contents` write, if the text of a list
/// is at hand, and the built-in list if it is not.
pub fn load_baud(contents: Option<&[u8]>) -> (outcome: Result<Vec<u32>, BaudListError>)
    ensures
        contents matches Some(text) ==> reads_as(text@, outcome),
        contents is None ==> (outcome matches Ok(rates) && rates@ == default_rates()),
{
    match contents {
        Some(text) => parse_baud_list(text),
        None => Ok(default_baud_list()),
    }
}

} // verus!
