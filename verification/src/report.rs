//! The lines the program writes: the completion marker and the dump of the
//! bytes read back.

use vstd::prelude::*;
use vstd::string::StringExecFns;

verus! {

/// Where a line is written.
#[derive(Clone, Copy, Debug, PartialEq, Eq, Structural)]
pub enum Stream {
    /// Standard output.
    Stdout,
    /// The diagnostic stream.
    Stderr,
}

/// The character for the decimal digit `d`.
pub open spec fn digit(d: int) -> char {
    if d == 0 {
        '0'
    } else if d == 1 {
        '1'
    } else if d == 2 {
        '2'
    } else if d == 3 {
        '3'
    } else if d == 4 {
        '4'
    } else if d == 5 {
        '5'
    } else if d == 6 {
        '6'
    } else if d == 7 {
        '7'
    } else if d == 8 {
        '8'
    } else {
        '9'
    }
}

/// A byte in decimal, without leading zeros.
pub open spec fn decimal(byte: u8) -> Seq<char> {
    let n = byte as int;
    if n >= 100 {
        seq![digit(n / 100), digit((n / 10) % 10), digit(n % 10)]
    } else if n >= 10 {
        seq![digit(n / 10), digit(n % 10)]
    } else {
        seq![digit(n)]
    }
}

/// The bytes in decimal, a comma and a space between each two.
pub open spec fn listing(bytes: Seq<u8>) -> Seq<char>
    decreases bytes.len(),
{
    if bytes.len() == 0 {
        Seq::<char>::empty()
    } else if bytes.len() == 1 {
        decimal(bytes[0])
    } else {
        listing(bytes.drop_last()) + seq![',', ' '] + decimal(bytes.last())
    }
}

/// The dump of `bytes`: their listing in square brackets.
pub open spec fn dump(bytes: Seq<u8>) -> Seq<char> {
    seq!['['] + listing(bytes) + seq![']']
}

/// The line that tells that the GPU has finished.
pub open spec fn completion_marker() -> Seq<char> {
    "GPU Completed"@
}

fn digit_text(d: u8) -> (text: &'static str)
    requires
        d < 10,
    ensures
        text@ == seq![digit(d as int)],
{
    proof {
        reveal_strlit("0");
        reveal_strlit("1");
        reveal_strlit("2");
        reveal_strlit("3");
        reveal_strlit("4");
        reveal_strlit("5");
        reveal_strlit("6");
        reveal_strlit("7");
        reveal_strlit("8");
        reveal_strlit("9");
    }
    let text = if d == 0 {
        "0"
    } else if d == 1 {
        "1"
    } else if d == 2 {
        "2"
    } else if d == 3 {
        "3"
    } else if d == 4 {
        "4"
    } else if d == 5 {
        "5"
    } else if d == 6 {
        "6"
    } else if d == 7 {
        "7"
    } else if d == 8 {
        "8"
    } else {
        "9"
    };
    text
}

fn push_decimal(line: &mut String, byte: u8)
    ensures
        final(line)@ == old(line)@ + decimal(byte),
{
    if byte >= 100 {
        line.append(digit_text(byte / 100));
        line.append(digit_text((byte / 10) % 10));
        line.append(digit_text(byte % 10));
    } else if byte >= 10 {
        line.append(digit_text(byte / 10));
        line.append(digit_text(byte % 10));
    } else {
        line.append(digit_text(byte));
    }
}

/// Writes `bytes` as a bracketed list of decimal numbers, such as
/// `[0, 17, 255]`.
pub fn dump_bytes(bytes: &[u8]) -> (line: String)
    ensures
        line@ == dump(bytes@),
{
    let mut line = String::new();
    proof {
        reveal_strlit("[");
        reveal_strlit(", ");
        reveal_strlit("]");
    }
    line.append("[");
    let mut i: usize = 0;
    while i < bytes.len()
        invariant
            i <= bytes.len(),
            line@ == seq!['['] + listing(bytes@.take(i as int)),
            ", "@ == seq![',', ' '],
        decreases bytes.len() - i,
    {
        let ghost before = bytes@.take(i as int);
        let ghost after = bytes@.take(i + 1);
        assert(after.drop_last() =~= before);
        assert(after.last() == bytes@[i as int]);
        if i > 0 {
            line.append(", ");
        }
        push_decimal(&mut line, bytes[i]);
        i += 1;
    }
    assert(bytes@.take(i as int) =~= bytes@);
    line.append("]");
    line
}

/// The marker line, `GPU Completed`.
pub fn marker_line() -> (line: String)
    ensures
        line@ == completion_marker(),
{
    "GPU Completed".to_owned()
}

/// Picks the commas of a line.
pub open spec fn is_comma() -> spec_fn(char) -> bool {
    |c: char| c == ','
}

/// How many commas `line` holds.
pub open spec fn commas(line: Seq<char>) -> nat {
    line.filter(is_comma()).len()
}

proof fn lemma_commas_push(line: Seq<char>, c: char)
    ensures
        commas(line.push(c)) == commas(line) + if c == ',' {
            1nat
        } else {
            0nat
        },
{
    reveal(Seq::filter);
    assert(line.push(c).drop_last() =~= line);
}

proof fn lemma_commas_empty()
    ensures
        commas(Seq::<char>::empty()) == 0,
{
    reveal(Seq::filter);
}

proof fn lemma_commas_concat(first: Seq<char>, second: Seq<char>)
    ensures
        commas(first + second) == commas(first) + commas(second),
{
    Seq::filter_distributes_over_add(first, second, is_comma());
}

proof fn lemma_decimal_has_no_comma(byte: u8)
    ensures
        commas(decimal(byte)) == 0,
        1 <= decimal(byte).len() <= 3,
{
    let n = byte as int;
    let none = Seq::<char>::empty();
    lemma_commas_empty();
    assert forall|d: int| digit(d) != ',' by {}
    if n >= 100 {
        let (a, b, c) = (digit(n / 100), digit((n / 10) % 10), digit(n % 10));
        lemma_commas_push(none, a);
        lemma_commas_push(none.push(a), b);
        lemma_commas_push(none.push(a).push(b), c);
        assert(decimal(byte) =~= none.push(a).push(b).push(c));
    } else if n >= 10 {
        let (a, b) = (digit(n / 10), digit(n % 10));
        lemma_commas_push(none, a);
        lemma_commas_push(none.push(a), b);
        assert(decimal(byte) =~= none.push(a).push(b));
    } else {
        lemma_commas_push(none, digit(n));
    }
}

proof fn lemma_listing_commas(bytes: Seq<u8>)
    ensures
        commas(listing(bytes)) == if bytes.len() == 0 {
            0
        } else {
            bytes.len() - 1
        },
    decreases bytes.len(),
{
    if bytes.len() == 0 {
        lemma_commas_empty();
    } else if bytes.len() == 1 {
        lemma_decimal_has_no_comma(bytes[0]);
    } else {
        let separator = seq![',', ' '];
        lemma_listing_commas(bytes.drop_last());
        lemma_decimal_has_no_comma(bytes.last());
        lemma_commas_empty();
        lemma_commas_push(Seq::<char>::empty(), ',');
        lemma_commas_push(Seq::<char>::empty().push(','), ' ');
        assert(separator =~= Seq::<char>::empty().push(',').push(' '));
        lemma_commas_concat(listing(bytes.drop_last()), separator);
        lemma_commas_concat(listing(bytes.drop_last()) + separator, decimal(bytes.last()));
    }
}

/// A dump is one bracketed line: it opens with `[`, closes with `]`, and
/// holds one comma between each two of its numbers, so as many numbers as
/// there are bytes.
pub proof fn lemma_dump_shape(bytes: Seq<u8>)
    ensures
        dump(bytes).first() == '[',
        dump(bytes).last() == ']',
        commas(dump(bytes)) == if bytes.len() == 0 {
            0
        } else {
            bytes.len() - 1
        },
{
    lemma_listing_commas(bytes);
    lemma_commas_empty();
    lemma_commas_push(Seq::<char>::empty(), '[');
    lemma_commas_push(Seq::<char>::empty(), ']');
    lemma_commas_concat(seq!['['], listing(bytes));
    lemma_commas_concat(seq!['['] + listing(bytes), seq![']']);
}

} // verus!
