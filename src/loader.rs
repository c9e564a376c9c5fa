//! Reading a program from text: one decimal word per line, up to the first
//! blank line; lines that are not a word are skipped.
use vstd::prelude::*;

verus! {

pub open spec fn is_digit(b: u8) -> bool {
    48 <= b <= 57
}

/// The number written by the decimal digits `d`.
pub open spec fn digits_value(d: Seq<u8>) -> nat
    decreases d.len(),
{
    if d.len() == 0 {
        0
    } else {
        digits_value(d.drop_last()) * 10 + (d.last() - 48) as nat
    }
}

/// The digits of a line: the line without one leading `+`.
pub open spec fn unsigned_part(line: Seq<u8>) -> Seq<u8> {
    if line.len() > 0 && line[0] == 43 {
        line.drop_first()
    } else {
        line
    }
}

/// The word a line writes: an optional `+` and at least one decimal digit,
/// with nothing else, for a value that fits in 32 bits.
pub open spec fn parsed_word(line: Seq<u8>) -> Option<u32> {
    let d = unsigned_part(line);
    if d.len() > 0 && (forall|i: int| 0 <= i < d.len() ==> is_digit(#[trigger] d[i])) && digits_value(d)
        <= u32::MAX {
        Some(digits_value(d) as u32)
    } else {
        None
    }
}

/// The program that `lines` hold: the words of the lines before the first
/// empty one, skipping those that write no word.
pub open spec fn loaded(lines: Seq<Seq<u8>>) -> Seq<u32>
    decreases lines.len(),
{
    if lines.len() == 0 || lines[0].len() == 0 {
        Seq::empty()
    } else {
        match parsed_word(lines[0]) {
            Some(w) => seq![w] + loaded(lines.drop_first()),
            None => loaded(lines.drop_first()),
        }
    }
}

proof fn lemma_digits_value_grows(d: Seq<u8>)
    requires
        d.len() > 0,
        is_digit(d.last()),
    ensures
        digits_value(d) >= digits_value(d.drop_last()),
{
}

/// Reads one line as a decimal word.
pub fn parse_word(line: &[u8]) -> (r: Option<u32>)
    ensures
        r == parsed_word(line@),
{
    let n = line.len();
    let start: usize = if n > 0 && line[0] == 43 { 1 } else { 0 };
    let ghost d = unsigned_part(line@);
    assert(d =~= line@.subrange(start as int, n as int));
    if start == n {
        return None;
    }
    let mut value: u64 = 0;
    let mut too_large = false;
    let mut i: usize = start;
    while i < n
        invariant
            start <= i <= n,
            n == line@.len(),
            d == line@.subrange(start as int, n as int),
            d == unsigned_part(line@),
            forall|j: int| 0 <= j < i - start ==> is_digit(#[trigger] d[j]),
            !too_large ==> value == digits_value(d.subrange(0, i - start)) && value <= u32::MAX,
            too_large ==> digits_value(d.subrange(0, i - start)) > u32::MAX,
        decreases n - i,
    {
        let b = line[i];
        if !(48 <= b && b <= 57) {
            assert(!is_digit(d[i - start]));
            return None;
        }
        proof {
            let prefix = d.subrange(0, i - start + 1);
            assert(prefix.drop_last() =~= d.subrange(0, i - start));
            lemma_digits_value_grows(prefix);
            assert(prefix.last() == b);
        }
        if !too_large {
            value = value * 10 + (b - 48) as u64;
            if value > 0xFFFF_FFFF {
                too_large = true;
            }
        }
        i = i + 1;
    }
    assert(d.subrange(0, n - start) =~= d);
    if too_large {
        None
    } else {
        Some(value as u32)
    }
}

/// Reads a program from its lines (each without its line break).
pub fn load_program(lines: &Vec<Vec<u8>>) -> (r: Vec<u32>)
    ensures
        r@ == loaded(lines@.map_values(|l: Vec<u8>| l@)),
{
    let ghost all = lines@.map_values(|l: Vec<u8>| l@);
    let mut out: Vec<u32> = Vec::new();
    let mut i: usize = 0;
    assert(all.subrange(0, all.len() as int) =~= all);
    assert(out@ + loaded(all) =~= loaded(all));
    while i < lines.len()
        invariant
            i <= lines@.len(),
            all == lines@.map_values(|l: Vec<u8>| l@),
            out@ + loaded(all.subrange(i as int, all.len() as int)) == loaded(all),
        decreases lines@.len() - i,
    {
        let ghost rest = all.subrange(i as int, all.len() as int);
        assert(rest.drop_first() =~= all.subrange(i + 1, all.len() as int));
        assert(rest[0] == lines@[i as int]@);
        let line = &lines[i];
        if line.len() == 0 {
            assert(out@ + Seq::<u32>::empty() =~= out@);
            return out;
        }
        match parse_word(line.as_slice()) {
            Some(w) => {
                assert(out@.push(w) + loaded(rest.drop_first()) =~= out@ + (seq![w] + loaded(rest.drop_first())));
                out.push(w);
            },
            None => {},
        }
        i = i + 1;
    }
    assert(out@ + Seq::<u32>::empty() =~= out@);
    out
}

} // verus!
