//! Parsing the two kernel statistics streams: whitespace-separated
//! unsigned decimal integers, validated explicitly rather than assumed
//! well-formed.

use crate::flags::EnclaveState;
use crate::memory::Memory;
use crate::records::{Enclave, GlobalSnapshot};
use vstd::prelude::*;

verus! {

/// Why a sample could not be parsed.
#[derive(Debug, Clone, Copy, PartialEq, Eq, Structural)]
pub enum ParseError {
    /// A record does not hold the expected number of fields.
    WrongFieldCount,
    /// A field holds a byte that is not an ASCII decimal digit.
    NonDigit,
    /// A field's value does not fit the 64-bit range after unit scaling.
    TooLarge,
    /// The sample violates a global invariant of the subsystem counters.
    BrokenInvariant,
}

/// Which separator bytes end a token.
#[derive(Debug, Clone, Copy, PartialEq, Eq, Structural)]
pub enum Delim {
    /// Space, line feed or carriage return: separates numeric fields.
    Field,
    /// Line feed or carriage return: separates per-enclave records.
    Line,
}

/// Whether byte `b` is a separator of class `d`.
pub open spec fn is_delim(d: Delim, b: u8) -> bool {
    match d {
        Delim::Field => b == 32 || b == 10 || b == 13,
        Delim::Line => b == 10 || b == 13,
    }
}

/// The maximal runs of non-separator bytes of `s` from position `i` on,
/// continuing the partially gathered run `cur`, appended to the runs
/// already gathered in `acc`.
pub open spec fn split_from(d: Delim, s: Seq<u8>, i: int, cur: Seq<u8>, acc: Seq<Seq<u8>>) -> Seq<
    Seq<u8>,
>
    decreases s.len() - i,
{
    if i < 0 || i >= s.len() {
        if cur.len() > 0 {
            acc.push(cur)
        } else {
            acc
        }
    } else if is_delim(d, s[i]) {
        if cur.len() > 0 {
            split_from(d, s, i + 1, Seq::empty(), acc.push(cur))
        } else {
            split_from(d, s, i + 1, cur, acc)
        }
    } else {
        split_from(d, s, i + 1, cur.push(s[i]), acc)
    }
}

/// The maximal runs of non-separator bytes of `s`: splitting on the
/// separator class `d` with empty pieces skipped.
pub open spec fn split_tokens(d: Delim, s: Seq<u8>) -> Seq<Seq<u8>> {
    split_from(d, s, 0, Seq::empty(), Seq::empty())
}

/// Whether byte `b` is a separator of class `d`.
fn is_delim_byte(d: Delim, b: u8) -> (r: bool)
    ensures
        r == is_delim(d, b),
{
    match d {
        Delim::Field => b == 32 || b == 10 || b == 13,
        Delim::Line => b == 10 || b == 13,
    }
}

/// Split `s` into its maximal runs of non-separator bytes.
pub fn tokenize(d: Delim, s: &[u8]) -> (r: Vec<Vec<u8>>)
    ensures
        r.deep_view() == split_tokens(d, s@),
{
    let mut acc: Vec<Vec<u8>> = Vec::new();
    let mut cur: Vec<u8> = Vec::new();
    let mut i: usize = 0;
    proof {
        assert(acc.deep_view() =~~= Seq::<Seq<u8>>::empty());
    }
    while i < s.len()
        invariant
            i <= s@.len(),
            split_tokens(d, s@) == split_from(d, s@, i as int, cur@, acc.deep_view()),
        decreases s@.len() - i,
    {
        let b = s[i];
        if is_delim_byte(d, b) {
            if cur.len() > 0 {
                let ghost prev = acc.deep_view();
                let ghost prev_cur = cur@;
                acc.push(cur);
                proof {
                    assert(acc.deep_view() =~~= prev.push(prev_cur));
                }
                cur = Vec::new();
            }
        } else {
            cur.push(b);
        }
        i += 1;
    }
    if cur.len() > 0 {
        let ghost prev = acc.deep_view();
        let ghost prev_cur = cur@;
        acc.push(cur);
        proof {
            assert(acc.deep_view() =~~= prev.push(prev_cur));
        }
    }
    acc
}

/// Whether `b` is an ASCII decimal digit.
pub open spec fn is_digit(b: u8) -> bool {
    48 <= b <= 57
}

/// Whether every byte of `t` is an ASCII decimal digit.
pub open spec fn all_digits(t: Seq<u8>) -> bool {
    forall|i: int| 0 <= i < t.len() ==> is_digit(#[trigger] t[i])
}

/// The unsigned value of the decimal digit string `t`, folding each digit
/// by multiply-by-ten-and-add.
pub open spec fn digits_val(t: Seq<u8>) -> nat
    decreases t.len(),
{
    if t.len() == 0 {
        0
    } else {
        digits_val(t.drop_last()) * 10 + (t.last() - 48) as nat
    }
}

/// Whether every byte of `t` is an ASCII decimal digit.
fn check_digits(t: &[u8]) -> (r: bool)
    ensures
        r == all_digits(t@),
{
    let mut i: usize = 0;
    while i < t.len()
        invariant
            i <= t@.len(),
            forall|j: int| 0 <= j < i ==> is_digit(#[trigger] t@[j]),
        decreases t@.len() - i,
    {
        let b = t[i];
        if b < 48 || b > 57 {
            return false;
        }
        i += 1;
    }
    true
}

/// A longer digit string never has a smaller value.
proof fn lemma_digits_val_mono(t: Seq<u8>, i: int, j: int)
    requires
        0 <= i <= j <= t.len(),
    ensures
        digits_val(t.take(i)) <= digits_val(t.take(j)),
    decreases j - i,
{
    if i < j {
        lemma_digits_val_mono(t, i, j - 1);
        assert(t.take(j).drop_last() =~= t.take(j - 1));
        assert(digits_val(t.take(j)) == digits_val(t.take(j - 1)) * 10 + (t.take(j).last()
            - 48) as nat);
    }
}

/// Parse the digit string `t` as an unsigned 64-bit value; `None` when
/// the value does not fit.
pub fn parse_u64(t: &[u8]) -> (r: Option<u64>)
    requires
        all_digits(t@),
    ensures
        r matches Some(v) ==> v as nat == digits_val(t@),
        r is None ==> digits_val(t@) > u64::MAX,
{
    let mut acc: u64 = 0;
    let mut i: usize = 0;
    proof {
        assert(t@.take(0) =~= Seq::<u8>::empty());
    }
    while i < t.len()
        invariant
            i <= t@.len(),
            all_digits(t@),
            acc as nat == digits_val(t@.take(i as int)),
        decreases t@.len() - i,
    {
        let b = t[i];
        let wide: u128 = acc as u128 * 10 + (b - 48) as u128;
        if wide > u64::MAX as u128 {
            proof {
                assert(t@.take(i as int + 1).drop_last() =~= t@.take(i as int));
                assert(digits_val(t@.take(i as int + 1)) == acc as nat * 10 + (b - 48) as nat);
                lemma_digits_val_mono(t@, i as int + 1, t@.len() as int);
                assert(t@.take(t@.len() as int) =~= t@);
            }
            return None;
        }
        acc = wide as u64;
        i += 1;
        proof {
            assert(t@.take(i as int).drop_last() =~= t@.take(i as int - 1));
            assert(t@.take(i as int).last() == b);
        }
    }
    proof {
        assert(t@.take(t@.len() as int) =~= t@);
    }
    Some(acc)
}

/// The numeric fields of the global statistics stream.
pub open spec fn global_tokens(s: Seq<u8>) -> Seq<Seq<u8>> {
    split_tokens(Delim::Field, s)
}

/// The global stream holds exactly its ten fixed fields.
pub open spec fn global_count_ok(s: Seq<u8>) -> bool {
    global_tokens(s).len() == 10
}

/// Every field of the global stream is made of decimal digits.
pub open spec fn global_digits_ok(s: Seq<u8>) -> bool {
    forall|i: int| 0 <= i < global_tokens(s).len() ==> all_digits(#[trigger] global_tokens(s)[i])
}

/// The raw (unscaled) value of field `i` of the global stream.
pub open spec fn global_raw(s: Seq<u8>, i: int) -> nat {
    digits_val(global_tokens(s)[i])
}

/// Every field of the global stream fits the 64-bit range; the page-count
/// fields (all but the first two) must still fit after the four-fold
/// page-to-kilobyte scaling.
pub open spec fn global_fits(s: Seq<u8>) -> bool {
    &&& global_raw(s, 0) <= u64::MAX
    &&& global_raw(s, 1) <= u64::MAX
    &&& forall|i: int| 2 <= i < 10 ==> #[trigger] global_raw(s, i) * 4 <= u64::MAX
}

/// The sample respects the subsystem invariants: no more enclaves
/// released than created, and no more free pages than the capacity.
pub open spec fn global_wf(s: Seq<u8>) -> bool {
    global_raw(s, 1) <= global_raw(s, 0) && global_raw(s, 6) <= global_raw(s, 4)
}

/// A global sample parses successfully exactly under these conditions.
pub open spec fn global_ok(s: Seq<u8>) -> bool {
    global_count_ok(s) && global_digits_ok(s) && global_fits(s) && global_wf(s)
}

/// The snapshot a well-formed global stream denotes, fields in their
/// fixed positional order, page counts scaled to kilobytes.
pub open spec fn spec_global(s: Seq<u8>) -> GlobalSnapshot {
    GlobalSnapshot {
        created: global_raw(s, 0) as u64,
        released: global_raw(s, 1) as u64,
        pages_alloced: Memory((global_raw(s, 2) * 4) as u64),
        pages_freed: Memory((global_raw(s, 3) * 4) as u64),
        total_epc: Memory((global_raw(s, 4) * 4) as u64),
        va_pages: Memory((global_raw(s, 5) * 4) as u64),
        free_pages: Memory((global_raw(s, 6) * 4) as u64),
        ewb_cnt: Memory((global_raw(s, 7) * 4) as u64),
        eldu_cnt: Memory((global_raw(s, 8) * 4) as u64),
        freed_backing: Memory((global_raw(s, 9) * 4) as u64),
    }
}

/// Every global stream that parses successfully denotes a well-formed
/// snapshot: at least as many enclaves created as released, and at least
/// as many capacity pages as free pages.
pub proof fn lemma_global_invariant(s: Seq<u8>)
    ensures
        global_ok(s) ==> spec_global(s).wf(),
        global_ok(s) ==> spec_global(s).created >= spec_global(s).released,
        global_ok(s) ==> spec_global(s).total_epc.0 >= spec_global(s).free_pages.0,
{
    if global_ok(s) {
        assert(global_raw(s, 6) * 4 <= global_raw(s, 4) * 4);
    }
}

/// Parse the global statistics stream: exactly ten whitespace-separated
/// decimal fields in the fixed order enclaves-created, enclaves-released,
/// pages-allocated, pages-freed, total-capacity-pages, version-array
/// pages, free-pages, write-back-count, load-count, freed-backing-pages.
/// Page counts are scaled to kilobytes. Each malformation is reported
/// rather than producing a garbage sample.
pub fn parse_global(s: &[u8]) -> (r: Result<GlobalSnapshot, ParseError>)
    ensures
        r matches Ok(g) ==> g == spec_global(s@) && g.wf(),
        r is Ok <==> global_ok(s@),
        r == Err::<GlobalSnapshot, ParseError>(ParseError::WrongFieldCount) <==> !global_count_ok(
            s@,
        ),
        r == Err::<GlobalSnapshot, ParseError>(ParseError::NonDigit) <==> global_count_ok(s@)
            && !global_digits_ok(s@),
        r == Err::<GlobalSnapshot, ParseError>(ParseError::TooLarge) <==> global_count_ok(s@)
            && global_digits_ok(s@) && !global_fits(s@),
        r == Err::<GlobalSnapshot, ParseError>(ParseError::BrokenInvariant) <==> global_count_ok(
            s@,
        ) && global_digits_ok(s@) && global_fits(s@) && !global_wf(s@),
{
    let toks = tokenize(Delim::Field, s);
    if toks.len() != 10 {
        return Err(ParseError::WrongFieldCount);
    }
    let mut i: usize = 0;
    while i < 10
        invariant
            toks.deep_view() == global_tokens(s@),
            toks@.len() == 10,
            forall|j: int| 0 <= j < i ==> all_digits(#[trigger] global_tokens(s@)[j]),
        decreases 10 - i,
    {
        if !check_digits(toks[i].as_slice()) {
            proof {
                assert(toks[i as int]@ == global_tokens(s@)[i as int]);
            }
            return Err(ParseError::NonDigit);
        }
        proof {
            assert(toks[i as int]@ == global_tokens(s@)[i as int]);
        }
        i += 1;
    }
    let mut vals: Vec<u64> = Vec::new();
    let mut i: usize = 0;
    while i < 10
        invariant
            toks.deep_view() == global_tokens(s@),
            toks@.len() == 10,
            global_digits_ok(s@),
            vals@.len() == i,
            i <= 10,
            forall|j: int| 0 <= j < i ==> #[trigger] vals@[j] as nat == global_raw(s@, j),
            forall|j: int| 2 <= j < i ==> #[trigger] global_raw(s@, j) * 4 <= u64::MAX,
        decreases 10 - i,
    {
        proof {
            assert(toks[i as int]@ == global_tokens(s@)[i as int]);
        }
        let v = match parse_u64(toks[i].as_slice()) {
            Some(v) => v,
            None => {
                proof {
                    assert(!global_fits(s@)) by {
                        if global_fits(s@) {
                            if i >= 2 {
                                assert(global_raw(s@, i as int) * 4 <= u64::MAX);
                            }
                        }
                    }
                }
                return Err(ParseError::TooLarge);
            },
        };
        if i >= 2 && v > u64::MAX / 4 {
            proof {
                assert(!global_fits(s@)) by {
                    if global_fits(s@) {
                        assert(global_raw(s@, i as int) * 4 <= u64::MAX);
                    }
                }
            }
            return Err(ParseError::TooLarge);
        }
        vals.push(v);
        i += 1;
    }
    if vals[1] > vals[0] || vals[6] > vals[4] {
        return Err(ParseError::BrokenInvariant);
    }
    let g = GlobalSnapshot {
        created: vals[0],
        released: vals[1],
        pages_alloced: Memory(vals[2] * 4),
        pages_freed: Memory(vals[3] * 4),
        total_epc: Memory(vals[4] * 4),
        va_pages: Memory(vals[5] * 4),
        free_pages: Memory(vals[6] * 4),
        ewb_cnt: Memory(vals[7] * 4),
        eldu_cnt: Memory(vals[8] * 4),
        freed_backing: Memory(vals[9] * 4),
    };
    Ok(g)
}

/// The non-empty lines of the per-enclave stream. Empty lines, including
/// the one a final line terminator leaves behind, are skipped.
pub open spec fn enclave_lines(s: Seq<u8>) -> Seq<Seq<u8>> {
    split_tokens(Delim::Line, s)
}

/// The numeric fields of one per-enclave line.
pub open spec fn line_tokens(l: Seq<u8>) -> Seq<Seq<u8>> {
    split_tokens(Delim::Field, l)
}

/// Every line of the per-enclave stream holds exactly its eight fields.
pub open spec fn enclave_count_ok(s: Seq<u8>) -> bool {
    forall|i: int|
        0 <= i < enclave_lines(s).len() ==> line_tokens(#[trigger] enclave_lines(s)[i]).len() == 8
}

/// Every field of every line is made of decimal digits.
pub open spec fn enclave_digits_ok(s: Seq<u8>) -> bool {
    forall|i: int, j: int|
        0 <= i < enclave_lines(s).len() && 0 <= j < line_tokens(enclave_lines(s)[i]).len()
            ==> all_digits(#[trigger] line_tokens(enclave_lines(s)[i])[j])
}

/// The raw (unscaled) value of field `j` of one per-enclave line.
pub open spec fn line_raw(l: Seq<u8>, j: int) -> nat {
    digits_val(line_tokens(l)[j])
}

/// Every field of one line fits the 64-bit range; the page-count fields
/// (committed, resident, version-array and swapped pages) must still fit
/// after the four-fold page-to-kilobyte scaling.
pub open spec fn line_fits(l: Seq<u8>) -> bool {
    &&& forall|j: int| 0 <= j < 8 ==> #[trigger] line_raw(l, j) <= u64::MAX
    &&& line_raw(l, 3) * 4 <= u64::MAX
    &&& line_raw(l, 4) * 4 <= u64::MAX
    &&& line_raw(l, 5) * 4 <= u64::MAX
    &&& line_raw(l, 7) * 4 <= u64::MAX
}

/// Every line of the per-enclave stream fits the 64-bit range.
pub open spec fn enclave_fits(s: Seq<u8>) -> bool {
    forall|i: int| 0 <= i < enclave_lines(s).len() ==> line_fits(#[trigger] enclave_lines(s)[i])
}

/// A per-enclave stream parses successfully exactly under these
/// conditions.
pub open spec fn enclaves_ok(s: Seq<u8>) -> bool {
    enclave_count_ok(s) && enclave_digits_ok(s) && enclave_fits(s)
}

/// The record one well-formed line denotes: fields in their fixed
/// positional order process-id, enclave-id, virtual-size, committed
/// pages, resident pages, version-array pages, lifecycle bitmask,
/// swapped pages. The virtual size is scaled from bytes to kilobytes
/// (floor division by 1024), the page counts from pages to kilobytes
/// (four kilobytes per page), and the bitmask is stored raw.
pub open spec fn spec_enclave(l: Seq<u8>) -> Enclave {
    Enclave {
        pid: line_raw(l, 0) as u64,
        eid: line_raw(l, 1) as u64,
        virt: Memory((line_raw(l, 2) / 1024) as u64),
        eadds: Memory((line_raw(l, 3) * 4) as u64),
        rss: Memory((line_raw(l, 4) * 4) as u64),
        va: Memory((line_raw(l, 5) * 4) as u64),
        state: EnclaveState(line_raw(l, 6) as u64),
        swap: Memory((line_raw(l, 7) * 4) as u64),
    }
}

/// The records a well-formed per-enclave stream denotes, one per
/// non-empty line, in input order.
pub open spec fn spec_enclaves(s: Seq<u8>) -> Seq<Enclave> {
    enclave_lines(s).map_values(|l: Seq<u8>| spec_enclave(l))
}

/// Parse the per-enclave stream: zero or more lines of eight
/// whitespace-separated decimal fields each, yielding one record per
/// line in input order (insertion order is display order). Empty lines
/// are skipped; each malformation is reported rather than producing a
/// garbage record.
pub fn parse_enclaves(s: &[u8]) -> (r: Result<Vec<Enclave>, ParseError>)
    ensures
        r matches Ok(v) ==> v@ == spec_enclaves(s@),
        r is Ok <==> enclaves_ok(s@),
        r == Err::<Vec<Enclave>, ParseError>(ParseError::WrongFieldCount) <==> !enclave_count_ok(
            s@,
        ),
        r == Err::<Vec<Enclave>, ParseError>(ParseError::NonDigit) <==> enclave_count_ok(s@)
            && !enclave_digits_ok(s@),
        r == Err::<Vec<Enclave>, ParseError>(ParseError::TooLarge) <==> enclave_count_ok(s@)
            && enclave_digits_ok(s@) && !enclave_fits(s@),
{
    let lines = tokenize(Delim::Line, s);
    let n = lines.len();
    let mut rows: Vec<Vec<Vec<u8>>> = Vec::new();
    let mut i: usize = 0;
    proof {
        assert(rows.deep_view() =~~= Seq::<Seq<Seq<u8>>>::empty());
    }
    while i < n
        invariant
            lines.deep_view() == enclave_lines(s@),
            n == lines@.len(),
            i <= n,
            rows.deep_view() =~~= enclave_lines(s@).take(i as int).map_values(
                |l: Seq<u8>| line_tokens(l),
            ),
            forall|j: int|
                0 <= j < i ==> line_tokens(#[trigger] enclave_lines(s@)[j]).len() == 8,
        decreases n - i,
    {
        proof {
            assert(lines[i as int]@ == enclave_lines(s@)[i as int]);
        }
        let toks = tokenize(Delim::Field, lines[i].as_slice());
        if toks.len() != 8 {
            return Err(ParseError::WrongFieldCount);
        }
        let ghost prev = rows.deep_view();
        let ghost toks_view = toks.deep_view();
        rows.push(toks);
        i += 1;
        proof {
            assert(rows.deep_view() =~~= prev.push(toks_view));
            assert(rows.deep_view() =~~= enclave_lines(s@).take(i as int).map_values(
                |l: Seq<u8>| line_tokens(l),
            ));
        }
    }
    proof {
        assert(enclave_lines(s@).take(i as int) =~= enclave_lines(s@));
    }
    let mut i: usize = 0;
    while i < n
        invariant
            rows.deep_view() == enclave_lines(s@).map_values(|l: Seq<u8>| line_tokens(l)),
            n == enclave_lines(s@).len(),
            rows@.len() == n,
            enclave_count_ok(s@),
            i <= n,
            forall|a: int, b: int|
                0 <= a < i && 0 <= b < line_tokens(enclave_lines(s@)[a]).len() ==> all_digits(
                    #[trigger] line_tokens(enclave_lines(s@)[a])[b],
                ),
        decreases n - i,
    {
        let row = &rows[i];
        let mut j: usize = 0;
        while j < 8
            invariant
                rows.deep_view() == enclave_lines(s@).map_values(|l: Seq<u8>| line_tokens(l)),
                n == enclave_lines(s@).len(),
                rows@.len() == n,
                enclave_count_ok(s@),
                i < n,
                row == &rows[i as int],
                j <= 8,
                forall|b: int|
                    0 <= b < j ==> all_digits(#[trigger] line_tokens(enclave_lines(s@)[i as int])[b]),
            decreases 8 - j,
        {
            proof {
                assert(rows.deep_view()[i as int] == rows@[i as int].deep_view());
                assert(enclave_lines(s@).map_values(|l: Seq<u8>| line_tokens(l))[i as int]
                    == line_tokens(enclave_lines(s@)[i as int]));
                assert(rows[i as int].deep_view() == line_tokens(enclave_lines(s@)[i as int]));
                assert(row@[j as int]@ == line_tokens(enclave_lines(s@)[i as int])[j as int]);
            }
            if !check_digits(row[j].as_slice()) {
                return Err(ParseError::NonDigit);
            }
            j += 1;
        }
        i += 1;
    }
    let mut out: Vec<Enclave> = Vec::new();
    let mut i: usize = 0;
    while i < n
        invariant
            rows.deep_view() == enclave_lines(s@).map_values(|l: Seq<u8>| line_tokens(l)),
            n == enclave_lines(s@).len(),
            rows@.len() == n,
            enclave_count_ok(s@),
            enclave_digits_ok(s@),
            i <= n,
            out@.len() == i,
            forall|a: int| 0 <= a < i ==> line_fits(#[trigger] enclave_lines(s@)[a]),
            forall|a: int| 0 <= a < i ==> #[trigger] out@[a] == spec_enclave(enclave_lines(s@)[a]),
        decreases n - i,
    {
        let row = &rows[i];
        let ghost line = enclave_lines(s@)[i as int];
        proof {
            assert(rows.deep_view()[i as int] == rows@[i as int].deep_view());
            assert(enclave_lines(s@).map_values(|l: Seq<u8>| line_tokens(l))[i as int]
                == line_tokens(line));
            assert(rows[i as int].deep_view() == line_tokens(line));
        }
        let mut vals: Vec<u64> = Vec::new();
        let mut j: usize = 0;
        while j < 8
            invariant
                rows.deep_view() == enclave_lines(s@).map_values(|l: Seq<u8>| line_tokens(l)),
                n == enclave_lines(s@).len(),
                rows@.len() == n,
                enclave_count_ok(s@),
                enclave_digits_ok(s@),
                i < n,
                row == &rows[i as int],
                line == enclave_lines(s@)[i as int],
                j <= 8,
                vals@.len() == j,
                forall|b: int| 0 <= b < j ==> #[trigger] vals@[b] as nat == line_raw(line, b),
                forall|b: int|
                    0 <= b < j && (b == 3 || b == 4 || b == 5 || b == 7) ==> #[trigger] line_raw(
                        line,
                        b,
                    ) * 4 <= u64::MAX,
            decreases 8 - j,
        {
            proof {
                assert(rows.deep_view()[i as int] == rows@[i as int].deep_view());
                assert(enclave_lines(s@).map_values(|l: Seq<u8>| line_tokens(l))[i as int]
                    == line_tokens(line));
                assert(rows[i as int].deep_view() == line_tokens(line));
                assert(row@[j as int]@ == line_tokens(line)[j as int]);
            }
            let v = match parse_u64(row[j].as_slice()) {
                Some(v) => v,
                None => {
                    proof {
                        assert(!line_fits(line)) by {
                            if line_fits(line) {
                                assert(line_raw(line, j as int) <= u64::MAX);
                            }
                        }
                    }
                    return Err(ParseError::TooLarge);
                },
            };
            if (j == 3 || j == 4 || j == 5 || j == 7) && v > u64::MAX / 4 {
                proof {
                    assert(!line_fits(line)) by {
                        if line_fits(line) {
                            assert(line_raw(line, j as int) * 4 <= u64::MAX);
                        }
                    }
                }
                return Err(ParseError::TooLarge);
            }
            vals.push(v);
            j += 1;
        }
        let e = Enclave {
            pid: vals[0],
            eid: vals[1],
            virt: Memory(vals[2] / 1024),
            eadds: Memory(vals[3] * 4),
            rss: Memory(vals[4] * 4),
            va: Memory(vals[5] * 4),
            state: EnclaveState(vals[6]),
            swap: Memory(vals[7] * 4),
        };
        proof {
            assert(e == spec_enclave(line));
            assert(line_fits(line));
        }
        out.push(e);
        i += 1;
    }
    proof {
        assert(out@ =~= spec_enclaves(s@));
    }
    Ok(out)
}

} // verus!
