use sgxtop::parse::{parse_enclaves, parse_global};
use sgxtop::{EnclaveState, Memory, ParseError};

#[test]
fn global_stream_parses_in_positional_order() {
    let g = parse_global(b"5 2 100 50 1000 10 200 30 20 5\n").unwrap();
    assert_eq!(g.created, 5);
    assert_eq!(g.released, 2);
    assert_eq!(g.pages_alloced, Memory(400));
    assert_eq!(g.pages_freed, Memory(200));
    assert_eq!(g.total_epc, Memory(4000));
    assert_eq!(g.va_pages, Memory(40));
    assert_eq!(g.free_pages, Memory(800));
    assert_eq!(g.ewb_cnt, Memory(120));
    assert_eq!(g.eldu_cnt, Memory(80));
    assert_eq!(g.freed_backing, Memory(20));
}

#[test]
fn global_stream_accepts_line_separated_fields() {
    let g = parse_global(b"5\n2\n100\n50\n1000\n10\n200\n30\n20\n5\n").unwrap();
    assert_eq!(g.created, 5);
    assert_eq!(g.freed_backing, Memory(20));
}

#[test]
fn global_stream_with_too_few_fields_is_rejected() {
    assert_eq!(
        parse_global(b"5 2 100\n"),
        Err(ParseError::WrongFieldCount)
    );
}

#[test]
fn global_stream_with_too_many_fields_is_rejected() {
    assert_eq!(
        parse_global(b"5 2 100 50 1000 10 200 30 20 5 99\n"),
        Err(ParseError::WrongFieldCount)
    );
}

#[test]
fn global_stream_with_a_non_digit_field_is_rejected() {
    assert_eq!(
        parse_global(b"5 2 1x0 50 1000 10 200 30 20 5\n"),
        Err(ParseError::NonDigit)
    );
}

#[test]
fn global_stream_with_an_oversized_field_is_rejected() {
    // 2^64 does not fit a 64-bit counter.
    assert_eq!(
        parse_global(b"18446744073709551616 2 100 50 1000 10 200 30 20 5\n"),
        Err(ParseError::TooLarge)
    );
    // This page count fits 64 bits raw but not after kilobyte scaling.
    assert_eq!(
        parse_global(b"5 2 18446744073709551615 50 1000 10 200 30 20 5\n"),
        Err(ParseError::TooLarge)
    );
}

#[test]
fn more_released_than_created_is_rejected() {
    assert_eq!(
        parse_global(b"2 5 100 50 1000 10 200 30 20 5\n"),
        Err(ParseError::BrokenInvariant)
    );
}

#[test]
fn more_free_pages_than_capacity_is_rejected() {
    assert_eq!(
        parse_global(b"5 2 100 50 200 10 1000 30 20 5\n"),
        Err(ParseError::BrokenInvariant)
    );
}

#[test]
fn two_lines_round_trip_in_input_order() {
    let stream = b"100 7 4194304 50 40 5 1 0\n200 9 2097152 30 20 2 17 8\n";
    let v = parse_enclaves(stream).unwrap();
    assert_eq!(v.len(), 2);

    assert_eq!(v[0].pid, 100);
    assert_eq!(v[0].eid, 7);
    assert_eq!(v[0].virt, Memory(4194304 / 1024));
    assert_eq!(v[0].eadds, Memory(50 * 4));
    assert_eq!(v[0].rss, Memory(40 * 4));
    assert_eq!(v[0].va, Memory(5 * 4));
    assert_eq!(v[0].state, EnclaveState(1));
    assert_eq!(v[0].swap, Memory(0));

    assert_eq!(v[1].pid, 200);
    assert_eq!(v[1].eid, 9);
    assert_eq!(v[1].virt, Memory(2097152 / 1024));
    assert_eq!(v[1].eadds, Memory(30 * 4));
    assert_eq!(v[1].rss, Memory(20 * 4));
    assert_eq!(v[1].va, Memory(2 * 4));
    assert_eq!(v[1].state, EnclaveState(17));
    assert_eq!(v[1].swap, Memory(8 * 4));
}

#[test]
fn empty_enclave_stream_yields_no_records() {
    assert_eq!(parse_enclaves(b""), Ok(vec![]));
    assert_eq!(parse_enclaves(b"\n"), Ok(vec![]));
}

#[test]
fn empty_lines_are_skipped() {
    let v = parse_enclaves(b"\n\n100 7 4194304 50 40 5 1 0\n\n").unwrap();
    assert_eq!(v.len(), 1);
    assert_eq!(v[0].eid, 7);
}

#[test]
fn enclave_line_with_wrong_field_count_is_rejected() {
    assert_eq!(
        parse_enclaves(b"100 7 4194304 50 40 5 1\n"),
        Err(ParseError::WrongFieldCount)
    );
    assert_eq!(
        parse_enclaves(b"100 7 4194304 50 40 5 1 0 9\n"),
        Err(ParseError::WrongFieldCount)
    );
}

#[test]
fn enclave_line_with_a_non_digit_field_is_rejected() {
    assert_eq!(
        parse_enclaves(b"100 7 4194304 5o 40 5 1 0\n"),
        Err(ParseError::NonDigit)
    );
}

#[test]
fn enclave_line_with_an_oversized_field_is_rejected() {
    assert_eq!(
        parse_enclaves(b"100 7 4194304 18446744073709551615 40 5 1 0\n"),
        Err(ParseError::TooLarge)
    );
}

#[test]
fn lifecycle_bitmask_passes_through_unscaled() {
    let v = parse_enclaves(b"1 2 1024 0 0 0 4096 0\n").unwrap();
    assert_eq!(v[0].state, EnclaveState(4096));
}
