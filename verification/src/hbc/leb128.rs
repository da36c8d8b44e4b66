//! Signed LEB128 numbers as the debug data stores them, with the offsets
//! that debug data errors report.

use vstd::prelude::*;

use crate::hbc::error::ParseError;

verus! {

pub const DEBUG_DATA_TRUNCATED_LEB: &'static str = "truncated signed LEB128";

pub const DEBUG_DATA_LEB_OVERFLOW: &'static str = "signed LEB128 exceeds i64";

pub const DEBUG_DATA_FUNCTION_MISMATCH: &'static str = "function id mismatch";

pub const DEBUG_DATA_ADDRESS_OUT_OF_BOUNDS: &'static str = "address outside function body";

pub const DEBUG_DATA_ADDRESS_NOT_BOUNDARY: &'static str = "address is not an instruction boundary";

pub const DEBUG_DATA_SOURCE_VALUE_OUT_OF_BOUNDS: &'static str = "source location value outside u32";

pub const DEBUG_DATA_LOCATION_NOT_ONE_BASED: &'static str =
    "source location line or column is not one-based";

/// The debug data error of function `function_id` at `offset`.
pub open spec fn debug_data_error(function_id: u32, offset: u32, reason: &'static str) -> ParseError {
    ParseError::InvalidDebugData { function_id, offset, reason }
}

/// The offset in the global debug data of position `relative` of a location
/// stream that starts at `source_locations`, saturated at `u32::MAX`.
pub open spec fn debug_offset(source_locations: u32, relative: int) -> u32 {
    if source_locations + relative > u32::MAX {
        u32::MAX
    } else {
        (source_locations + relative) as u32
    }
}

/// Returns the global debug data offset of position `relative_offset` of a
/// location stream that starts at `source_locations`, saturating at `u32::MAX`.
pub fn debug_data_offset(source_locations: u32, relative_offset: usize) -> (offset: u32)
    ensures
        offset == debug_offset(source_locations, relative_offset as int),
{
    let relative: u32 = if relative_offset > u32::MAX as usize {
        u32::MAX
    } else {
        relative_offset as u32
    };
    if source_locations > u32::MAX - relative {
        u32::MAX
    } else {
        source_locations + relative
    }
}

/// `128` to the power `n`.
pub open spec fn pow128(n: nat) -> int
    decreases n,
{
    if n == 0 {
        1
    } else {
        128 * pow128((n - 1) as nat)
    }
}

/// The seven-bit digits of the `k` bytes from `start`, least significant first.
pub open spec fn leb_digits(data: Seq<u8>, start: int, k: nat) -> int
    decreases k,
{
    if k == 0 {
        0
    } else {
        leb_digits(data, start, (k - 1) as nat) + (data[start + k - 1] % 128) * pow128((k - 1) as nat)
    }
}

/// The value of a signed LEB128 number that starts at `start` and whose last
/// byte is at `start + k`: its digits, sign-extended from bit 6 of the last
/// byte while the number is narrower than 64 bits.
pub open spec fn sleb_value(data: Seq<u8>, start: int, k: nat) -> int {
    let raw = leb_digits(data, start, k + 1);
    if 7 * (k + 1) < 64 && data[start + k] % 128 >= 64 {
        raw - pow128(k + 1)
    } else {
        raw
    }
}

/// Reading a signed LEB128 number of at most ten bytes from `start`, looking
/// at its byte `k` onwards: its value and the position after it.
pub open spec fn sleb_scan(data: Seq<u8>, start: int, k: nat, function_id: u32, source_locations: u32) -> Result<
    (i64, int),
    ParseError,
>
    decreases 10 - k,
{
    let error_offset = debug_offset(source_locations, start);
    if k >= 10 {
        Err(debug_data_error(function_id, error_offset, DEBUG_DATA_LEB_OVERFLOW))
    } else if start + k >= data.len() {
        Err(debug_data_error(function_id, error_offset, DEBUG_DATA_TRUNCATED_LEB))
    } else if data[start + k] >= 128 {
        sleb_scan(data, start, k + 1, function_id, source_locations)
    } else {
        let value = sleb_value(data, start, k);
        if i64::MIN <= value <= i64::MAX {
            Ok((value as i64, start + k + 1))
        } else {
            Err(debug_data_error(function_id, error_offset, DEBUG_DATA_LEB_OVERFLOW))
        }
    }
}

/// Reading the signed LEB128 number at `start` of a location stream.
pub open spec fn sleb_result(data: Seq<u8>, start: int, function_id: u32, source_locations: u32) -> Result<
    (i64, int),
    ParseError,
> {
    sleb_scan(data, start, 0, function_id, source_locations)
}

proof fn lemma_pow128_grows(k: nat)
    ensures
        pow128(k) >= 1,
        k <= 10 ==> pow128(k) <= pow128(10),
        pow128(10) == 0x40_0000_0000_0000_0000,
    decreases 10 - k,
{
    reveal_with_fuel(pow128, 11);
    if k < 10 {
        lemma_pow128_grows(k + 1);
    } else if k > 10 {
        lemma_pow128_positive(k);
    }
}

proof fn lemma_pow128_positive(k: nat)
    ensures
        pow128(k) >= 1,
    decreases k,
{
    if k > 0 {
        lemma_pow128_positive((k - 1) as nat);
    }
}

proof fn lemma_leb_digits_bounds(data: Seq<u8>, start: int, k: nat)
    ensures
        0 <= leb_digits(data, start, k) < pow128(k),
    decreases k,
{
    if k > 0 {
        let j = (k - 1) as nat;
        lemma_leb_digits_bounds(data, start, j);
        lemma_pow128_positive(j);
        let digit = data[start + j] % 128;
        let p = pow128(j);
        assert(0 <= digit * p <= 127 * p) by (nonlinear_arith)
            requires
                0 <= digit <= 127,
                p >= 1,
        ;
    }
}

/// A number that reads successfully takes at least one byte, all inside `data`.
pub proof fn lemma_sleb_scan_advances(data: Seq<u8>, start: int, k: nat, function_id: u32, source_locations: u32)
    requires
        sleb_scan(data, start, k, function_id, source_locations) is Ok,
    ensures
        start + k < sleb_scan(data, start, k, function_id, source_locations)->Ok_0.1 <= data.len(),
    decreases 10 - k,
{
    if k < 10 && start + k < data.len() && data[start + k] >= 128 {
        lemma_sleb_scan_advances(data, start, k + 1, function_id, source_locations);
    }
}

/// A number that reads successfully takes at least one byte, all inside `data`.
pub proof fn lemma_sleb_advances(data: Seq<u8>, start: int, function_id: u32, source_locations: u32)
    requires
        sleb_result(data, start, function_id, source_locations) is Ok,
    ensures
        start < sleb_result(data, start, function_id, source_locations)->Ok_0.1 <= data.len(),
{
    lemma_sleb_scan_advances(data, start, 0, function_id, source_locations);
}

/// The signed LEB128 encoding of `v`: seven bits at a time, least
/// significant first, every byte but the last with its high bit set; it ends
/// at the first byte after which only the sign remains, held in that byte's
/// bit 6.
pub open spec fn sleb_encoding(v: int) -> Seq<u8>
    decreases (if v < 0 {
        -v
    } else {
        v
    }),
{
    let low = v % 128;
    let rest = v / 128;
    if (rest == 0 && low < 64) || (rest == -1 && low >= 64) {
        seq![low as u8]
    } else {
        seq![(low + 128) as u8] + sleb_encoding(rest)
    }
}

/// Putting a byte in front of a number shifts its digits up by seven bits.
proof fn lemma_leb_digits_cons(first: u8, rest: Seq<u8>, k: nat)
    requires
        k <= rest.len(),
    ensures
        leb_digits(seq![first] + rest, 0, k + 1) == first % 128 + 128 * leb_digits(rest, 0, k),
    decreases k,
{
    let data = seq![first] + rest;
    if k == 0 {
        assert(pow128(0) == 1);
        assert(data[0] == first);
        assert(leb_digits(data, 0, 1) == leb_digits(data, 0, 0) + (data[0] % 128) * pow128(0));
    } else {
        let j = (k - 1) as nat;
        lemma_leb_digits_cons(first, rest, j);
        assert(data[k as int] == rest[j as int]);
        let digit = rest[j as int] % 128;
        let p = pow128(j);
        assert(pow128(k) == 128 * p);
        assert(leb_digits(data, 0, k + 1) == leb_digits(data, 0, k) + digit * pow128(k));
        assert(leb_digits(rest, 0, k) == leb_digits(rest, 0, j) + digit * p);
        assert(128 * (digit * p) == digit * (128 * p)) by (nonlinear_arith);
    }
}

/// The shape of an encoding of `n` bytes: continuation bits on all but the
/// last byte, the sign in the last byte's bit 6, digits that give `v` modulo
/// `128^n`, and no shorter encoding: a value that needs `n >= 2` bytes lies
/// outside the range of `n - 1` bytes.
proof fn lemma_sleb_encoding_shape(v: int)
    ensures
        ({
            let e = sleb_encoding(v);
            let n = e.len();
            &&& n >= 1
            &&& forall|i: int| 0 <= i < n - 1 ==> #[trigger] e[i] >= 128
            &&& e[n - 1] < 128
            &&& (e[n - 1] % 128 >= 64) == (v < 0)
            &&& leb_digits(e, 0, n) == v + (if v < 0 {
                pow128(n)
            } else {
                0
            })
            &&& n >= 2 ==> (v >= 64 * pow128((n - 2) as nat) || v < -64 * pow128((n - 2) as nat))
        }),
    decreases (if v < 0 {
        -v
    } else {
        v
    }),
{
    let low = v % 128;
    let rest = v / 128;
    let e = sleb_encoding(v);
    if (rest == 0 && low < 64) || (rest == -1 && low >= 64) {
        assert(e == seq![low as u8]);
        reveal_with_fuel(pow128, 2);
        reveal_with_fuel(leb_digits, 2);
    } else {
        lemma_sleb_encoding_shape(rest);
        let tail = sleb_encoding(rest);
        let first = (low + 128) as u8;
        assert(e == seq![first] + tail);
        let n = e.len();
        let m = tail.len();
        lemma_leb_digits_cons(first, tail, m);
        assert(first % 128 == low);
        assert(e[n - 1] == tail[m - 1]);
        assert forall|i: int| 0 <= i < n - 1 implies #[trigger] e[i] >= 128 by {
            if i > 0 {
                assert(e[i] == tail[i - 1]);
            }
        }
        assert((rest < 0) == (v < 0));
        assert(pow128(n) == 128 * pow128(m));
        if m >= 2 {
            assert(pow128((n - 2) as nat) == 128 * pow128((m - 2) as nat));
        } else {
            assert(pow128(0) == 1);
        }
    }
}

/// `pow128` never decreases.
proof fn lemma_pow128_monotone(a: nat, b: nat)
    requires
        a <= b,
    ensures
        pow128(a) <= pow128(b),
    decreases b,
{
    if a < b {
        lemma_pow128_monotone(a, (b - 1) as nat);
        lemma_pow128_positive((b - 1) as nat);
    }
}

/// A scan that meets only continuation bytes from byte `k` to byte `j`
/// goes on at byte `j`.
proof fn lemma_sleb_scan_skips(
    data: Seq<u8>,
    start: int,
    k: nat,
    j: nat,
    function_id: u32,
    source_locations: u32,
)
    requires
        k <= j < 10,
        0 <= start,
        start + j <= data.len(),
        forall|i: int| k <= i < j ==> #[trigger] data[start + i] >= 128,
    ensures
        sleb_scan(data, start, k, function_id, source_locations) == sleb_scan(
            data,
            start,
            j,
            function_id,
            source_locations,
        ),
    decreases j - k,
{
    if k < j {
        assert(data[start + k] >= 128);
        lemma_sleb_scan_skips(data, start, k + 1, j, function_id, source_locations);
    }
}

/// Signed LEB128 reads back what it encodes: decoding the encoding of any
/// `v >= -2^62` gives `v` and the position after its last byte, and
/// decoding the encoding without its last byte fails as truncated at the
/// number's start. (Below `-2^62` the encoding takes ten bytes and reading
/// reports an overflow.)
pub proof fn lemma_sleb_round_trip(v: i64, function_id: u32, source_locations: u32)
    requires
        v >= -0x4000_0000_0000_0000,
    ensures
        sleb_result(sleb_encoding(v as int), 0, function_id, source_locations) == Ok::<(i64, int), ParseError>(
            (v, sleb_encoding(v as int).len() as int),
        ),
        sleb_result(sleb_encoding(v as int).drop_last(), 0, function_id, source_locations) == Err::<
            (i64, int),
            ParseError,
        >(debug_data_error(function_id, debug_offset(source_locations, 0), DEBUG_DATA_TRUNCATED_LEB)),
{
    let e = sleb_encoding(v as int);
    let n = e.len();
    lemma_sleb_encoding_shape(v as int);
    reveal_with_fuel(pow128, 10);
    if n >= 11 {
        lemma_pow128_monotone(9, (n - 2) as nat);
        assert(false);
    }
    if v < 0 && n == 10 {
        assert(false);
    }
    let last = (n - 1) as nat;
    lemma_sleb_scan_skips(e, 0, 0, last, function_id, source_locations);
    assert(sleb_value(e, 0, last) == v);
    let t = e.drop_last();
    assert forall|i: int| 0 <= i < last implies #[trigger] t[0 + i] >= 128 by {
        assert(t[i] == e[i]);
    }
    lemma_sleb_scan_skips(t, 0, 0, last, function_id, source_locations);
}

/// Reads the signed LEB128 number at `cursor`, returning it with the
/// position after it.
pub fn read_signed_leb128(data: &[u8], cursor: usize, function_id: u32, source_locations: u32) -> (result:
    Result<(i64, usize), ParseError>)
    ensures
        match sleb_result(data@, cursor as int, function_id, source_locations) {
            Ok((value, next)) => result matches Ok((v, n)) && v == value && n == next,
            Err(e) => result == Err::<(i64, usize), ParseError>(e),
        },
{
    let len = data.len();
    let ghost start = cursor as int;
    let mut value: i128 = 0;
    let mut scale: i128 = 1;
    let mut k: usize = 0;
    while k < 10
        invariant
            len == data@.len(),
            start == cursor as int,
            k <= 10,
            value == leb_digits(data@, start, k as nat),
            scale == pow128(k as nat),
            sleb_scan(data@, start, 0, function_id, source_locations) == sleb_scan(
                data@,
                start,
                k as nat,
                function_id,
                source_locations,
            ),
        decreases 10 - k,
    {
        if cursor >= len || k >= len - cursor {
            return Err(
                ParseError::InvalidDebugData {
                    function_id,
                    offset: debug_data_offset(source_locations, cursor),
                    reason: DEBUG_DATA_TRUNCATED_LEB,
                },
            );
        }
        let byte = data[cursor + k];
        proof {
            lemma_leb_digits_bounds(data@, start, k as nat);
            lemma_pow128_grows(k as nat);
            lemma_pow128_grows((k + 1) as nat);
            assert(byte & 0x7f == byte % 128) by (bit_vector);
            assert((byte & 0x80 == 0) == (byte < 128)) by (bit_vector);
            assert((byte & 0x40 != 0) == (byte % 128 >= 64)) by (bit_vector);
        }
        let digit = (byte & 0x7f) as i128;
        assert(0 <= digit * scale <= 127 * scale) by (nonlinear_arith)
            requires
                0 <= digit <= 127,
                scale >= 1,
        ;
        value = value + digit * scale;
        scale = scale * 128;
        if byte & 0x80 == 0 {
            let signed = if 7 * (k + 1) < 64 && byte & 0x40 != 0 {
                value - scale
            } else {
                value
            };
            if signed < i64::MIN as i128 || signed > i64::MAX as i128 {
                return Err(
                    ParseError::InvalidDebugData {
                        function_id,
                        offset: debug_data_offset(source_locations, cursor),
                        reason: DEBUG_DATA_LEB_OVERFLOW,
                    },
                );
            }
            return Ok((signed as i64, cursor + k + 1));
        }
        k = k + 1;
    }
    Err(
        ParseError::InvalidDebugData {
            function_id,
            offset: debug_data_offset(source_locations, cursor),
            reason: DEBUG_DATA_LEB_OVERFLOW,
        },
    )
}

/// Reading a location stream value that must fit in `u32`.
pub open spec fn debug_u32_result(data: Seq<u8>, start: int, function_id: u32, source_locations: u32) -> Result<
    (u32, int),
    ParseError,
> {
    match sleb_result(data, start, function_id, source_locations) {
        Err(e) => Err(e),
        Ok((value, next)) => if 0 <= value <= u32::MAX {
            Ok((value as u32, next))
        } else {
            Err(
                debug_data_error(
                    function_id,
                    debug_offset(source_locations, start),
                    DEBUG_DATA_SOURCE_VALUE_OUT_OF_BOUNDS,
                ),
            )
        },
    }
}

/// Reads a location stream value that must fit in `u32`, returning it with
/// the position after it.
pub fn read_debug_u32(data: &[u8], cursor: usize, function_id: u32, source_locations: u32) -> (result: Result<
    (u32, usize),
    ParseError,
>)
    ensures
        match debug_u32_result(data@, cursor as int, function_id, source_locations) {
            Ok((value, next)) => result matches Ok((v, n)) && v == value && n == next,
            Err(e) => result == Err::<(u32, usize), ParseError>(e),
        },
{
    let (value, next) = match read_signed_leb128(data, cursor, function_id, source_locations) {
        Ok(read) => read,
        Err(e) => {
            return Err(e);
        },
    };
    if value < 0 || value > u32::MAX as i64 {
        return Err(
            ParseError::InvalidDebugData {
                function_id,
                offset: debug_data_offset(source_locations, cursor),
                reason: DEBUG_DATA_SOURCE_VALUE_OUT_OF_BOUNDS,
            },
        );
    }
    Ok((value as u32, next))
}

/// `value + delta`, which must fit in `u32`.
pub open spec fn delta_result(value: u32, delta: i64, function_id: u32, offset: u32) -> Result<u32, ParseError> {
    if 0 <= value + delta <= u32::MAX {
        Ok((value + delta) as u32)
    } else {
        Err(debug_data_error(function_id, offset, DEBUG_DATA_SOURCE_VALUE_OUT_OF_BOUNDS))
    }
}

/// Applies a location delta, which must leave the value inside `u32`.
pub fn add_debug_u32_delta(value: u32, delta: i64, function_id: u32, offset: u32) -> (result: Result<u32, ParseError>)
    ensures
        result == delta_result(value, delta, function_id, offset),
{
    let sum = value as i128 + delta as i128;
    if sum < 0 || sum > u32::MAX as i128 {
        return Err(
            ParseError::InvalidDebugData {
                function_id,
                offset,
                reason: DEBUG_DATA_SOURCE_VALUE_OUT_OF_BOUNDS,
            },
        );
    }
    Ok(sum as u32)
}

/// Lines and columns are one-based; the first location of a function may
/// instead be missing, with both zero.
pub open spec fn line_column_result(
    function_id: u32,
    offset: u32,
    line: u32,
    column: u32,
    allow_missing_location: bool,
) -> Result<(), ParseError> {
    if allow_missing_location && line == 0 && column == 0 {
        Ok(())
    } else if line == 0 || column == 0 {
        Err(debug_data_error(function_id, offset, DEBUG_DATA_LOCATION_NOT_ONE_BASED))
    } else {
        Ok(())
    }
}

/// Checks that a source location's line and column are one-based.
pub fn validate_debug_location_line_column(
    function_id: u32,
    offset: u32,
    line: u32,
    column: u32,
    allow_missing_location: bool,
) -> (result: Result<(), ParseError>)
    ensures
        result == line_column_result(function_id, offset, line, column, allow_missing_location),
{
    if allow_missing_location && line == 0 && column == 0 {
        return Ok(());
    }
    if line == 0 || column == 0 {
        return Err(
            ParseError::InvalidDebugData {
                function_id,
                offset,
                reason: DEBUG_DATA_LOCATION_NOT_ONE_BASED,
            },
        );
    }
    Ok(())
}

} // verus!
