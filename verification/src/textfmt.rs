//! Verified text formatting: decimal numbers and the execution responses
//! built from them.
//!
//! A finished execution is reported twice: as the JSON object
//! `{"execution_time": <microseconds>, "result": <i64>}` sent back to the
//! requester, and as the worker's console line.  Both are pinned down to the
//! exact character sequence.

use vstd::prelude::*;

verus! {

/// The character of one decimal digit.
pub open spec fn spec_digit_char(d: int) -> char {
    if d == 0 {
        '0'
    } else if d == 1 {
        '1'
    } else if d == 2 {
        '2'
    } else if d == 3 {
        '3'
    } else if d == 4 {
        '4'
    } else if d == 5 {
        '5'
    } else if d == 6 {
        '6'
    } else if d == 7 {
        '7'
    } else if d == 8 {
        '8'
    } else {
        '9'
    }
}

/// The decimal expansion of a non-negative number, most significant digit
/// first, with no leading zeroes (a single `'0'` for zero).
pub open spec fn spec_decimal_nat(n: int) -> Seq<char>
    decreases n,
{
    if n < 10 {
        seq![spec_digit_char(n)]
    } else {
        spec_decimal_nat(n / 10).push(spec_digit_char(n % 10))
    }
}

/// The decimal expansion of a signed number: a minus sign before the
/// expansion of the magnitude, where negative.
pub open spec fn spec_decimal_i64(v: int) -> Seq<char> {
    if v < 0 {
        seq!['-'] + spec_decimal_nat(-v)
    } else {
        spec_decimal_nat(v)
    }
}

/// One decimal digit as a string slice.
fn digit_str(d: u64) -> (r: &'static str)
    requires
        d < 10,
    ensures
        r@ =~= seq![spec_digit_char(d as int)],
{
    proof {
        reveal_strlit("0");
        reveal_strlit("1");
        reveal_strlit("2");
        reveal_strlit("3");
        reveal_strlit("4");
        reveal_strlit("5");
        reveal_strlit("6");
        reveal_strlit("7");
        reveal_strlit("8");
        reveal_strlit("9");
    }
    if d == 0 {
        "0"
    } else if d == 1 {
        "1"
    } else if d == 2 {
        "2"
    } else if d == 3 {
        "3"
    } else if d == 4 {
        "4"
    } else if d == 5 {
        "5"
    } else if d == 6 {
        "6"
    } else if d == 7 {
        "7"
    } else if d == 8 {
        "8"
    } else {
        "9"
    }
}

/// The decimal form of an unsigned 64-bit number.
pub fn u64_to_decimal(n: u64) -> (r: String)
    ensures
        r@ == spec_decimal_nat(n as int),
    decreases n,
{
    if n < 10 {
        let mut s = String::new();
        s.append(digit_str(n));
        assert(s@ =~= spec_decimal_nat(n as int));
        s
    } else {
        let mut s = u64_to_decimal(n / 10);
        s.append(digit_str(n % 10));
        assert(s@ =~= spec_decimal_nat(n as int));
        s
    }
}

/// The decimal form of a signed 64-bit number.
pub fn i64_to_decimal(v: i64) -> (r: String)
    ensures
        r@ == spec_decimal_i64(v as int),
{
    if v >= 0 {
        u64_to_decimal(v as u64)
    } else {
        let magnitude: u64 = (-(v + 1)) as u64 + 1;
        assert(magnitude as int == -(v as int));
        let mut s = String::new();
        proof {
            reveal_strlit("-");
        }
        s.append("-");
        let digits = u64_to_decimal(magnitude);
        s.append(digits.as_str());
        assert(s@ =~= spec_decimal_i64(v as int));
        s
    }
}

/// The JSON response reporting one finished execution.
pub open spec fn spec_execution_response(execution_time: u32, result: i64) -> Seq<char> {
    "{\"execution_time\": "@ + spec_decimal_nat(execution_time as int) + ", \"result\": "@
        + spec_decimal_i64(result as int) + "}"@
}

/// Formats the JSON response for one finished execution: the execution time
/// in microseconds and the program's result, both decimal.
pub fn format_execution_response(execution_time: u32, result: i64) -> (r: String)
    ensures
        r@ == spec_execution_response(execution_time, result),
{
    let mut s = String::from_str("{\"execution_time\": ");
    let time_digits = u64_to_decimal(execution_time as u64);
    s.append(time_digits.as_str());
    s.append(", \"result\": ");
    let result_digits = i64_to_decimal(result);
    s.append(result_digits.as_str());
    s.append("}");
    assert(s@ =~= spec_execution_response(execution_time, result));
    s
}

/// The worker's console line reporting one finished execution.
pub open spec fn spec_worker_report(execution_time: u32, result: i64) -> Seq<char> {
    "Execution_time: "@ + spec_decimal_nat(execution_time as int) + ", result: "@
        + spec_decimal_i64(result as int)
}

/// Formats the console line a worker prints when an execution finishes.
pub fn format_worker_report(execution_time: u32, result: i64) -> (r: String)
    ensures
        r@ == spec_worker_report(execution_time, result),
{
    let mut s = String::from_str("Execution_time: ");
    let time_digits = u64_to_decimal(execution_time as u64);
    s.append(time_digits.as_str());
    s.append(", result: ");
    let result_digits = i64_to_decimal(result);
    s.append(result_digits.as_str());
    assert(s@ =~= spec_worker_report(execution_time, result));
    s
}

} // verus!
