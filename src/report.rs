//! What a cleaning run saved: the sizes before and after, and the texts that
//! tell the user and the log about them.
use crate::numbers::{decimal, decimal_string, english_grouped, grouped_decimal};
use vstd::prelude::*;
use vstd::string::StringExecFns;

verus! {

/// The sizes of a database file before and after cleaning, in bytes.
#[derive(Debug, Clone, Copy, PartialEq, Eq)]
pub struct SizeReport {
    pub from_bytes: u64,
    pub to_bytes: u64,
    /// How many bytes the cleaning removed; zero where the file did not shrink.
    pub optimized_bytes: u64,
    /// The bytes removed as a whole percentage of the first size, rounded down.
    pub percentage_of_reduction: u64,
}

/// Whether a file of `start` bytes that ends with `end` bytes counts as
/// shrunk: it was not empty and did not grow.
pub open spec fn shrank(start: int, end: int) -> bool {
    start != 0 && end <= start
}

/// The bytes saved going from `start` to `end`.
pub open spec fn saved_bytes(start: int, end: int) -> int {
    if shrank(start, end) {
        start - end
    } else {
        0
    }
}

/// The bytes saved as a whole percentage of `start`, rounded down.
pub open spec fn saved_percentage(start: int, end: int) -> int {
    if shrank(start, end) {
        (start - end) * 100 / start
    } else {
        0
    }
}

/// The report on a file that went from `start_bytes_size` to `end_size` bytes.
pub fn size_report(start_bytes_size: u64, end_size: u64) -> (r: SizeReport)
    ensures
        r.from_bytes == start_bytes_size,
        r.to_bytes == end_size,
        r.optimized_bytes == saved_bytes(start_bytes_size as int, end_size as int),
        r.percentage_of_reduction == saved_percentage(start_bytes_size as int, end_size as int),
        r.percentage_of_reduction <= 100,
{
    if start_bytes_size == 0 || end_size > start_bytes_size {
        return SizeReport {
            from_bytes: start_bytes_size,
            to_bytes: end_size,
            optimized_bytes: 0,
            percentage_of_reduction: 0,
        };
    }
    let optimized_bytes = start_bytes_size - end_size;
    let scaled: u128 = optimized_bytes as u128 * 100;
    let percentage: u128 = scaled / start_bytes_size as u128;
    proof {
        let s = start_bytes_size as int;
        let o = optimized_bytes as int;
        assert(o * 100 <= s * 100) by (nonlinear_arith)
            requires
                0 <= o <= s,
        ;
        assert((o * 100) / s <= 100) by (nonlinear_arith)
            requires
                0 <= o * 100 <= s * 100,
                s > 0,
        ;
    }
    SizeReport {
        from_bytes: start_bytes_size,
        to_bytes: end_size,
        optimized_bytes,
        percentage_of_reduction: percentage as u64,
    }
}

/// The line that gives the size of the file at a moment (`start`, `end`).
pub open spec fn size_line(moment: Seq<char>, bytes: nat) -> Seq<char> {
    "Size at "@ + moment + " \""@ + grouped_decimal(bytes) + "\" bytes"@
}

/// The line that gives what a run saved.
pub open spec fn reduction_line(r: SizeReport) -> Seq<char> {
    "Total optimized: \""@ + grouped_decimal(r.optimized_bytes as nat)
        + "\" bytes, it's reduced by "@ + decimal(r.percentage_of_reduction as nat)
        + "% the size"@
}

/// The log record of a run, a JSON object on one line.
pub open spec fn json_record(r: SizeReport, elapsed_ms: nat) -> Seq<char> {
    "{\"from_bytes\": "@ + decimal(r.from_bytes as nat) + ",\"to_bytes\": "@ + decimal(
        r.to_bytes as nat,
    ) + ",\"optimized_bytes\": "@ + decimal(r.optimized_bytes as nat)
        + ",\"percentage_of_reduction\": "@ + decimal(r.percentage_of_reduction as nat)
        + ",\"elapsed_time_ms\": \""@ + decimal(elapsed_ms) + "\"}"@
}

/// The line that gives the size of the file at `moment`, as in
/// `Size at start "1,024" bytes`.
pub fn size_message(moment: &str, bytes: u64) -> (r: String)
    ensures
        r@ == size_line(moment@, bytes as nat),
{
    let mut r = String::from_str("Size at ");
    r.append(moment);
    r.append(" \"");
    let g = english_grouped(bytes);
    r.append(g.as_str());
    r.append("\" bytes");
    r
}

/// The line that gives the bytes saved and the reduction in percent.
pub fn reduction_message(report: &SizeReport) -> (r: String)
    ensures
        r@ == reduction_line(*report),
{
    let mut r = String::from_str("Total optimized: \"");
    let g = english_grouped(report.optimized_bytes);
    r.append(g.as_str());
    r.append("\" bytes, it's reduced by ");
    let p = decimal_string(report.percentage_of_reduction as u128);
    r.append(p.as_str());
    r.append("% the size");
    r
}

/// The log record of a run that took `elapsed_ms` milliseconds.
pub fn report_json(report: &SizeReport, elapsed_ms: u128) -> (r: String)
    ensures
        r@ == json_record(*report, elapsed_ms as nat),
{
    let mut r = String::from_str("{\"from_bytes\": ");
    r.append(decimal_string(report.from_bytes as u128).as_str());
    r.append(",\"to_bytes\": ");
    r.append(decimal_string(report.to_bytes as u128).as_str());
    r.append(",\"optimized_bytes\": ");
    r.append(decimal_string(report.optimized_bytes as u128).as_str());
    r.append(",\"percentage_of_reduction\": ");
    r.append(decimal_string(report.percentage_of_reduction as u128).as_str());
    r.append(",\"elapsed_time_ms\": \"");
    r.append(decimal_string(elapsed_ms).as_str());
    r.append("\"}");
    r
}

} // verus!
