//! Progress reporting policy and rendering.
//!
//! A run reports progress in one of three ways: a bounded indicator when
//! the source's total size is known, a rate-based status line when it is
//! not, and nothing at all in quiet mode. The bounded indicator is drawn
//! by an unverified display layer; this module owns the selection policy,
//! the size-probe interpretation, and the rate-based status line.

use vstd::prelude::*;

verus! {

/// The number of bytes in one mebibyte.
pub const MIB: u64 = 1048576;

/// Interpret a source's size probe: a source of unknown length reports
/// nothing, and a zero-length source is treated the same way, since a
/// bounded indicator over zero bytes is meaningless.
pub open spec fn spec_classify_size(probed: u64) -> Option<u64> {
    if probed == 0 {
        None
    } else {
        Some(probed)
    }
}

/// Turn a probed file length into a usable total size, demoting a
/// zero-length file to "size unknown".
pub fn classify_size(probed: u64) -> (r: Option<u64>)
    ensures
        r == spec_classify_size(probed),
{
    if probed == 0 {
        None
    } else {
        Some(probed)
    }
}

/// The progress display a run works with.
#[derive(PartialEq, Eq, Structural, Debug, Clone, Copy)]
pub enum MonitorChoice {
    /// A bounded indicator over a known total size.
    Determinate { total: u64 },
    /// A rate-based status line for a source of unknown size.
    Indeterminate,
    /// No output at all.
    Silent,
}

/// The selection policy: quiet mode always silences progress; otherwise
/// a known size selects the bounded indicator and an unknown size the
/// rate-based line.
pub open spec fn spec_select_monitor(quiet: bool, size: Option<u64>) -> MonitorChoice {
    if quiet {
        MonitorChoice::Silent
    } else {
        match size {
            Some(total) => MonitorChoice::Determinate { total },
            None => MonitorChoice::Indeterminate,
        }
    }
}

/// Choose the progress display for a run.
pub fn select_monitor(quiet: bool, size: Option<u64>) -> (c: MonitorChoice)
    ensures
        c == spec_select_monitor(quiet, size),
{
    if quiet {
        MonitorChoice::Silent
    } else {
        match size {
            Some(total) => MonitorChoice::Determinate { total },
            None => MonitorChoice::Indeterminate,
        }
    }
}

/// A zero or unknown probed size never yields the determinate display,
/// whatever the quiet setting; quiet mode always yields the silent one;
/// and a positive probed size yields the determinate display exactly
/// when progress is wanted.
pub proof fn lemma_monitor_policy(quiet: bool, probed: u64)
    ensures
        probed == 0 || quiet ==> !(spec_select_monitor(quiet, spec_classify_size(probed))
            is Determinate),
        quiet ==> spec_select_monitor(quiet, spec_classify_size(probed)) is Silent,
        !quiet && probed > 0 ==> spec_select_monitor(quiet, spec_classify_size(probed))
            == (MonitorChoice::Determinate { total: probed }),
{
}

/// The decimal digit characters, least significant last.
pub open spec fn digit_char(d: nat) -> char {
    if d == 0 {
        '0'
    } else if d == 1 {
        '1'
    } else if d == 2 {
        '2'
    } else if d == 3 {
        '3'
    } else if d == 4 {
        '4'
    } else if d == 5 {
        '5'
    } else if d == 6 {
        '6'
    } else if d == 7 {
        '7'
    } else if d == 8 {
        '8'
    } else {
        '9'
    }
}

/// The usual decimal rendering of a number, without sign or padding.
pub open spec fn decimal_of(n: nat) -> Seq<char>
    decreases n,
{
    if n < 10 {
        seq![digit_char(n)]
    } else {
        decimal_of(n / 10) + seq![digit_char(n % 10)]
    }
}

fn digit_str(d: u64) -> (r: &'static str)
    requires
        d < 10,
    ensures
        r@ == seq![digit_char(d as nat)],
{
    let r: &'static str = if d == 0 {
        "0"
    } else if d == 1 {
        "1"
    } else if d == 2 {
        "2"
    } else if d == 3 {
        "3"
    } else if d == 4 {
        "4"
    } else if d == 5 {
        "5"
    } else if d == 6 {
        "6"
    } else if d == 7 {
        "7"
    } else if d == 8 {
        "8"
    } else {
        "9"
    };
    proof {
        reveal_strlit("0");
        reveal_strlit("1");
        reveal_strlit("2");
        reveal_strlit("3");
        reveal_strlit("4");
        reveal_strlit("5");
        reveal_strlit("6");
        reveal_strlit("7");
        reveal_strlit("8");
        reveal_strlit("9");
        assert(r@ =~= seq![digit_char(d as nat)]);
    }
    r
}

/// Render a number in decimal.
pub fn u128_to_decimal(n: u128) -> (r: String)
    ensures
        r@ == decimal_of(n as nat),
    decreases n,
{
    if n < 10 {
        digit_str(n as u64).to_owned()
    } else {
        let mut s = u128_to_decimal(n / 10);
        s.append(digit_str((n % 10) as u64));
        s
    }
}

/// Render a number in decimal.
pub fn u64_to_decimal(n: u64) -> (r: String)
    ensures
        r@ == decimal_of(n as nat),
{
    u128_to_decimal(n as u128)
}

/// A quantity of hundredths rendered with two decimal places.
pub open spec fn fixed2(hundredths: nat) -> Seq<char> {
    decimal_of(hundredths / 100) + "."@ + (if hundredths % 100 < 10 {
        "0"@
    } else {
        Seq::<char>::empty()
    }) + decimal_of(hundredths % 100)
}

fn render_fixed2(hundredths: u128) -> (r: String)
    ensures
        r@ == fixed2(hundredths as nat),
{
    let mut s = u128_to_decimal(hundredths / 100);
    s.append(".");
    let f = hundredths % 100;
    if f < 10 {
        s.append("0");
        let fs = u128_to_decimal(f);
        s.append(fs.as_str());
        s
    } else {
        let fs = u128_to_decimal(f);
        s.append(fs.as_str());
        proof {
            assert(decimal_of((hundredths as nat) / 100) + "."@ + Seq::<char>::empty() + decimal_of(
                (hundredths as nat) % 100,
            ) =~= decimal_of((hundredths as nat) / 100) + "."@ + decimal_of(
                (hundredths as nat) % 100,
            ));
        }
        s
    }
}

/// A byte count in hundredths of a mebibyte, rounded down.
pub open spec fn mib_hundredths(bytes: nat) -> nat {
    bytes * 100 / (MIB as nat)
}

/// A throughput in hundredths of a mebibyte per second, rounded down.
pub open spec fn rate_mib_hundredths(bytes: nat, elapsed_millis: nat) -> nat
    recommends
        elapsed_millis > 0,
{
    bytes * 100000 / ((MIB as nat) * elapsed_millis)
}

/// The rate-based status line: data transferred so far in mebibytes and,
/// once a nonzero stretch of time has elapsed, the mean throughput; until
/// then the rate reads as unavailable.
pub open spec fn spec_status_line(bytes: nat, elapsed_millis: nat) -> Seq<char> {
    if elapsed_millis == 0 {
        fixed2(mib_hundredths(bytes)) + " MiB; -- MiB/s"@
    } else {
        fixed2(mib_hundredths(bytes)) + " MiB; "@ + fixed2(
            rate_mib_hundredths(bytes, elapsed_millis),
        ) + " MiB/s"@
    }
}

/// The rate-based progress display for a source of unknown size. It keeps
/// only the moment it was constructed, against which each update computes
/// the elapsed time.
pub struct IndeterminateProgressMonitor {
    /// The construction moment, in milliseconds of some monotonic clock.
    pub start_millis: u64,
}

impl IndeterminateProgressMonitor {
    /// Begin monitoring at the given moment.
    pub fn new(start_millis: u64) -> (m: Self)
        ensures
            m.start_millis == start_millis,
    {
        IndeterminateProgressMonitor { start_millis }
    }

    /// Render the status line for a cumulative byte count at the given
    /// moment. A moment earlier than the construction moment counts as no
    /// elapsed time at all.
    pub fn set_progress(&self, progress: u64, now_millis: u64) -> (r: String)
        ensures
            r@ == spec_status_line(
                progress as nat,
                if now_millis >= self.start_millis {
                    (now_millis - self.start_millis) as nat
                } else {
                    0
                },
            ),
    {
        let elapsed: u64 = if now_millis >= self.start_millis {
            now_millis - self.start_millis
        } else {
            0
        };
        let transferred = render_fixed2((progress as u128) * 100 / (MIB as u128));
        proof {
            assert((progress as u128) * 100 < u128::MAX) by (nonlinear_arith);
        }
        if elapsed == 0 {
            let mut s = transferred;
            s.append(" MiB; -- MiB/s");
            s
        } else {
            proof {
                assert((progress as u128) * 100000 < u128::MAX) by (nonlinear_arith);
                assert((MIB as u128) * (elapsed as u128) < u128::MAX) by (nonlinear_arith)
                    requires
                        elapsed <= u64::MAX,
                ;
                assert((MIB as u128) * (elapsed as u128) > 0) by (nonlinear_arith)
                    requires
                        elapsed > 0,
                ;
            }
            let rate = render_fixed2(
                (progress as u128) * 100000 / ((MIB as u128) * (elapsed as u128)),
            );
            let mut s = transferred;
            s.append(" MiB; ");
            s.append(rate.as_str());
            s.append(" MiB/s");
            s
        }
    }
}

} // verus!
