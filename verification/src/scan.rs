//! The run accumulator: a two-state machine that consumes the classified
//! code-unit stream and collects the maximal printable runs that meet the
//! minimum length.
//!
//! The machine is `Idle` while no run is open and `Accumulating` while one
//! is. A printable unit opens or extends a run; a non-printable unit or the
//! end of the stream closes the open run, which is emitted when its length
//! reaches the minimum and discarded silently otherwise. The specification
//! model [`scan_fold`] replays exactly these transitions over the sequence
//! of printability flags, so every executable result is pinned to it.

use vstd::prelude::*;
use vstd::arithmetic::div_mod::{lemma_fundamental_div_mod, lemma_mod_bound};
use vstd::arithmetic::mul::lemma_mul_inequality;
use crate::classify::{is_printable, is_printable_unit};
use crate::config::{code_unit_width, effective_min_len, Encoding};
use crate::decode::{decode_units, num_units, unit_value_at, unit_values, CodeUnit};

verus! {

/// A confirmed run: the byte offset of its first code unit and the values
/// of its code units, in input order.
#[derive(Debug, Clone, PartialEq, Eq)]
pub struct Run {
    /// Byte offset, in the scanned source, of the run's first code unit.
    pub start: usize,
    /// The values of the run's code units.
    pub units: Vec<u32>,
}

/// The printability flag of every code-unit value, in input order.
pub open spec fn printable_flags(values: Seq<u32>, e: Encoding, whitespace: bool) -> Seq<bool> {
    Seq::new(values.len(), |i: int| is_printable_unit(values[i], e, whitespace))
}

/// The values carried by a sequence of decoded code units.
pub open spec fn values_of(units: Seq<CodeUnit>) -> Seq<u32> {
    units.map_values(|u: CodeUnit| u.value)
}

/// The accumulator state of the scan model: the runs emitted so far and the
/// open run, if any, as `(start index, length so far)` in code units.
pub ghost struct ScanAcc {
    pub emitted: Seq<(int, int)>,
    pub cur: Option<(int, int)>,
}

/// The state before any unit has been consumed.
pub open spec fn scan_init() -> ScanAcc {
    ScanAcc { emitted: Seq::empty(), cur: None }
}

/// One transition of the run accumulator on the unit at index `i` with
/// printability `p`, under minimum length `m`.
pub open spec fn scan_step(acc: ScanAcc, p: bool, i: int, m: int) -> ScanAcc {
    match acc.cur {
        None => if p {
            ScanAcc { emitted: acc.emitted, cur: Some((i, 1)) }
        } else {
            acc
        },
        Some(sk) => if p {
            ScanAcc { emitted: acc.emitted, cur: Some((sk.0, sk.1 + 1)) }
        } else {
            ScanAcc {
                emitted: if sk.1 >= m {
                    acc.emitted.push(sk)
                } else {
                    acc.emitted
                },
                cur: None,
            }
        },
    }
}

/// The accumulator state after consuming the first `n` printability flags.
pub open spec fn scan_fold(ps: Seq<bool>, n: int, m: int) -> ScanAcc
    decreases n,
{
    if n <= 0 {
        scan_init()
    } else {
        scan_step(scan_fold(ps, n - 1, m), ps[n - 1], n - 1, m)
    }
}

/// Close the run still open at end of input, emitting it when long enough.
pub open spec fn scan_flush(acc: ScanAcc, m: int) -> Seq<(int, int)> {
    match acc.cur {
        None => acc.emitted,
        Some(sk) => if sk.1 >= m {
            acc.emitted.push(sk)
        } else {
            acc.emitted
        },
    }
}

/// All runs emitted for the given printability flags and minimum length, as
/// `(start index, length)` pairs in code units, in input order.
pub open spec fn runs_spec(ps: Seq<bool>, m: int) -> Seq<(int, int)> {
    scan_flush(scan_fold(ps, ps.len() as int, m), m)
}

/// All runs emitted when the given bytes are scanned under the given
/// encoding, whitespace policy and configured minimum length.
pub open spec fn run_models(bytes: Seq<u8>, e: Encoding, whitespace: bool, min_len: u16) -> Seq<
    (int, int),
> {
    runs_spec(
        printable_flags(unit_values(bytes, e), e, whitespace),
        effective_min_len(min_len),
    )
}

/// What it means for `(start, length)` to be an emitted run: it meets the
/// minimum length, all its units are printable, and it is maximal - the
/// unit before it (if any) and the unit after it (if any) are not printable.
pub open spec fn is_maximal_run(ps: Seq<bool>, m: int, sk: (int, int)) -> bool {
    &&& m <= sk.1
    &&& 0 <= sk.0
    &&& sk.0 + sk.1 <= ps.len()
    &&& forall|j: int| sk.0 <= j < sk.0 + sk.1 ==> ps[j]
    &&& (sk.0 == 0 || !ps[sk.0 - 1])
    &&& (sk.0 + sk.1 == ps.len() || !ps[sk.0 + sk.1])
}

/// An emitted run as it stands while the scan is still under way: closed by
/// a non-printable unit strictly before position `n`.
spec fn is_closed_run(ps: Seq<bool>, m: int, n: int, sk: (int, int)) -> bool {
    &&& m <= sk.1
    &&& 0 <= sk.0
    &&& sk.0 + sk.1 < n
    &&& forall|j: int| sk.0 <= j < sk.0 + sk.1 ==> ps[j]
    &&& (sk.0 == 0 || !ps[sk.0 - 1])
    &&& !ps[sk.0 + sk.1]
}

/// Well-formedness of the accumulator after `n` flags: every emitted run is
/// closed and they stand in input order without overlap; an open run ends
/// exactly at `n`, is printable throughout, and began right after a
/// non-printable unit; with no open run, the unit before `n` (if any) was
/// not printable.
spec fn acc_wf(ps: Seq<bool>, n: int, m: int, acc: ScanAcc) -> bool {
    &&& forall|j: int|
        0 <= j < acc.emitted.len() ==> is_closed_run(ps, m, n, #[trigger] acc.emitted[j])
    &&& forall|j: int|
        0 <= j && j + 1 < acc.emitted.len() ==> (#[trigger] acc.emitted[j]).0 + acc.emitted[j].1
            < acc.emitted[j + 1].0
    &&& match acc.cur {
        None => n == 0 || !ps[n - 1],
        Some(sk) => {
            &&& 1 <= sk.1
            &&& 0 <= sk.0
            &&& sk.0 + sk.1 == n
            &&& forall|j: int| sk.0 <= j < n ==> ps[j]
            &&& (sk.0 == 0 || !ps[sk.0 - 1])
            &&& forall|j: int|
                0 <= j < acc.emitted.len() ==> (#[trigger] acc.emitted[j]).0 + acc.emitted[j].1
                    < sk.0
        },
    }
}

/// The accumulator is well formed after any number of transitions.
proof fn lemma_scan_fold_wf(ps: Seq<bool>, n: int, m: int)
    requires
        0 <= n <= ps.len(),
        1 <= m,
    ensures
        acc_wf(ps, n, m, scan_fold(ps, n, m)),
    decreases n,
{
    if n > 0 {
        lemma_scan_fold_wf(ps, n - 1, m);
        let prev = scan_fold(ps, n - 1, m);
        let acc = scan_fold(ps, n, m);
        assert(acc == scan_step(prev, ps[n - 1], n - 1, m));
        match prev.cur {
            None => {},
            Some(sk) => {
                if !ps[n - 1] && sk.1 >= m {
                    assert(is_closed_run(ps, m, n, sk));
                }
            },
        }
    }
}

/// LAW - every emitted run meets the minimum length, consists of printable
/// code units only, and is maximal: no printable unit stands immediately
/// before or after it. Emitted runs also appear in input order without
/// overlapping, so every code unit belongs to at most one run.
pub proof fn lemma_runs_printable_and_maximal(
    bytes: Seq<u8>,
    e: Encoding,
    whitespace: bool,
    min_len: u16,
)
    ensures
        forall|j: int|
            0 <= j < run_models(bytes, e, whitespace, min_len).len() ==> is_maximal_run(
                printable_flags(unit_values(bytes, e), e, whitespace),
                effective_min_len(min_len),
                #[trigger] run_models(bytes, e, whitespace, min_len)[j],
            ),
        forall|j: int|
            0 <= j && j + 1 < run_models(bytes, e, whitespace, min_len).len() ==> (
            #[trigger] run_models(bytes, e, whitespace, min_len)[j]).0 + run_models(
                bytes,
                e,
                whitespace,
                min_len,
            )[j].1 < run_models(bytes, e, whitespace, min_len)[j + 1].0,
{
    let ps = printable_flags(unit_values(bytes, e), e, whitespace);
    let m = effective_min_len(min_len);
    lemma_scan_fold_wf(ps, ps.len() as int, m);
}

/// Two open runs reaching position `n` have the same start: each begins at
/// the first printable position after a non-printable one.
proof fn lemma_open_run_start_unique(ps: Seq<bool>, n: int, s1: int, s2: int)
    requires
        0 <= s1 < n <= ps.len(),
        0 <= s2 < n,
        forall|j: int| s1 <= j < n ==> ps[j],
        forall|j: int| s2 <= j < n ==> ps[j],
        s1 == 0 || !ps[s1 - 1],
        s2 == 0 || !ps[s2 - 1],
    ensures
        s1 == s2,
{
    if s1 < s2 {
        assert(ps[s2 - 1]);
    }
    if s2 < s1 {
        assert(ps[s1 - 1]);
    }
}

/// Every run that closed before position `n` stands in the accumulator.
spec fn acc_complete(ps: Seq<bool>, n: int, m: int, acc: ScanAcc) -> bool {
    forall|sk: (int, int)| is_closed_run(ps, m, n, sk) ==> acc.emitted.contains(sk)
}

/// Nothing is lost: the accumulator holds every run that has closed so far.
proof fn lemma_scan_fold_complete(ps: Seq<bool>, n: int, m: int)
    requires
        0 <= n <= ps.len(),
        1 <= m,
    ensures
        acc_complete(ps, n, m, scan_fold(ps, n, m)),
    decreases n,
{
    if n > 0 {
        lemma_scan_fold_complete(ps, n - 1, m);
        lemma_scan_fold_wf(ps, n - 1, m);
        let prev = scan_fold(ps, n - 1, m);
        let acc = scan_fold(ps, n, m);
        assert forall|sk: (int, int)| is_closed_run(ps, m, n, sk) implies acc.emitted.contains(
            sk,
        ) by {
            if sk.0 + sk.1 < n - 1 {
                assert(is_closed_run(ps, m, n - 1, sk));
                assert(prev.emitted.contains(sk));
                let i = choose|i: int| 0 <= i < prev.emitted.len() && prev.emitted[i] == sk;
                assert(acc.emitted[i] == sk);
                assert(acc.emitted.contains(sk));
            } else {
                // the candidate closed exactly on the previous flag, so the
                // machine was accumulating it and pushed it on this step
                assert(sk.0 + sk.1 == n - 1);
                assert(!ps[n - 1]);
                match prev.cur {
                    None => {
                        assert(ps[n - 2]);
                    },
                    Some(cur) => {
                        lemma_open_run_start_unique(ps, n - 1, sk.0, cur.0);
                        assert(cur == sk);
                        assert(acc.emitted[acc.emitted.len() - 1] == sk);
                        assert(acc.emitted.contains(sk));
                    },
                }
            }
        }
    }
}

/// LAW - completeness of the scan: every maximal printable run that meets
/// the minimum length is emitted; together with
/// [`lemma_runs_printable_and_maximal`] the emitted runs are exactly the
/// maximal printable runs of at least the minimum length, in input order.
pub proof fn lemma_every_maximal_run_emitted(
    bytes: Seq<u8>,
    e: Encoding,
    whitespace: bool,
    min_len: u16,
)
    ensures
        forall|sk: (int, int)|
            is_maximal_run(
                printable_flags(unit_values(bytes, e), e, whitespace),
                effective_min_len(min_len),
                sk,
            ) ==> run_models(bytes, e, whitespace, min_len).contains(sk),
{
    let ps = printable_flags(unit_values(bytes, e), e, whitespace);
    let m = effective_min_len(min_len);
    let n = ps.len() as int;
    let acc = scan_fold(ps, n, m);
    let rm = run_models(bytes, e, whitespace, min_len);
    lemma_scan_fold_complete(ps, n, m);
    lemma_scan_fold_wf(ps, n, m);
    assert forall|sk: (int, int)| is_maximal_run(ps, m, sk) implies rm.contains(sk) by {
        if sk.0 + sk.1 < n {
            assert(is_closed_run(ps, m, n, sk));
            assert(acc.emitted.contains(sk));
            let i = choose|i: int| 0 <= i < acc.emitted.len() && acc.emitted[i] == sk;
            assert(acc.emitted[i] == sk);
            assert(rm[i] == sk);
            assert(rm.contains(sk));
        } else {
            // the candidate runs to the end of input, so it is still open
            // when the input ends and the final flush emits it
            assert(ps[n - 1]);
            match acc.cur {
                None => {
                    assert(false);
                },
                Some(cur) => {
                    lemma_open_run_start_unique(ps, n, sk.0, cur.0);
                    assert(cur == sk);
                    assert(rm[rm.len() - 1] == sk);
                    assert(rm.contains(sk));
                },
            }
        }
    }
}

/// LAW - a reported run never reaches into a dangling partial tail: every
/// byte of every emitted run lies among the wholly decoded windows, so an
/// input whose length is not a multiple of the code-unit width never yields
/// a run touching the trailing fragment.
pub proof fn lemma_no_partial_tail(bytes: Seq<u8>, e: Encoding, whitespace: bool, min_len: u16)
    ensures
        forall|j: int|
            0 <= j < run_models(bytes, e, whitespace, min_len).len() ==> {
                let sk = #[trigger] run_models(bytes, e, whitespace, min_len)[j];
                0 <= sk.0 * code_unit_width(e) && (sk.0 + sk.1) * code_unit_width(e)
                    <= bytes.len()
            },
{
    let rm = run_models(bytes, e, whitespace, min_len);
    let w = code_unit_width(e);
    lemma_runs_printable_and_maximal(bytes, e, whitespace, min_len);
    lemma_fundamental_div_mod(bytes.len() as int, w);
    lemma_mod_bound(bytes.len() as int, w);
    assert forall|j: int| 0 <= j < rm.len() implies {
        let sk = #[trigger] rm[j];
        0 <= sk.0 * w && (sk.0 + sk.1) * w <= bytes.len()
    } by {
        let sk = rm[j];
        lemma_mul_inequality(0, sk.0, w);
        lemma_mul_inequality(sk.0 + sk.1, num_units(bytes, e), w);
    }
}

/// LAW - round-trip offset check: for every emitted run, re-reading one
/// code-unit window at the run's reported byte offset decodes to the run's
/// first code unit, and that window lies wholly inside the input.
pub proof fn lemma_round_trip_offset(bytes: Seq<u8>, e: Encoding, whitespace: bool, min_len: u16)
    ensures
        forall|j: int|
            0 <= j < run_models(bytes, e, whitespace, min_len).len() ==> {
                let sk = #[trigger] run_models(bytes, e, whitespace, min_len)[j];
                &&& 0 <= sk.0 * code_unit_width(e)
                &&& sk.0 * code_unit_width(e) + code_unit_width(e) <= bytes.len()
                &&& unit_value_at(bytes, e, sk.0 * code_unit_width(e)) == unit_values(bytes, e)[sk.0]
            },
{
    let rm = run_models(bytes, e, whitespace, min_len);
    let w = code_unit_width(e);
    lemma_runs_printable_and_maximal(bytes, e, whitespace, min_len);
    lemma_no_partial_tail(bytes, e, whitespace, min_len);
    assert forall|j: int| 0 <= j < rm.len() implies {
        let sk = #[trigger] rm[j];
        &&& 0 <= sk.0 * w
        &&& sk.0 * w + w <= bytes.len()
        &&& unit_value_at(bytes, e, sk.0 * w) == unit_values(bytes, e)[sk.0]
    } by {
        let sk = rm[j];
        assert((sk.0 + 1) * w == sk.0 * w + w) by (nonlinear_arith);
        lemma_mul_inequality(sk.0 + 1, sk.0 + sk.1, w);
    }
}

/// The executable two-state machine; `Accumulating` carries the byte offset
/// and values of the open run, and, for the proof, its start index.
enum ScanState {
    Idle,
    Accumulating { start_off: usize, vals: Vec<u32>, start_idx: Ghost<int> },
}

/// Collect the maximal printable runs of at least the minimum length from a
/// decoded code-unit sequence. The result follows the model [`runs_spec`]
/// run for run: each reported start is the byte offset of the run's first
/// unit, and each reported value sequence is exactly the units of the run.
pub fn scan_units(units: &Vec<CodeUnit>, e: Encoding, whitespace: bool, min_len: u16) -> (runs:
    Vec<Run>)
    ensures
        ({
            let rm = runs_spec(
                printable_flags(values_of(units@), e, whitespace),
                effective_min_len(min_len),
            );
            &&& runs@.len() == rm.len()
            &&& forall|j: int|
                0 <= j < rm.len() ==> (#[trigger] runs@[j]).start == units@[rm[j].0].offset
                    && runs@[j].units@ == values_of(units@).subrange(rm[j].0, rm[j].0 + rm[j].1)
        }),
{
    let ghost ps = printable_flags(values_of(units@), e, whitespace);
    let ghost m_spec = effective_min_len(min_len);
    let min_units: usize = if min_len == 0 {
        1
    } else {
        min_len as usize
    };
    let mut runs: Vec<Run> = Vec::new();
    let mut st = ScanState::Idle;
    let mut i: usize = 0;
    while i < units.len()
        invariant
            i <= units@.len(),
            ps == printable_flags(values_of(units@), e, whitespace),
            m_spec == effective_min_len(min_len),
            min_units as int == m_spec,
            ({
                let acc = scan_fold(ps, i as int, m_spec);
                &&& runs@.len() == acc.emitted.len()
                &&& forall|j: int|
                    0 <= j < acc.emitted.len() ==> (#[trigger] runs@[j]).start
                        == units@[acc.emitted[j].0].offset && runs@[j].units@ == values_of(
                        units@,
                    ).subrange(acc.emitted[j].0, acc.emitted[j].0 + acc.emitted[j].1)
                &&& match st {
                    ScanState::Idle => acc.cur is None,
                    ScanState::Accumulating { start_off, vals, start_idx } => {
                        &&& acc.cur == Some((start_idx@, vals@.len() as int))
                        &&& 0 <= start_idx@ < units@.len()
                        &&& start_off == units@[start_idx@].offset
                        &&& vals@ == values_of(units@).subrange(start_idx@, i as int)
                        &&& start_idx@ + vals@.len() == i
                    },
                }
            }),
        decreases units@.len() - i,
    {
        proof {
            lemma_scan_fold_wf(ps, i as int, m_spec);
            assert(ps[i as int] == is_printable_unit(values_of(units@)[i as int], e, whitespace));
        }
        let p = is_printable(units[i].value, e, whitespace);
        st = match st {
            ScanState::Idle => {
                if p {
                    ScanState::Accumulating {
                        start_off: units[i].offset,
                        vals: vec![units[i].value],
                        start_idx: Ghost(i as int),
                    }
                } else {
                    ScanState::Idle
                }
            },
            ScanState::Accumulating { start_off, mut vals, start_idx } => {
                if p {
                    vals.push(units[i].value);
                    proof {
                        assert(vals@ =~= values_of(units@).subrange(start_idx@, i + 1));
                    }
                    ScanState::Accumulating { start_off, vals, start_idx }
                } else {
                    if vals.len() >= min_units {
                        runs.push(Run { start: start_off, units: vals });
                    }
                    ScanState::Idle
                }
            },
        };
        proof {
            if st is Accumulating && scan_fold(ps, i as int, m_spec).cur is None {
                assert(seq![units@[i as int].value] =~= values_of(units@).subrange(
                    i as int,
                    i + 1,
                ));
            }
        }
        i = i + 1;
    }
    match st {
        ScanState::Idle => {},
        ScanState::Accumulating { start_off, vals, .. } => {
            if vals.len() >= min_units {
                runs.push(Run { start: start_off, units: vals });
            }
        },
    }
    runs
}

/// Scan a byte source: decode it into code units under the encoding, then
/// collect the maximal printable runs of at least the minimum length. Each
/// reported start is the byte offset of the run's first code-unit window,
/// and the reported values are exactly the code units of the run.
pub fn scan_bytes(bytes: &Vec<u8>, e: Encoding, whitespace: bool, min_len: u16) -> (runs: Vec<
    Run,
>)
    ensures
        ({
            let rm = run_models(bytes@, e, whitespace, min_len);
            &&& runs@.len() == rm.len()
            &&& forall|j: int|
                0 <= j < rm.len() ==> (#[trigger] runs@[j]).start == rm[j].0 * code_unit_width(e)
                    && runs@[j].units@ == unit_values(bytes@, e).subrange(
                    rm[j].0,
                    rm[j].0 + rm[j].1,
                )
        }),
{
    let units = decode_units(bytes, e);
    proof {
        assert(values_of(units@) =~= unit_values(bytes@, e));
        lemma_scan_fold_wf(
            printable_flags(unit_values(bytes@, e), e, whitespace),
            unit_values(bytes@, e).len() as int,
            effective_min_len(min_len),
        );
    }
    scan_units(&units, e, whitespace, min_len)
}

} // verus!
