//! What an iperf throughput test runs and how its output is read.
//!
//! The application starts the `iperf3` (or, when that is missing, `iperf`)
//! process with the arguments built here, waits for it, and hands the
//! text it printed back to this module.

use vstd::prelude::*;
use crate::text::{
    chars_equal, chars_of, decimal_string, decimal_text, is_white, is_white_char,
    lemma_split_lines_nonempty, occurs_between, occurs_in, split_lines, string_of, word_scan,
    words,
};

verus! {

/// An iperf client for one server.
#[derive(Debug, Clone)]
pub struct IperfClient {
    pub server: String,
    pub port: u16,
    pub duration_secs: u32,
}

/// Arguments of an `iperf3` run: connect to `server` on `port` for
/// `duration` seconds and report as JSON.
pub open spec fn iperf3_arg_texts(server: Seq<char>, port: nat, duration: nat) -> Seq<Seq<char>> {
    seq![
        "-c"@,
        server,
        "-p"@,
        decimal_text(port),
        "-t"@,
        decimal_text(duration),
        "-J"@,
    ]
}

/// Arguments of an `iperf` (version 2) run: the same test, plain text.
pub open spec fn iperf2_arg_texts(server: Seq<char>, port: nat, duration: nat) -> Seq<Seq<char>> {
    seq!["-c"@, server, "-p"@, decimal_text(port), "-t"@, decimal_text(duration)]
}

/// The texts of a list of strings.
pub open spec fn texts_of(v: Seq<String>) -> Seq<Seq<char>> {
    v.map_values(|s: String| s@)
}

/// Program that runs iperf3: the copy bundled at `/app/bin/iperf3` inside
/// a Flatpak sandbox, where the host's binary cannot be reached, else the
/// one on the search path.
pub open spec fn iperf3_program_text(in_flatpak: bool) -> Seq<char> {
    if in_flatpak {
        "/app/bin/iperf3"@
    } else {
        "iperf3"@
    }
}

/// Seconds allowed beyond the test itself for connecting and reporting.
pub const TIMEOUT_SLACK_SECS: u64 = 5;

/// Unit word of an iperf2 throughput figure.
#[derive(Debug, Clone, Copy, PartialEq, Eq, Structural)]
pub enum RateUnit {
    /// `Kbits/sec`
    Kbits,
    /// `Mbits/sec`
    Mbits,
    /// `Gbits/sec`
    Gbits,
}

/// A throughput figure found in iperf2 output: the word before a unit
/// word, still to be read as a number, and that unit.
#[derive(Debug, Clone)]
pub struct RateCandidate {
    pub number: String,
    pub unit: RateUnit,
}

/// The unit that a word names, if it is one of the three unit words.
pub open spec fn rate_unit_of(w: Seq<char>) -> Option<RateUnit> {
    if w == "Mbits/sec"@ {
        Some(RateUnit::Mbits)
    } else if w == "Gbits/sec"@ {
        Some(RateUnit::Gbits)
    } else if w == "Kbits/sec"@ {
        Some(RateUnit::Kbits)
    } else {
        None
    }
}

/// For each unit word of `ws` other than the first word, in order: the
/// word just before it and its unit.
pub open spec fn rate_pairs(ws: Seq<Seq<char>>) -> Seq<(Seq<char>, RateUnit)>
    decreases ws.len(),
{
    if ws.len() < 2 {
        Seq::empty()
    } else {
        let prev = rate_pairs(ws.drop_last());
        match rate_unit_of(ws.last()) {
            Some(u) => prev.push((ws[ws.len() - 2], u)),
            None => prev,
        }
    }
}

/// The last of `lines` in which `pat` occurs.
pub open spec fn last_with(lines: Seq<Seq<char>>, pat: Seq<char>) -> Option<Seq<char>>
    decreases lines.len(),
{
    if lines.len() == 0 {
        None
    } else if occurs_in(pat, lines.last()) {
        Some(lines.last())
    } else {
        last_with(lines.drop_last(), pat)
    }
}

/// The summary line of iperf2 output: its last line containing " sec ",
/// e.g. `[  3]  0.0- 5.0 sec  38.1 MBytes  64.0 Mbits/sec`. (`str::lines`
/// also drops a `\r` before each line feed; a `\r` is white space and
/// not part of " sec ", so it changes neither the line chosen nor its
/// words.)
pub open spec fn summary_line(output: Seq<char>) -> Option<Seq<char>> {
    last_with(split_lines(output), " sec "@)
}

/// The throughput figures of iperf2 output, in the order they appear on
/// its summary line; none when there is no summary line. The throughput
/// is the first of them whose number parses, times its unit.
pub open spec fn iperf2_rate_pairs(output: Seq<char>) -> Seq<(Seq<char>, RateUnit)> {
    match summary_line(output) {
        Some(line) => rate_pairs(words(line)),
        None => Seq::empty(),
    }
}

/// The texts of the character ranges `rs` of `v`.
pub open spec fn range_texts(v: Seq<char>, rs: Seq<(usize, usize)>) -> Seq<Seq<char>> {
    Seq::new(rs.len(), |k: int| v.subrange(rs[k].0 as int, rs[k].1 as int))
}

/// Ranges within `[a, b)` of `v`, each in order.
pub open spec fn ranges_within(rs: Seq<(usize, usize)>, a: int, b: int) -> bool {
    forall|k: int| 0 <= k < rs.len() ==> a <= (#[trigger] rs[k]).0 <= rs[k].1 <= b
}

/// The range of the last line of `v` in which `pat` occurs.
fn last_line_with(v: &[char], pat: &[char]) -> (r: Option<(usize, usize)>)
    ensures
        match r {
            Some((a, b)) => a <= b <= v@.len() && last_with(split_lines(v@), pat@) == Some(
                v@.subrange(a as int, b as int),
            ),
            None => last_with(split_lines(v@), pat@) is None,
        },
{
    let n = v.len();
    let mut start: usize = 0;
    let mut best: Option<(usize, usize)> = None;
    let mut i: usize = 0;
    assert(v@.take(0) =~= Seq::<char>::empty());
    assert(split_lines(v@.take(0)).drop_last() =~= Seq::<Seq<char>>::empty());
    assert(v@.subrange(0, 0) =~= Seq::<char>::empty());
    while i < n
        invariant
            n == v@.len(),
            start <= i <= n,
            split_lines(v@.take(i as int)).last() == v@.subrange(start as int, i as int),
            match best {
                Some((a, b)) => a <= b <= n && last_with(
                    split_lines(v@.take(i as int)).drop_last(),
                    pat@,
                ) == Some(v@.subrange(a as int, b as int)),
                None => last_with(split_lines(v@.take(i as int)).drop_last(), pat@) is None,
            },
        decreases n - i,
    {
        let ghost pre = split_lines(v@.take(i as int));
        proof {
            lemma_split_lines_nonempty(v@.take(i as int));
            assert(v@.take(i + 1).drop_last() =~= v@.take(i as int));
            assert(v@.take(i + 1).last() == v@[i as int]);
        }
        if v[i] == '\n' {
            let hit = occurs_between(pat, v, start, i);
            proof {
                assert(split_lines(v@.take(i + 1)) == pre.push(Seq::<char>::empty()));
                assert(pre.push(Seq::<char>::empty()).drop_last() =~= pre);
                assert(pre == pre.drop_last().push(pre.last()));
            }
            if hit {
                best = Some((start, i));
            }
            start = i + 1;
            assert(v@.subrange(start as int, (i + 1) as int) =~= Seq::<char>::empty());
        } else {
            proof {
                let post = pre.update(pre.len() - 1, pre.last().push(v@[i as int]));
                assert(split_lines(v@.take(i + 1)) == post);
                assert(post.drop_last() =~= pre.drop_last());
                assert(v@.subrange(start as int, i + 1) =~= v@.subrange(start as int, i as int).push(
                    v@[i as int],
                ));
            }
        }
        i = i + 1;
    }
    proof {
        lemma_split_lines_nonempty(v@);
        assert(v@.take(n as int) =~= v@);
    }
    let hit = occurs_between(pat, v, start, n);
    if hit {
        Some((start, n))
    } else {
        best
    }
}

/// The character ranges of the words of `v[a..b]`.
fn word_ranges(v: &[char], a: usize, b: usize) -> (r: Vec<(usize, usize)>)
    requires
        a <= b <= v@.len(),
    ensures
        ranges_within(r@, a as int, b as int),
        range_texts(v@, r@) == words(v@.subrange(a as int, b as int)),
{
    let ghost line = v@.subrange(a as int, b as int);
    let mut r: Vec<(usize, usize)> = Vec::new();
    let mut in_word = false;
    let mut cur_start: usize = a;
    let mut k: usize = a;
    assert(line.take(0) =~= Seq::<char>::empty());
    assert(range_texts(v@, r@) =~= Seq::<Seq<char>>::empty());
    while k < b
        invariant
            a <= k <= b <= v@.len(),
            line == v@.subrange(a as int, b as int),
            a <= cur_start <= k,
            ranges_within(r@, a as int, k as int),
            word_scan(line.take(k - a)) == (
                range_texts(v@, r@),
                if in_word {
                    v@.subrange(cur_start as int, k as int)
                } else {
                    Seq::<char>::empty()
                },
            ),
            in_word ==> cur_start < k,
        decreases b - k,
    {
        let ghost old_r = r@;
        proof {
            assert(line.take(k - a + 1).drop_last() =~= line.take(k - a));
            assert(line.take(k - a + 1).last() == v@[k as int]);
        }
        let c = v[k];
        if is_white_char(c) {
            if in_word {
                r.push((cur_start, k));
                assert(range_texts(v@, r@) =~= range_texts(v@, old_r).push(
                    v@.subrange(cur_start as int, k as int),
                ));
                in_word = false;
            }
        } else {
            if !in_word {
                cur_start = k;
                in_word = true;
                assert(v@.subrange(k as int, k + 1) =~= Seq::<char>::empty().push(v@[k as int]));
            } else {
                assert(v@.subrange(cur_start as int, k + 1) =~= v@.subrange(
                    cur_start as int,
                    k as int,
                ).push(v@[k as int]));
            }
        }
        k = k + 1;
    }
    assert(line.take(b - a) =~= line);
    if in_word {
        let ghost old_r = r@;
        r.push((cur_start, b));
        assert(range_texts(v@, r@) =~= range_texts(v@, old_r).push(
            v@.subrange(cur_start as int, b as int),
        ));
    }
    r
}

/// The unit named by `v[from..to]`, if it is a unit word.
fn unit_between(v: &[char], from: usize, to: usize) -> (u: Option<RateUnit>)
    requires
        from <= to <= v@.len(),
    ensures
        u == rate_unit_of(v@.subrange(from as int, to as int)),
{
    let mbits = chars_of("Mbits/sec");
    let gbits = chars_of("Gbits/sec");
    let kbits = chars_of("Kbits/sec");
    if chars_equal(v, from, to, mbits.as_slice()) {
        Some(RateUnit::Mbits)
    } else if chars_equal(v, from, to, gbits.as_slice()) {
        Some(RateUnit::Gbits)
    } else if chars_equal(v, from, to, kbits.as_slice()) {
        Some(RateUnit::Kbits)
    } else {
        None
    }
}

/// The throughput figures on the summary line of iperf2 output (see
/// `iperf2_rate_pairs`).
pub fn iperf2_rate_candidates(output: &str) -> (r: Vec<RateCandidate>)
    ensures
        r@.len() == iperf2_rate_pairs(output@).len(),
        forall|k: int|
            0 <= k < r@.len() ==> ((#[trigger] r@[k]).number@, r@[k].unit) == iperf2_rate_pairs(
                output@,
            )[k],
{
    let v = chars_of(output);
    let pat = chars_of(" sec ");
    let mut r: Vec<RateCandidate> = Vec::new();
    let line = last_line_with(v.as_slice(), pat.as_slice());
    match line {
        None => {
            return r;
        },
        Some((a, b)) => {
            let ranges = word_ranges(v.as_slice(), a, b);
            let ghost ws = range_texts(v@, ranges@);
            let mut j: usize = 0;
            assert(ws.take(0) =~= Seq::<Seq<char>>::empty());
            while j < ranges.len()
                invariant
                    j <= ranges@.len(),
                    ws == range_texts(v@, ranges@),
                    ranges_within(ranges@, a as int, b as int),
                    b <= v@.len(),
                    r@.len() == rate_pairs(ws.take(j as int)).len(),
                    forall|k: int|
                        0 <= k < r@.len() ==> ((#[trigger] r@[k]).number@, r@[k].unit) == rate_pairs(
                            ws.take(j as int),
                        )[k],
                decreases ranges@.len() - j,
            {
                let ghost prev = rate_pairs(ws.take(j as int));
                proof {
                    assert(ws.take(j + 1).drop_last() =~= ws.take(j as int));
                    assert(ws.take(j + 1).last() == ws[j as int]);
                }
                let (from, to) = ranges[j];
                assert(ranges@[j as int].0 <= ranges@[j as int].1 <= b);
                let unit = unit_between(v.as_slice(), from, to);
                if j >= 1 {
                    assert(ws.take(j + 1)[j - 1] == ws[j - 1]);
                    match unit {
                        Some(u) => {
                            let (pf, pt) = ranges[j - 1];
                            assert(ranges@[j - 1].0 <= ranges@[j - 1].1 <= b);
                            let number = string_of(v.as_slice(), pf, pt);
                            let ghost old_r = r@;
                            r.push(RateCandidate { number, unit: u });
                            assert(forall|k: int|
                                0 <= k < old_r.len() ==> r@[k] == old_r[k]);
                        },
                        None => {},
                    }
                } else {
                    assert(rate_pairs(ws.take(j + 1)) == Seq::<(Seq<char>, RateUnit)>::empty());
                }
                j = j + 1;
            }
            assert(ws.take(ranges@.len() as int) =~= ws);
            r
        },
    }
}

impl IperfClient {
    /// A client for `server` on `port`, running tests of `duration_secs`.
    pub fn new(server: &str, port: u16, duration_secs: u32) -> (c: Self)
        ensures
            c.server@ == server@,
            c.port == port,
            c.duration_secs == duration_secs,
    {
        IperfClient { server: server.to_owned(), port, duration_secs }
    }

    /// Seconds to wait for an iperf process before giving up: the test
    /// duration plus `TIMEOUT_SLACK_SECS`.
    pub fn timeout_secs(&self) -> (t: u64)
        ensures
            t == self.duration_secs + TIMEOUT_SLACK_SECS,
    {
        self.duration_secs as u64 + TIMEOUT_SLACK_SECS
    }

    /// The program that runs iperf3.
    pub fn iperf3_program(in_flatpak: bool) -> (p: &'static str)
        ensures
            p@ == iperf3_program_text(in_flatpak),
    {
        if in_flatpak {
            "/app/bin/iperf3"
        } else {
            "iperf3"
        }
    }

    /// The program started when iperf3 is not installed.
    pub fn iperf2_program() -> (p: &'static str)
        ensures
            p@ == "iperf"@,
    {
        "iperf"
    }

    /// Command-line arguments of the iperf3 run.
    pub fn iperf3_args(&self) -> (args: Vec<String>)
        ensures
            texts_of(args@) == iperf3_arg_texts(
                self.server@,
                self.port as nat,
                self.duration_secs as nat,
            ),
    {
        let mut args = self.iperf2_args();
        let ghost before = args@;
        args.push("-J".to_owned());
        assert(texts_of(args@) =~= texts_of(before).push("-J"@));
        assert(iperf2_arg_texts(self.server@, self.port as nat, self.duration_secs as nat).push(
            "-J"@,
        ) =~= iperf3_arg_texts(self.server@, self.port as nat, self.duration_secs as nat));
        assert(texts_of(args@) =~= iperf3_arg_texts(
            self.server@,
            self.port as nat,
            self.duration_secs as nat,
        ));
        args
    }

    /// Command-line arguments of the iperf2 run.
    pub fn iperf2_args(&self) -> (args: Vec<String>)
        ensures
            texts_of(args@) == iperf2_arg_texts(
                self.server@,
                self.port as nat,
                self.duration_secs as nat,
            ),
    {
        let mut args: Vec<String> = Vec::new();
        args.push("-c".to_owned());
        args.push(self.server.clone());
        args.push("-p".to_owned());
        args.push(decimal_string(self.port as u128));
        args.push("-t".to_owned());
        args.push(decimal_string(self.duration_secs as u128));
        assert(texts_of(args@) =~= iperf2_arg_texts(
            self.server@,
            self.port as nat,
            self.duration_secs as nat,
        ));
        args
    }
}

/// How an iperf3 run ended.
#[derive(Debug, Clone, Copy, PartialEq, Eq, Structural)]
pub enum Iperf3Outcome {
    /// It ran and reported a throughput.
    Succeeded,
    /// The program could not be started because it is not installed.
    NotInstalled,
    /// It failed in any other way.
    Failed,
}

/// What the throughput test does once its iperf3 run has ended.
#[derive(Debug, Clone, Copy, PartialEq, Eq, Structural)]
pub enum AfterIperf3 {
    /// Report the iperf3 throughput.
    UseResult,
    /// Run iperf2 instead and report what it gives.
    RunIperf2,
    /// Report the iperf3 error.
    ReportError,
}

/// iperf3 is tried first; only when it is not installed does the test fall
/// back to iperf2.
pub fn after_iperf3(outcome: Iperf3Outcome) -> (next: AfterIperf3)
    ensures
        next == (match outcome {
            Iperf3Outcome::Succeeded => AfterIperf3::UseResult,
            Iperf3Outcome::NotInstalled => AfterIperf3::RunIperf2,
            Iperf3Outcome::Failed => AfterIperf3::ReportError,
        }),
{
    match outcome {
        Iperf3Outcome::Succeeded => AfterIperf3::UseResult,
        Iperf3Outcome::NotInstalled => AfterIperf3::RunIperf2,
        Iperf3Outcome::Failed => AfterIperf3::ReportError,
    }
}

/// What to do at one poll of a running iperf process.
#[derive(Debug, Clone, Copy, PartialEq, Eq, Structural)]
pub enum PollAction {
    /// The process has exited: collect its output.
    Collect,
    /// The deadline has passed: stop the process and report a time-out.
    Kill,
    /// Wait and poll again.
    Wait,
}

/// The decision at a poll: an exited process is collected; otherwise the
/// process is stopped once `elapsed_secs`, the whole seconds since it was
/// started, reach `timeout_secs` (with a whole-second timeout this is the
/// moment the elapsed time itself reaches it), and waited for before.
pub fn poll_action(exited: bool, elapsed_secs: u64, timeout_secs: u64) -> (a: PollAction)
    ensures
        a == (if exited {
            PollAction::Collect
        } else if elapsed_secs >= timeout_secs {
            PollAction::Kill
        } else {
            PollAction::Wait
        }),
{
    if exited {
        PollAction::Collect
    } else if elapsed_secs >= timeout_secs {
        PollAction::Kill
    } else {
        PollAction::Wait
    }
}

} // verus!
