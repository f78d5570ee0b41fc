use std::io::Write;
use vstd::prelude::*;

use crate::elapsed::Elapsed;
use crate::lines::{
    render_end, render_lap, render_split, spec_end_line, spec_lap_line, spec_split_line,
};

verus! {

#[verifier::external_type_specification]
#[verifier::external_body]
pub struct ExInstant(std::time::Instant);

/// Relies on std::time::Instant::now: a reading of the monotonic clock.
pub assume_specification[ std::time::Instant::now ]() -> std::time::Instant;

/// Relies on std::time::Instant::elapsed: the time from `self` to now.
/// Nothing is promised of the span, since it depends on when the call runs.
pub assume_specification[ std::time::Instant::elapsed ](
    i: &std::time::Instant,
) -> std::time::Duration;

/// Relies on std::time::Duration::as_secs: the whole seconds of the span.
pub assume_specification[ std::time::Duration::as_secs ](d: &std::time::Duration) -> u64;

/// Relies on std::time::Duration::subsec_nanos: the fractional part of the
/// span in nanoseconds, documented to be less than one billion.
pub assume_specification[ std::time::Duration::subsec_nanos ](d: &std::time::Duration) -> (n: u32)
    ensures
        n < 1_000_000_000,
;

/// Relies on std's `writeln` to the standard error stream: writes `line` and
/// a newline in one call. A failed write aborts, since diagnostic output has
/// no fallback.
#[verifier::external_body]
fn emit_line(line: &str) {
    writeln!(std::io::stderr(), "{}", line).expect("failed writing to stderr");
}

/// Relies on std::io::IsTerminal for the standard error stream: escape-code
/// emphasis is used only where stderr is a terminal likely to render it.
#[verifier::external_body]
fn stderr_wants_decoration() -> bool {
    std::io::IsTerminal::is_terminal(&std::io::stderr())
}

/// A running timer: an immutable start instant, an immutable label and
/// origin tag, and the checkpoint state that `lap` advances. Ending the
/// timer consumes it, so a closed timer cannot be measured again.
pub struct Perf {
    start: std::time::Instant,
    start_line: String,
    ident: String,
    lap: Option<Elapsed>,
    lap_n: u64,
}

impl Perf {
    /// The label shown on every line.
    pub closed spec fn ident_view(&self) -> Seq<char> {
        self.ident@
    }

    /// The origin tag shown by `end`.
    pub closed spec fn origin_view(&self) -> Seq<char> {
        self.start_line@
    }

    /// The number the next lap line shows; one until the first lap.
    pub closed spec fn lap_count(&self) -> nat {
        self.lap_n as nat
    }

    /// The last recorded lap checkpoint, as a span since start.
    pub closed spec fn checkpoint(&self) -> Option<Elapsed> {
        self.lap
    }

    /// The instant the timer was created at; it never changes.
    pub closed spec fn started_at(&self) -> std::time::Instant {
        self.start
    }

    pub open spec fn wf(&self) -> bool {
        &&& (self.checkpoint() is Some ==> self.checkpoint()->0.wf())
        &&& self.lap_count() >= 1
    }

    /// The anchor a lap measures from, as a span since start: the last
    /// checkpoint, or the start itself (a zero offset) before any lap.
    pub open spec fn anchor_value(&self) -> int {
        if self.checkpoint() is Some {
            self.checkpoint()->0.value()
        } else {
            0
        }
    }

    /// The value a lap reports for the reading `now`: the time since the
    /// anchor, floored at zero.
    pub open spec fn spec_lap_report(&self, now: Elapsed) -> int {
        if now.value() >= self.anchor_value() {
            now.value() - self.anchor_value()
        } else {
            0
        }
    }

    /// The value a split reports for the reading `now`: the reading itself,
    /// since a split is always anchored at the start.
    pub open spec fn spec_split_report(&self, now: Elapsed) -> int {
        now.value()
    }

    /// Captures the current monotonic instant and stores the label and the
    /// origin tag verbatim; no line is written.
    pub fn new(ident: String, start_line: String) -> (p: Perf)
        ensures
            p.wf(),
            p.ident_view() == ident@,
            p.origin_view() == start_line@,
            p.checkpoint() is None,
            p.lap_count() == 1,
    {
        Perf { start: std::time::Instant::now(), start_line, ident, lap: None, lap_n: 1 }
    }

    /// A fresh reading of the monotonic clock, as the span since this
    /// timer's start.
    pub fn elapsed_since_start(&self) -> (e: Elapsed)
        ensures
            e.wf(),
    {
        let d = self.start.elapsed();
        Elapsed { secs: d.as_secs(), nanos: d.subsec_nanos() }
    }

    /// The span a lap would report for the reading `now`: the time since the
    /// last checkpoint, or `now` itself before any lap, floored at zero.
    pub fn lap_report(&self, now: &Elapsed) -> (r: Elapsed)
        requires
            self.wf(),
            now.wf(),
        ensures
            r.wf(),
            r.value() == self.spec_lap_report(*now),
    {
        match &self.lap {
            Some(c) => now.saturating_sub(c),
            None => *now,
        }
    }

    /// Records `checkpoint` as the new lap anchor and advances the counter;
    /// nothing else of the timer changes.
    pub fn record_lap(&mut self, checkpoint: Elapsed)
        requires
            old(self).wf(),
            checkpoint.wf(),
            old(self).lap_count() < u64::MAX,
        ensures
            final(self).wf(),
            final(self).checkpoint() == Some(checkpoint),
            final(self).lap_count() == old(self).lap_count() + 1,
            final(self).ident_view() == old(self).ident_view(),
            final(self).origin_view() == old(self).origin_view(),
            final(self).started_at() == old(self).started_at(),
    {
        self.lap = Some(checkpoint);
        self.lap_n = self.lap_n + 1;
    }

    /// The line a split writes for the reading `now`.
    pub fn split_line(&self, msg: &str, now: &Elapsed, decorate: bool) -> (line: String)
        ensures
            line@ == spec_split_line(self.ident_view(), msg@, *now, decorate),
    {
        render_split(self.ident.as_str(), msg, now, decorate)
    }

    /// The line a lap writes for the reported span `reported`, numbered with
    /// the current counter.
    pub fn lap_line(&self, msg: &str, reported: &Elapsed, decorate: bool) -> (line: String)
        ensures
            line@ == spec_lap_line(self.ident_view(), msg@, *reported, self.lap_count(), decorate),
    {
        render_lap(self.ident.as_str(), msg, reported, self.lap_n, decorate)
    }

    /// The line `end` writes for the reading `now`.
    pub fn end_line(&self, now: &Elapsed, decorate: bool) -> (line: String)
        ensures
            line@ == spec_end_line(self.ident_view(), self.origin_view(), *now, decorate),
    {
        render_end(self.ident.as_str(), self.start_line.as_str(), now, decorate)
    }

    /// Writes one line with the time elapsed since the timer started — never
    /// since a lap — together with the label and `msg`. The timer itself is
    /// not touched.
    pub fn split(&self, msg: &str) {
        let now = self.elapsed_since_start();
        let decorate = stderr_wants_decoration();
        let line = self.split_line(msg, &now, decorate);
        emit_line(line.as_str());
    }

    /// Writes one line with the time elapsed since the previous lap — or
    /// since the start for the first one — together with the label, `msg`
    /// and the lap number, then records a fresh checkpoint and advances the
    /// counter.
    pub fn lap(&mut self, msg: &str)
        requires
            old(self).wf(),
            old(self).lap_count() < u64::MAX,
        ensures
            final(self).wf(),
            final(self).checkpoint() is Some,
            final(self).lap_count() == old(self).lap_count() + 1,
            final(self).ident_view() == old(self).ident_view(),
            final(self).origin_view() == old(self).origin_view(),
            final(self).started_at() == old(self).started_at(),
    {
        let now = self.elapsed_since_start();
        let reported = self.lap_report(&now);
        let decorate = stderr_wants_decoration();
        let line = self.lap_line(msg, &reported, decorate);
        emit_line(line.as_str());
        let fresh = self.elapsed_since_start();
        self.record_lap(fresh);
    }

    /// Writes one line with the total elapsed time, the label, the end
    /// marker and the origin tag, and consumes the timer: no further
    /// operation on it is possible.
    pub fn end(self) {
        let now = self.elapsed_since_start();
        let decorate = stderr_wants_decoration();
        let line = self.end_line(&now, decorate);
        emit_line(line.as_str());
    }
}

} // verus!
