use vstd::prelude::*;

use crate::digits::{
    lemma_dec_injective, lemma_dec_is_digits, lemma_padded_injective, lemma_padded_is_digits,
    lemma_padded_len, lemma_pow10_nine, spec_dec, spec_padded,
};
use crate::elapsed::Elapsed;
use crate::lines::{
    free_of, occurs, spec_decorated, spec_emphasized, spec_end_body, spec_end_line, spec_time,
};
use crate::timer::Perf;

verus! {

proof fn lemma_occurs_middle(a: Seq<char>, b: Seq<char>, c: Seq<char>)
    ensures
        occurs(a + b + c, b),
{
    let hay = a + b + c;
    assert(hay.subrange(a.len() as int, a.len() + b.len() as int) =~= b);
}

proof fn lemma_free_concat(a: Seq<char>, b: Seq<char>, c: char)
    requires
        free_of(a, c),
        free_of(b, c),
    ensures
        free_of(a + b, c),
{
    assert forall|i: int| 0 <= i < (a + b).len() implies (a + b)[i] != c by {
        if i < a.len() {
            assert((a + b)[i] == a[i]);
        } else {
            assert((a + b)[i] == b[i - a.len()]);
        }
    }
}

proof fn lemma_time_free_of_newline(e: Elapsed)
    ensures
        free_of(spec_time(e), '\n'),
{
    lemma_dec_is_digits(e.secs as nat);
    lemma_padded_is_digits(e.nanos as nat, 9);
    reveal_strlit(".");
    assert('\n' as int == 10);
    assert(free_of(spec_dec(e.secs as nat), '\n'));
    assert(free_of(spec_padded(e.nanos as nat, 9), '\n'));
    assert(free_of("."@, '\n'));
    lemma_free_concat(spec_dec(e.secs as nat), "."@, '\n');
    lemma_free_concat(spec_dec(e.secs as nat) + "."@, spec_padded(e.nanos as nat, 9), '\n');
}

/// Law: constructing a timer and ending it at any reading gives a line that
/// carries the label and the origin tag verbatim, and a span that is a pair
/// of natural numbers, hence non-negative.
pub proof fn lemma_end_line_carries_label_and_origin(
    ident: Seq<char>,
    origin: Seq<char>,
    e: Elapsed,
    decorate: bool,
)
    ensures
        occurs(spec_end_line(ident, origin, e, decorate), ident),
        occurs(spec_end_line(ident, origin, e, decorate), origin),
        e.value() >= 0,
{
    let line = spec_end_line(ident, origin, e, decorate);
    let body = spec_end_body(ident, e);
    if decorate {
        let pre = "\x1B[33m\x1B[1m"@;
        let post = "\x1B[0m"@;
        assert(line =~= (pre + spec_time(e) + " ("@) + ident + (" - end)"@ + post + " @ "@
            + origin));
        lemma_occurs_middle(
            pre + spec_time(e) + " ("@,
            ident,
            " - end)"@ + post + " @ "@ + origin,
        );
        assert(line =~= (spec_decorated(body) + " @ "@) + origin + Seq::<char>::empty());
        lemma_occurs_middle(spec_decorated(body) + " @ "@, origin, Seq::<char>::empty());
    } else {
        assert(line =~= (spec_time(e) + " ("@) + ident + (" - end)"@ + " @ "@ + origin));
        lemma_occurs_middle(spec_time(e) + " ("@, ident, " - end)"@ + " @ "@ + origin);
        assert(line =~= (body + " @ "@) + origin + Seq::<char>::empty());
        lemma_occurs_middle(body + " @ "@, origin, Seq::<char>::empty());
    }
}

/// Law: the rendered seconds-and-nanoseconds text determines the measured
/// span exactly: two spans render alike only when they are equal, so the
/// value a line reports is the value that was measured.
pub proof fn lemma_time_text_faithful(e1: Elapsed, e2: Elapsed)
    requires
        e1.wf(),
        e2.wf(),
        spec_time(e1) == spec_time(e2),
    ensures
        e1 == e2,
{
    let d1 = spec_dec(e1.secs as nat);
    let d2 = spec_dec(e2.secs as nat);
    let p1 = spec_padded(e1.nanos as nat, 9);
    let p2 = spec_padded(e2.nanos as nat, 9);
    lemma_padded_len(e1.nanos as nat, 9);
    lemma_padded_len(e2.nanos as nat, 9);
    reveal_strlit(".");
    let t = spec_time(e1);
    assert("."@.len() == 1);
    assert(t.len() == d1.len() + 1 + 9);
    assert(t.len() == d2.len() + 1 + 9);
    assert(d1.len() == d2.len());
    assert(d1 =~= t.subrange(0, d1.len() as int));
    assert(d2 =~= t.subrange(0, d2.len() as int));
    lemma_dec_injective(e1.secs as nat, e2.secs as nat);
    assert(p1 =~= t.subrange(t.len() - 9, t.len() as int));
    assert(p2 =~= t.subrange(t.len() - 9, t.len() as int));
    lemma_pow10_nine();
    lemma_padded_injective(e1.nanos as nat, e2.nanos as nat, 9);
}

/// Law: every split is anchored at the start, never at a previous split or
/// lap: the value it reports is the clock reading since start itself, so
/// readings that do not decrease give reported values that do not decrease,
/// whatever the timers' checkpoint states.
pub proof fn lemma_split_reports_are_monotone(p1: Perf, p2: Perf, e1: Elapsed, e2: Elapsed)
    requires
        e1.value() <= e2.value(),
    ensures
        p1.spec_split_report(e1) == e1.value(),
        p2.spec_split_report(e2) == e2.value(),
        p1.spec_split_report(e1) <= p2.spec_split_report(e2),
{
}

/// Law: the first lap measures from the timer's creation: with no checkpoint
/// recorded, the reported value is the reading since start itself.
pub proof fn lemma_first_lap_measures_from_start(p: Perf, now: Elapsed)
    requires
        p.checkpoint() is None,
    ensures
        p.spec_lap_report(now) == now.value(),
{
}

/// Law: each later lap measures from the previous lap's checkpoint alone:
/// once `c` is recorded, a lap at reading `now` reports `now - c`.
pub proof fn lemma_lap_measures_from_previous_checkpoint(p: Perf, c: Elapsed, now: Elapsed)
    requires
        p.checkpoint() == Some(c),
        now.value() >= c.value(),
    ensures
        p.spec_lap_report(now) == now.value() - c.value(),
{
}

/// Law: split and lap do not perturb each other's anchors. A recorded lap
/// checkpoint leaves every split anchored at the start, and the lap anchor
/// is the recorded checkpoint alone — a split, which records nothing,
/// cannot move it.
pub proof fn lemma_split_and_lap_anchors_independent(
    p_before: Perf,
    p_after: Perf,
    c: Elapsed,
    now: Elapsed,
)
    requires
        p_after.checkpoint() == Some(c),
    ensures
        p_before.spec_split_report(now) == now.value(),
        p_after.spec_split_report(now) == now.value(),
        p_after.spec_lap_report(now) == (if now.value() >= c.value() {
            now.value() - c.value()
        } else {
            0
        }),
{
}

/// Law: `end` writes exactly one line: when the label and the origin tag
/// hold no newline, the rendered end text holds none either, so the single
/// newline the writer appends is the line's only terminator. The timer is
/// consumed by `end`, so no later operation on it can exist at all.
pub proof fn lemma_end_text_is_one_line(
    ident: Seq<char>,
    origin: Seq<char>,
    e: Elapsed,
    decorate: bool,
)
    requires
        free_of(ident, '\n'),
        free_of(origin, '\n'),
    ensures
        free_of(spec_end_line(ident, origin, e, decorate), '\n'),
{
    let body = spec_end_body(ident, e);
    lemma_time_free_of_newline(e);
    reveal_strlit(" (");
    reveal_strlit(" - end)");
    reveal_strlit(" @ ");
    reveal_strlit("\x1B[33m\x1B[1m");
    reveal_strlit("\x1B[0m");
    assert('\n' as int == 10);
    assert(free_of(" ("@, '\n'));
    assert(free_of(" - end)"@, '\n'));
    assert(free_of(" @ "@, '\n'));
    assert(free_of("\x1B[33m\x1B[1m"@, '\n'));
    assert(free_of("\x1B[0m"@, '\n'));
    lemma_free_concat(spec_time(e), " ("@, '\n');
    lemma_free_concat(spec_time(e) + " ("@, ident, '\n');
    lemma_free_concat(spec_time(e) + " ("@ + ident, " - end)"@, '\n');
    if decorate {
        lemma_free_concat("\x1B[33m\x1B[1m"@, body, '\n');
        lemma_free_concat("\x1B[33m\x1B[1m"@ + body, "\x1B[0m"@, '\n');
    }
    lemma_free_concat(spec_emphasized(body, decorate), " @ "@, '\n');
    lemma_free_concat(spec_emphasized(body, decorate) + " @ "@, origin, '\n');
}

} // verus!
