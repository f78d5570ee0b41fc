use vstd::prelude::*;
use vstd::string::StringExecFns;

use crate::digits::{append_dec, append_padded, spec_dec, spec_padded};
use crate::elapsed::Elapsed;

verus! {

/// `needle` occurs in `hay` as one contiguous run.
pub open spec fn occurs(hay: Seq<char>, needle: Seq<char>) -> bool {
    exists|i: int|
        0 <= i && i + needle.len() <= hay.len() && #[trigger] hay.subrange(i, i + needle.len())
            == needle
}

/// No character of `s` is `c`.
pub open spec fn free_of(s: Seq<char>, c: char) -> bool {
    forall|i: int| 0 <= i < s.len() ==> s[i] != c
}

/// The rendered span: the whole seconds, a period, and the nanosecond
/// remainder zero-padded to nine digits, so every line shows full
/// nanosecond resolution.
pub open spec fn spec_time(e: Elapsed) -> Seq<char> {
    spec_dec(e.secs as nat) + "."@ + spec_padded(e.nanos as nat, 9)
}

/// The body of a split line: the span, then the label and the message.
pub open spec fn spec_split_body(ident: Seq<char>, msg: Seq<char>, e: Elapsed) -> Seq<char> {
    spec_time(e) + " ("@ + ident + " - "@ + msg + ")"@
}

/// The body of a lap line: as a split body, with the lap counter appended.
pub open spec fn spec_lap_body(ident: Seq<char>, msg: Seq<char>, e: Elapsed, count: nat) -> Seq<
    char,
> {
    spec_time(e) + " ("@ + ident + " - "@ + msg + " - lap "@ + spec_dec(count) + ")"@
}

/// The body of an end line: the span, the label and the end marker.
pub open spec fn spec_end_body(ident: Seq<char>, e: Elapsed) -> Seq<char> {
    spec_time(e) + " ("@ + ident + " - end)"@
}

/// A body wrapped in the escape codes for bold yellow text.
pub open spec fn spec_decorated(body: Seq<char>) -> Seq<char> {
    "\x1B[33m\x1B[1m"@ + body + "\x1B[0m"@
}

/// A body, decorated or left plain; decoration never changes the text itself.
pub open spec fn spec_emphasized(body: Seq<char>, decorate: bool) -> Seq<char> {
    if decorate {
        spec_decorated(body)
    } else {
        body
    }
}

/// The full line a split writes.
pub open spec fn spec_split_line(
    ident: Seq<char>,
    msg: Seq<char>,
    e: Elapsed,
    decorate: bool,
) -> Seq<char> {
    spec_emphasized(spec_split_body(ident, msg, e), decorate)
}

/// The full line a lap writes.
pub open spec fn spec_lap_line(
    ident: Seq<char>,
    msg: Seq<char>,
    e: Elapsed,
    count: nat,
    decorate: bool,
) -> Seq<char> {
    spec_emphasized(spec_lap_body(ident, msg, e, count), decorate)
}

/// The full line `end` writes: the origin tag follows the emphasized body,
/// outside any decoration, so it stays plain and clickable.
pub open spec fn spec_end_line(
    ident: Seq<char>,
    origin: Seq<char>,
    e: Elapsed,
    decorate: bool,
) -> Seq<char> {
    spec_emphasized(spec_end_body(ident, e), decorate) + " @ "@ + origin
}

fn append_time(s: &mut String, e: &Elapsed)
    ensures
        final(s)@ == old(s)@ + spec_time(*e),
{
    append_dec(s, e.secs);
    s.append(".");
    append_padded(s, e.nanos as u64, 9);
    proof {
        assert(s@ =~= old(s)@ + spec_time(*e));
    }
}

fn emphasize(body: String, decorate: bool) -> (r: String)
    ensures
        r@ == spec_emphasized(body@, decorate),
{
    if decorate {
        let mut out = String::from_str("\x1B[33m\x1B[1m");
        out.append(body.as_str());
        out.append("\x1B[0m");
        proof {
            assert(out@ =~= spec_decorated(body@));
        }
        out
    } else {
        body
    }
}

/// Renders the line a split writes for the reading `e`.
pub fn render_split(ident: &str, msg: &str, e: &Elapsed, decorate: bool) -> (line: String)
    ensures
        line@ == spec_split_line(ident@, msg@, *e, decorate),
{
    let mut body = String::new();
    append_time(&mut body, e);
    body.append(" (");
    body.append(ident);
    body.append(" - ");
    body.append(msg);
    body.append(")");
    proof {
        assert(body@ =~= spec_split_body(ident@, msg@, *e));
    }
    emphasize(body, decorate)
}

/// Renders the line a lap writes for the reported span `e` and counter `count`.
pub fn render_lap(ident: &str, msg: &str, e: &Elapsed, count: u64, decorate: bool) -> (line:
    String)
    ensures
        line@ == spec_lap_line(ident@, msg@, *e, count as nat, decorate),
{
    let mut body = String::new();
    append_time(&mut body, e);
    body.append(" (");
    body.append(ident);
    body.append(" - ");
    body.append(msg);
    body.append(" - lap ");
    append_dec(&mut body, count);
    body.append(")");
    proof {
        assert(body@ =~= spec_lap_body(ident@, msg@, *e, count as nat));
    }
    emphasize(body, decorate)
}

/// Renders the line `end` writes for the reading `e`.
pub fn render_end(ident: &str, origin: &str, e: &Elapsed, decorate: bool) -> (line: String)
    ensures
        line@ == spec_end_line(ident@, origin@, *e, decorate),
{
    let mut body = String::new();
    append_time(&mut body, e);
    body.append(" (");
    body.append(ident);
    body.append(" - end)");
    proof {
        assert(body@ =~= spec_end_body(ident@, *e));
    }
    let mut line = emphasize(body, decorate);
    line.append(" @ ");
    line.append(origin);
    proof {
        assert(line@ =~= spec_end_line(ident@, origin@, *e, decorate));
    }
    line
}

} // verus!
