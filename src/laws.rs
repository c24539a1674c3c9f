use vstd::prelude::*;
use crate::acquire::{numeric_verdict, step_meets, ReadEvent, Step, Verdict};
use crate::numeric::Numeric;
use crate::text::trimmed;

verus! {

/// How a call that is handed `reads` in turn ends, and how many of them it
/// takes; `None` while it would still ask for another line.
pub open spec fn run<T: Numeric>(retry: bool, reads: Seq<ReadEvent>) -> Option<(Verdict, nat)>
    decreases reads.len(),
{
    if reads.len() == 0 {
        None
    } else {
        let v = numeric_verdict::<T>(retry, reads[0]);
        if v is Retry {
            match run::<T>(retry, reads.drop_first()) {
                Some((w, n)) => Some((w, n + 1)),
                None => None,
            }
        } else {
            Some((v, 1))
        }
    }
}

/// The lines as read events.
pub open spec fn lines(texts: Seq<String>) -> Seq<ReadEvent> {
    texts.map_values(|t: String| ReadEvent::Line(t))
}

/// A line that writes a `T` gives that value on the first attempt, whatever
/// follows it.
pub proof fn valid_line_first_attempt<T: Numeric>(retry: bool, s: String, rest: Seq<ReadEvent>)
    requires
        T::text_value(trimmed(s@)) is Some,
    ensures
        run::<T>(retry, seq![ReadEvent::Line(s)] + rest) == Some(
            (Verdict::Value(T::text_value(trimmed(s@))->0), 1nat),
        ),
{
    assert((seq![ReadEvent::Line(s)] + rest)[0] == ReadEvent::Line(s));
}

/// Without retry, a line that writes no `T` fails the call as a parse
/// failure, and nothing after it is read.
pub proof fn invalid_line_fails_once<T: Numeric>(s: String, rest: Seq<ReadEvent>)
    requires
        T::text_value(trimmed(s@)) is None,
    ensures
        run::<T>(false, seq![ReadEvent::Line(s)] + rest) == Some((Verdict::ParseFailed, 1nat)),
{
    assert((seq![ReadEvent::Line(s)] + rest)[0] == ReadEvent::Line(s));
}

/// With retry, every line that writes no `T` is read and passed over, and
/// the first one that does gives the value; nothing after it is read.
pub proof fn retry_until_valid<T: Numeric>(bad: Seq<String>, good: String, rest: Seq<ReadEvent>)
    requires
        forall|i: int| 0 <= i < bad.len() ==> T::text_value(trimmed((#[trigger] bad[i])@)) is None,
        T::text_value(trimmed(good@)) is Some,
    ensures
        run::<T>(true, lines(bad) + seq![ReadEvent::Line(good)] + rest) == Some(
            (Verdict::Value(T::text_value(trimmed(good@))->0), (bad.len() + 1) as nat),
        ),
    decreases bad.len(),
{
    let reads = lines(bad) + seq![ReadEvent::Line(good)] + rest;
    if bad.len() == 0 {
        assert(reads[0] == ReadEvent::Line(good));
    } else {
        assert(reads[0] == ReadEvent::Line(bad[0]));
        let tail = bad.drop_first();
        assert forall|i: int| 0 <= i < tail.len() implies T::text_value(
            trimmed((#[trigger] tail[i])@),
        ) is None by {
            assert(tail[i] == bad[i + 1]);
        }
        retry_until_valid::<T>(tail, good, rest);
        assert(reads.drop_first() =~= lines(tail) + seq![ReadEvent::Line(good)] + rest);
    }
}

/// A console that closes before a line that writes a `T` ends the call as an
/// I/O failure, with retry or without; without retry only when no line came
/// first, since a line that writes no `T` ends such a call on its own.
pub proof fn end_of_stream_is_io_failure<T: Numeric>(
    retry: bool,
    bad: Seq<String>,
    rest: Seq<ReadEvent>,
)
    requires
        forall|i: int| 0 <= i < bad.len() ==> T::text_value(trimmed((#[trigger] bad[i])@)) is None,
        retry || bad.len() == 0,
    ensures
        run::<T>(retry, lines(bad) + seq![ReadEvent::EndOfStream] + rest) == Some(
            (Verdict::IoFailed, (bad.len() + 1) as nat),
        ),
    decreases bad.len(),
{
    let reads = lines(bad) + seq![ReadEvent::EndOfStream] + rest;
    if bad.len() == 0 {
        assert(reads[0] == ReadEvent::EndOfStream);
    } else {
        assert(reads[0] == ReadEvent::Line(bad[0]));
        let tail = bad.drop_first();
        assert forall|i: int| 0 <= i < tail.len() implies T::text_value(
            trimmed((#[trigger] tail[i])@),
        ) is None by {
            assert(tail[i] == bad[i + 1]);
        }
        end_of_stream_is_io_failure::<T>(retry, tail, rest);
        assert(reads.drop_first() =~= lines(tail) + seq![ReadEvent::EndOfStream] + rest);
    }
}

/// Two calls handed the same line that writes a `T` give the same value:
/// nothing carries over from one call to the next.
pub proof fn same_line_same_value<T: Numeric, E>(
    retry1: bool,
    retry2: bool,
    s: Seq<char>,
    line1: String,
    line2: String,
    r1: Step<T, E>,
    r2: Step<T, E>,
)
    requires
        line1@ == s,
        line2@ == s,
        T::text_value(trimmed(s)) is Some,
        step_meets(r1, numeric_verdict::<T>(retry1, ReadEvent::Line(line1))),
        step_meets(r2, numeric_verdict::<T>(retry2, ReadEvent::Line(line2))),
    ensures
        r1 is Done && r1->Done_0 is Ok,
        r2 is Done && r2->Done_0 is Ok,
        r1->Done_0->Ok_0.value() == r2->Done_0->Ok_0.value(),
{
}

} // verus!
