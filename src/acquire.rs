use vstd::prelude::*;
use crate::erro::{BoolParseError, InputError};
use crate::numeric::Numeric;
use crate::text::{trim_text, trimmed};

verus! {

/// What one request for a line brought back from the console.
#[derive(Debug)]
pub enum ReadEvent {
    /// A full line was read; it may still hold its line break.
    Line(String),
    /// The input closed before a line came.
    EndOfStream,
    /// Writing the prompt, flushing it, or reading failed.
    Failed(std::io::Error),
}

/// What the caller does after one attempt.
#[derive(Debug)]
pub enum Step<T, E> {
    /// Show the prompt again and read another line.
    Again,
    /// The call ends with this result.
    Done(Result<T, InputError<E>>),
}

/// One attempt, with only the values that the policy looks at.
pub enum Verdict {
    Value(int),
    Retry,
    ParseFailed,
    IoFailed,
}

/// The verdict of one attempt to read a `T` from `read`.
pub open spec fn numeric_verdict<T: Numeric>(retry: bool, read: ReadEvent) -> Verdict {
    match read {
        ReadEvent::Line(s) => match T::text_value(trimmed(s@)) {
            Some(v) => Verdict::Value(v),
            None => if retry {
                Verdict::Retry
            } else {
                Verdict::ParseFailed
            },
        },
        _ => Verdict::IoFailed,
    }
}

/// `step` is what the verdict `v` asks for.
pub open spec fn step_meets<T: Numeric, E>(step: Step<T, E>, v: Verdict) -> bool {
    match v {
        Verdict::Value(n) => step is Done && step->Done_0 is Ok && step->Done_0->Ok_0.value() == n,
        Verdict::Retry => step is Again,
        Verdict::ParseFailed => step is Done && step->Done_0 is Err && step->Done_0->Err_0 is Parse,
        Verdict::IoFailed => step is Done && step->Done_0 is Err && step->Done_0->Err_0 is Io,
    }
}

/// A failure of the console ends the call with that failure.
pub open spec fn forwards_failure<T, E>(read: ReadEvent, step: Step<T, E>) -> bool {
    read is Failed ==> step == Step::<T, E>::Done(Err(InputError::Io(read->Failed_0)))
}

/// Relies on `std::io::Error::from(ErrorKind::UnexpectedEof)`: an error that reports
/// the end of the input.
#[verifier::external_body]
fn end_of_stream_error() -> std::io::Error {
    std::io::Error::from(std::io::ErrorKind::UnexpectedEof)
}

/// One attempt to read a `T`: a line that writes a number of the type gives
/// it; any other line asks again under `retry`, and fails the call otherwise;
/// a closed or failing console fails the call whatever `retry` says.
pub fn get_input<T: Numeric>(retry: bool, read: ReadEvent) -> (r: Step<T, std::num::ParseIntError>)
    ensures
        step_meets(r, numeric_verdict::<T>(retry, read)),
        forwards_failure(read, r),
{
    match read {
        ReadEvent::Line(s) => {
            let text = trim_text(s.as_str());
            match T::parse_text(text.as_str()) {
                Ok(v) => Step::Done(Ok(v)),
                Err(e) => if retry {
                    Step::Again
                } else {
                    Step::Done(Err(InputError::Parse(e)))
                },
            }
        },
        ReadEvent::EndOfStream => Step::Done(Err(InputError::Io(end_of_stream_error()))),
        ReadEvent::Failed(e) => Step::Done(Err(InputError::Io(e))),
    }
}

/// One attempt to read text: any line gives its trimmed text.
pub fn get_string(read: ReadEvent) -> (r: Step<String, core::convert::Infallible>)
    ensures
        read is Line ==> r is Done && r->Done_0 is Ok && r->Done_0->Ok_0@ == trimmed(read->Line_0@),
        !(read is Line) ==> r is Done && r->Done_0 is Err && r->Done_0->Err_0 is Io,
        forwards_failure(read, r),
{
    match read {
        ReadEvent::Line(s) => Step::Done(Ok(trim_text(s.as_str()))),
        ReadEvent::EndOfStream => Step::Done(Err(InputError::Io(end_of_stream_error()))),
        ReadEvent::Failed(e) => Step::Done(Err(InputError::Io(e))),
    }
}

/// The text of each string.
pub open spec fn texts(v: Seq<String>) -> Seq<Seq<char>> {
    v.map_values(|x: String| x@)
}

/// `t` is one of `tokens`.
pub open spec fn is_token(t: Seq<char>, tokens: Seq<Seq<char>>) -> bool {
    exists|i: int| 0 <= i < tokens.len() && tokens[i] == t
}

/// `step` is what the boolean reader owes for the normalised text `t`.
pub open spec fn bool_step_meets(
    step: Step<bool, BoolParseError>,
    retry: bool,
    t: Seq<char>,
    trues: Seq<Seq<char>>,
    falses: Seq<Seq<char>>,
) -> bool {
    if is_token(t, trues) {
        step == Step::<bool, BoolParseError>::Done(Ok(true))
    } else if is_token(t, falses) {
        step == Step::<bool, BoolParseError>::Done(Ok(false))
    } else if retry {
        step is Again
    } else {
        step is Done && step->Done_0 is Err && step->Done_0->Err_0 is Parse
            && step->Done_0->Err_0->Parse_0.0@ == "Invalid Value"@
    }
}

fn find_token(t: &String, tokens: &Vec<String>) -> (r: bool)
    ensures
        r == is_token(t@, texts(tokens@)),
{
    let mut i: usize = 0;
    while i < tokens.len()
        invariant
            i <= tokens@.len(),
            forall|k: int| 0 <= k < i ==> tokens@[k]@ != t@,
        decreases tokens@.len() - i,
    {
        if tokens[i] == *t {
            assert(texts(tokens@)[i as int] == t@);
            return true;
        }
        i = i + 1;
    }
    assert forall|k: int| 0 <= k < texts(tokens@).len() implies texts(tokens@)[k] != t@ by {
        assert(texts(tokens@)[k] == tokens@[k]@);
    }
    false
}

/// Decides one attempt of the boolean reader on text that is already
/// trimmed and lowercased, against tokens that are already lowercased.
pub fn choose_bool(retry: bool, text: &String, trues: &Vec<String>, falses: &Vec<String>) -> (r: Step<
    bool,
    BoolParseError,
>)
    ensures
        bool_step_meets(r, retry, text@, texts(trues@), texts(falses@)),
{
    if find_token(text, trues) {
        Step::Done(Ok(true))
    } else if find_token(text, falses) {
        Step::Done(Ok(false))
    } else if retry {
        Step::Again
    } else {
        proof {
            reveal_strlit("Invalid Value");
        }
        Step::Done(Err(InputError::Parse(BoolParseError("Invalid Value"))))
    }
}

/// The lowercase form of a text, as `str::to_lowercase` gives it.
pub uninterp spec fn lower_of(s: Seq<char>) -> Seq<char>;

/// Relies on `str::to_lowercase`: the lowercase form depends on the characters alone.
#[verifier::external_body]
fn lowercase(s: &str) -> (r: String)
    ensures
        r@ == lower_of(s@),
{
    s.to_lowercase()
}

/// The lowercase form of each text.
pub open spec fn lower_all(v: Seq<Seq<char>>) -> Seq<Seq<char>> {
    v.map_values(|x: Seq<char>| lower_of(x))
}

fn lowercase_all(tokens: &Vec<String>) -> (r: Vec<String>)
    ensures
        texts(r@) == lower_all(texts(tokens@)),
{
    let mut out: Vec<String> = Vec::new();
    let mut i: usize = 0;
    while i < tokens.len()
        invariant
            i <= tokens@.len(),
            out@.len() == i,
            texts(out@) == lower_all(texts(tokens@)).take(i as int),
        decreases tokens@.len() - i,
    {
        let l = lowercase(tokens[i].as_str());
        let ghost before = out@;
        out.push(l);
        proof {
            assert forall|k: int| 0 <= k < i + 1 implies #[trigger] texts(out@)[k] == lower_all(
                texts(tokens@),
            )[k] by {
                if k < i {
                    assert(out@[k] == before[k]);
                    assert(texts(before)[k] == before[k]@);
                }
            }
            assert(texts(out@) =~= lower_all(texts(tokens@)).take(i + 1));
        }
        i = i + 1;
    }
    assert(lower_all(texts(tokens@)).take(i as int) =~= lower_all(texts(tokens@)));
    out
}

/// One attempt to read a boolean: the line, trimmed, is compared without
/// regard to case with the true tokens first, then with the false tokens; a
/// line that is neither asks again under `retry` and fails the call with
/// "Invalid Value" otherwise; a closed or failing console fails the call.
pub fn get_bool(retry: bool, read: ReadEvent, trues: &Vec<String>, falses: &Vec<String>) -> (r: Step<
    bool,
    BoolParseError,
>)
    ensures
        read is Line ==> bool_step_meets(
            r,
            retry,
            lower_of(trimmed(read->Line_0@)),
            lower_all(texts(trues@)),
            lower_all(texts(falses@)),
        ),
        !(read is Line) ==> r is Done && r->Done_0 is Err && r->Done_0->Err_0 is Io,
        forwards_failure(read, r),
{
    match get_string(read) {
        Step::Done(Ok(line)) => {
            let text = lowercase(line.as_str());
            let lowered_trues = lowercase_all(trues);
            let lowered_falses = lowercase_all(falses);
            choose_bool(retry, &text, &lowered_trues, &lowered_falses)
        },
        Step::Done(Err(InputError::Io(e))) => Step::Done(Err(InputError::Io(e))),
        _ => Step::Done(Err(InputError::Parse(BoolParseError("text read reported a parse failure")))),
    }
}

} // verus!
