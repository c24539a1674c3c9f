use vstd::prelude::*;

verus! {

/// Relies on `std::io::Error` as an opaque value: the library only carries it.
#[verifier::external_type_specification]
#[verifier::external_body]
pub struct ExIoError(std::io::Error);

/// Failure of the boolean reader: the line named none of the accepted tokens.
#[derive(Debug)]
pub struct BoolParseError(pub &'static str);

impl BoolParseError {
    /// The text that describes this failure.
    pub fn description(&self) -> (r: &'static str)
        ensures
            r@ == self.0@,
    {
        self.0
    }
}

/// Why acquiring a value failed: the console streams, or the text itself.
#[derive(Debug)]
pub enum InputError<E> {
    Io(std::io::Error),
    Parse(E),
}

impl<E> InputError<E> {
    /// The heading under which this error is reported.
    pub fn heading(&self) -> (r: &'static str)
        ensures
            r@ == (if self is Io { "I/O Error"@ } else { "Parse Error"@ }),
    {
        proof {
            reveal_strlit("I/O Error");
            reveal_strlit("Parse Error");
        }
        match self {
            InputError::Io(_) => "I/O Error",
            InputError::Parse(_) => "Parse Error",
        }
    }
}

impl<E> From<std::io::Error> for InputError<E> {
    fn from(value: std::io::Error) -> (r: Self)
        ensures
            r == InputError::<E>::Io(value),
    {
        InputError::Io(value)
    }
}

impl<E> vstd::std_specs::convert::FromSpecImpl<std::io::Error> for InputError<E> {
    open spec fn obeys_from_spec() -> bool {
        true
    }

    open spec fn from_spec(v: std::io::Error) -> Self {
        InputError::Io(v)
    }
}

} // verus!
