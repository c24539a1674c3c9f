use vstd::prelude::*;

verus! {

/// Where the prompted reader stands within one attempt.
#[derive(Debug, Clone, Copy, PartialEq, Eq, Structural)]
pub enum Phase {
    Prompting,
    Flushing,
    Reading,
}

/// What the caller does next on the console.
#[derive(Debug, Clone, Copy, PartialEq, Eq, Structural)]
pub enum Command {
    /// Write the prompt, without a line break.
    WritePrompt,
    /// Flush the output, so that the prompt is seen.
    Flush,
    /// Block until a line of input comes.
    ReadLine,
}

/// The console command that a phase asks for.
pub open spec fn command_of(p: Phase) -> Command {
    match p {
        Phase::Prompting => Command::WritePrompt,
        Phase::Flushing => Command::Flush,
        Phase::Reading => Command::ReadLine,
    }
}

/// The phase that follows once the phase's command succeeded; after a read,
/// a new attempt starts with the prompt.
pub open spec fn next_phase(p: Phase) -> Phase {
    match p {
        Phase::Prompting => Phase::Flushing,
        Phase::Flushing => Phase::Reading,
        Phase::Reading => Phase::Prompting,
    }
}

/// The phase after `n` successful commands.
pub open spec fn phase_at(n: nat) -> Phase
    decreases n,
{
    if n == 0 {
        Phase::Prompting
    } else {
        next_phase(phase_at((n - 1) as nat))
    }
}

impl Phase {
    /// The phase in which a call begins.
    pub fn start() -> (r: Phase)
        ensures
            r == phase_at(0),
    {
        Phase::Prompting
    }

    /// The console command to perform now.
    pub fn command(&self) -> (r: Command)
        ensures
            r == command_of(*self),
    {
        match self {
            Phase::Prompting => Command::WritePrompt,
            Phase::Flushing => Command::Flush,
            Phase::Reading => Command::ReadLine,
        }
    }

    /// The phase after this one's command succeeded.
    pub fn advance(&self) -> (r: Phase)
        ensures
            r == next_phase(*self),
    {
        match self {
            Phase::Prompting => Phase::Flushing,
            Phase::Flushing => Phase::Reading,
            Phase::Reading => Phase::Prompting,
        }
    }
}

/// Every read is preceded, directly, by writing the prompt and then flushing
/// it, so the prompt is visible before the reader blocks.
pub proof fn flush_before_read(n: nat)
    ensures
        command_of(phase_at(n)) == Command::ReadLine ==> n >= 2 && command_of(
            phase_at((n - 1) as nat),
        ) == Command::Flush && command_of(phase_at((n - 2) as nat)) == Command::WritePrompt,
{
    if n >= 1 {
        if n >= 2 {
            assert(phase_at(n) == next_phase(phase_at((n - 1) as nat)));
            assert(phase_at((n - 1) as nat) == next_phase(phase_at((n - 2) as nat)));
        } else {
            assert(phase_at(1) == next_phase(phase_at(0)));
        }
    }
}

} // verus!
