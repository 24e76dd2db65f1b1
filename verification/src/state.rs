use vstd::prelude::*;

verus! {

/// The four mutually exclusive phases of a training session.
///
/// A session starts in `Waiting`, alternates between `Fighting` and
/// `Resting` for the configured number of rounds, and ends in the
/// terminal phase `Finished`.
#[derive(Clone, Copy, PartialEq, Eq, Structural, Debug)]
pub enum State {
    Waiting,
    Fighting,
    Resting,
    Finished,
}

impl State {
    /// Short lower-case name of the phase, used by a renderer as a
    /// style class.
    pub open spec fn short_name_spec(self) -> Seq<char> {
        match self {
            State::Waiting => "wait"@,
            State::Fighting => "fight"@,
            State::Resting => "rest"@,
            State::Finished => "finished"@,
        }
    }

    /// Human-readable label of the phase, one per phase.
    pub open spec fn label_spec(self) -> Seq<char> {
        match self {
            State::Waiting => "Waiting"@,
            State::Fighting => "Fighting!"@,
            State::Resting => "Rest..."@,
            State::Finished => "Finished."@,
        }
    }

    pub fn short_name(&self) -> (r: &'static str)
        ensures
            r@ == self.short_name_spec(),
    {
        match self {
            State::Waiting => "wait",
            State::Fighting => "fight",
            State::Resting => "rest",
            State::Finished => "finished",
        }
    }

    pub fn label(&self) -> (r: &'static str)
        ensures
            r@ == self.label_spec(),
    {
        match self {
            State::Waiting => "Waiting",
            State::Fighting => "Fighting!",
            State::Resting => "Rest...",
            State::Finished => "Finished.",
        }
    }
}

} // verus!
