use vstd::prelude::*;

verus! {

/// Messages the surrounding controls can deliver to the bell: ring it,
/// or toggle its mute flag.
#[derive(Clone, Copy, PartialEq, Eq, Structural, Debug)]
pub enum BellMsg {
    Play,
    Toggle,
}

/// The cue bell's decision state.
///
/// The audible element itself (and the act of playing it) belongs to
/// the surrounding application; this model owns the mute flag and the
/// decisions taken on it, so that every rule about when a cue sounds is
/// verified here.
#[derive(Clone, Copy, PartialEq, Eq, Structural, Debug)]
pub struct BoxingBell {
    /// When set, play requests are swallowed.
    pub muted: bool,
}

impl BoxingBell {
    /// A fresh bell is not muted; the application mutes it on first
    /// render if it wants to start silent.
    pub fn new() -> (b: Self)
        ensures
            !b.muted,
    {
        BoxingBell { muted: false }
    }

    pub fn muted(&self) -> (r: bool)
        ensures
            r == self.muted,
    {
        self.muted
    }

    pub fn mute(&mut self)
        ensures
            *final(self) == (BoxingBell { muted: true }),
    {
        self.muted = true;
    }

    pub fn unmute(&mut self)
        ensures
            *final(self) == (BoxingBell { muted: false }),
    {
        self.muted = false;
    }

    /// Flip the mute flag.
    pub fn toggle(&mut self)
        ensures
            final(self).muted == !old(self).muted,
    {
        if self.muted {
            self.unmute();
        } else {
            self.mute();
        }
    }

    /// Label of the mute control: the action a press would take.
    pub fn toggle_text(&self) -> (r: &'static str)
        ensures
            r@ == if self.muted { "Unmute"@ } else { "Mute"@ },
    {
        if self.muted {
            "Unmute"
        } else {
            "Mute"
        }
    }

    /// Whether a requested cue actually sounds: it does unless the bell
    /// is muted. The caller performs the playback when this returns
    /// true.
    pub fn play(&self) -> (r: bool)
        ensures
            r == !self.muted,
    {
        !self.muted
    }

    /// Dispatch one control message: `Toggle` flips the mute flag and
    /// never sounds a cue by itself; `Play` leaves the bell unchanged
    /// and sounds the cue exactly when the bell is not muted.
    pub fn update(&mut self, msg: BellMsg) -> (play: bool)
        ensures
            msg == BellMsg::Toggle ==> final(self).muted == !old(self).muted && !play,
            msg == BellMsg::Play ==> *final(self) == *old(self) && play == !old(self).muted,
    {
        match msg {
            BellMsg::Toggle => {
                self.toggle();
                false
            },
            BellMsg::Play => self.play(),
        }
    }
}

} // verus!
