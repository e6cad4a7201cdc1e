use vstd::prelude::*;
use crate::machine::{Computer, State};

verus! {

/// An input event, with keys already mapped to logical keys 0..15.
#[derive(Clone, Copy, Debug, PartialEq, Eq, Structural)]
pub enum KeyEvent {
    /// The user asked to quit.
    Quit,
    /// A logical key went down.
    Down(u8),
    /// A logical key went up.
    Up(u8),
    /// Anything else.
    Other,
}

impl State {
    /// The key state after `e`, and the key that changed, if any. Key numbers
    /// above 15 and events other than key transitions change nothing.
    pub open spec fn key_event(self, e: KeyEvent) -> (State, Option<u8>) {
        match e {
            KeyEvent::Down(k) => if k < 16 {
                (State { keyboard: self.keyboard.update(k as int, true), ..self }, Some(k))
            } else {
                (self, None)
            },
            KeyEvent::Up(k) => if k < 16 {
                (State { keyboard: self.keyboard.update(k as int, false), ..self }, Some(k))
            } else {
                (self, None)
            },
            KeyEvent::Quit | KeyEvent::Other => (self, None),
        }
    }
}

impl Computer {
    /// Records a key transition and returns the key, or returns `None` for
    /// any other event. Quitting is left to the caller.
    pub fn handle_key_event(&mut self, event: KeyEvent) -> (r: Option<u8>)
        ensures
            (final(self)@, r) == old(self)@.key_event(event),
    {
        match event {
            KeyEvent::Down(k) => {
                if k >= 16 {
                    return None;
                }
                self.keyboard[k as usize] = true;
                assert(self.keyboard@ =~= old(self).keyboard@.update(k as int, true));
                Some(k)
            },
            KeyEvent::Up(k) => {
                if k >= 16 {
                    return None;
                }
                self.keyboard[k as usize] = false;
                assert(self.keyboard@ =~= old(self).keyboard@.update(k as int, false));
                Some(k)
            },
            KeyEvent::Quit | KeyEvent::Other => None,
        }
    }

    /// Whether the tone is to sound: the sound timer is not zero.
    pub fn tone_active(&self) -> (r: bool)
        ensures
            r == (self.cpu.st != 0),
    {
        self.cpu.st != 0
    }
}

} // verus!
