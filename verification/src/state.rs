//! Application state: the resolved J-Link Commander command.

use vstd::prelude::*;

verus! {

/// The J-Link Commander command to run, cached after the first successful
/// detection; it starts as the platform's command name (e.g. `JLink` on
/// Windows).
pub struct JLinkState {
    pub bin: String,
}

impl View for JLinkState {
    type V = Seq<char>;

    open spec fn view(&self) -> Seq<char> {
        self.bin@
    }
}

/// What reading a state holding `s` gives.
pub open spec fn spec_get(s: Seq<char>) -> Seq<char> {
    s
}

/// What a state holding `s` holds after writing `bin`.
pub open spec fn spec_set(s: Seq<char>, bin: Seq<char>) -> Seq<char> {
    bin
}

impl JLinkState {
    /// A state holding `default_bin`.
    pub fn new(default_bin: &str) -> (s: Self)
        ensures
            s@ == default_bin@,
    {
        JLinkState { bin: String::from_str(default_bin) }
    }

    /// The command held.
    pub fn get(&self) -> (r: String)
        ensures
            r@ == spec_get(self@),
    {
        String::from_str(self.bin.as_str())
    }

    /// Holds `bin` from now on.
    pub fn set(&mut self, bin: String)
        ensures
            final(self)@ == spec_set(old(self)@, bin@),
    {
        self.bin = bin;
    }
}

/// Reading the state gives back the last command written to it, whatever it
/// held before.
pub proof fn law_state_read_after_write(held: Seq<char>, written: Seq<char>)
    ensures
        spec_get(spec_set(held, written)) == written,
{
}

} // verus!
