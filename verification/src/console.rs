//! The host's console.

use crate::host::Host;
use crate::marshal::{length, spec_length};
use vstd::prelude::*;
use vstd::string::StringSliceAdditionalSpecFns;

verus! {

/// A writer to the host's console.
#[derive(Clone, Debug)]
pub struct Console;

impl Default for Console {
    fn default() -> (r: Self)
        ensures
            r == Console,
    {
        Console
    }
}

impl Console {
    /// Writes a string: one call to the host with the string's bytes and
    /// their number as the host takes it.
    pub fn write_str<H: Host>(&mut self, host: &H, s: &str)
        ensures
            *final(self) == *old(self),
            exists|bytes: &[u8]|
                #![trigger call_ensures(H::mp_js_write, (host, bytes, spec_length(s.len())), ())]
                bytes@ == s.spec_bytes() && call_ensures(
                    H::mp_js_write,
                    (host, bytes, spec_length(s.len())),
                    (),
                ),
    {
        let bytes: &[u8] = s.as_bytes();
        let len: i32 = length(s.len());
        host.mp_js_write(bytes, len);
        assert(len == spec_length(s.len()));
    }
}

} // verus!
