//! Commands understood by the sensor and their encoding on the wire.

use vstd::prelude::*;
use vstd::string::*;

verus! {

/// A request the host can send to the sensor.
#[allow(clippy::upper_case_acronyms)]
#[derive(Clone, Copy, Debug, PartialEq, Eq, Structural)]
pub enum COMMAND {
    /// Start streaming readings.
    STA,
    /// Stop streaming readings.
    STP,
}

impl COMMAND {
    /// The bytes that go over the serial line for this command: the three
    /// ASCII letters of its mnemonic followed by carriage return and line feed.
    pub open spec fn wire(self) -> Seq<u8> {
        match self {
            COMMAND::STA => seq![0x53u8, 0x54u8, 0x41u8, 0x0du8, 0x0au8],
            COMMAND::STP => seq![0x53u8, 0x54u8, 0x50u8, 0x0du8, 0x0au8],
        }
    }

    /// Returns the wire encoding of the command.
    pub fn as_bytes(&self) -> (bytes: &'static [u8])
        ensures
            bytes@ == self.wire(),
    {
        broadcast use is_ascii_spec_bytes;

        match self {
            COMMAND::STA => {
                let text: &'static str = "STA\r\n";
                proof {
                    reveal_strlit("STA\r\n");
                    assert(is_ascii(text));
                    assert(text.spec_bytes() =~= COMMAND::STA.wire());
                }
                text.as_bytes()
            },
            COMMAND::STP => {
                let text: &'static str = "STP\r\n";
                proof {
                    reveal_strlit("STP\r\n");
                    assert(is_ascii(text));
                    assert(text.spec_bytes() =~= COMMAND::STP.wire());
                }
                text.as_bytes()
            },
        }
    }
}

} // verus!
