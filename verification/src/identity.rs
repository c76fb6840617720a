//! Machine identities: the service echoes an identifier that it is shown
//! and mints a fresh one for a machine that has none.

use crate::machine::MachineInfo;
use vstd::prelude::*;

verus! {

/// The identifier under which the service knows a machine.
#[derive(Clone, Debug, PartialEq, Eq)]
pub struct MachineClientId {
    /// The identifier.
    pub uuid: String,
}

/// Whether `c` is a digit or one of the letters `a` to `f`.
pub open spec fn is_lower_hex(c: char) -> bool {
    let n = c as u32;
    (0x30 <= n <= 0x39) || (0x61 <= n <= 0x66)
}

/// Whether `text` has the shape of a minted identifier: a random (version 4)
/// UUID written as 32 lower-case hexadecimal digits in five groups, with a
/// hyphen between two groups.
pub open spec fn is_minted_identifier(text: Seq<char>) -> bool {
    &&& text.len() == 36
    &&& forall|i: int|
        0 <= i < 36 ==> if i == 8 || i == 13 || i == 18 || i == 23 {
            text[i] == '-'
        } else {
            is_lower_hex(#[trigger] text[i])
        }
    &&& text[14] == '4'
    &&& (text[19] == '8' || text[19] == '9' || text[19] == 'a' || text[19] == 'b')
}

/// Calls `uuid::Uuid::new_v4` and writes the identifier out with its
/// `Display` form. The contract claims the shape of the text: hyphenated
/// lower-case hexadecimal, with the version digit 4 and the variant bits
/// that `new_v4` sets. It claims nothing of the random digits; two calls
/// may, and almost surely do, differ. The call stops the program where the
/// operating system cannot supply random bytes.
#[verifier::external_body]
fn mint_identifier() -> (text: String)
    ensures
        is_minted_identifier(text@),
{
    uuid::Uuid::new_v4().to_string()
}

/// Registers a machine. A machine that shows an identifier gets the same
/// identifier back, however often it registers. A machine that shows none
/// gets a freshly minted one.
pub fn register_machine(info: &MachineInfo) -> (id: MachineClientId)
    ensures
        match info.uuid {
            Some(shown) => id.uuid@ == shown@,
            None => is_minted_identifier(id.uuid@),
        },
{
    match &info.uuid {
        Some(shown) => MachineClientId { uuid: shown.clone() },
        None => MachineClientId { uuid: mint_identifier() },
    }
}

} // verus!
