use vstd::prelude::*;

verus! {

/// Why an access to the save data failed.
#[derive(Copy, Clone, Debug, PartialEq, Eq, Structural)]
pub enum DataError {
    /// The bytes asked for do not all lie inside the byte source.
    Io,
    /// The byte stored where a car type is expected names no car type.
    UnknownCarTypeByte { byte: u8 },
}

} // verus!
