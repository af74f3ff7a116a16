use crate::debugger::{decimal, hex2, hex4, push_decimal, push_hex2, push_hex4};
use vstd::prelude::*;
use vstd::string::*;

verus! {

/// Why a ROM image is malformed.
#[derive(Debug, Clone, Copy, PartialEq, Eq, Structural)]
pub enum ParseError {
    /// The image does not start with `NES` and the byte `$1A`.
    BadMagic,
    /// The image is shorter than its header, or than the sizes that the
    /// header declares.
    Truncated,
    /// A size that the header declares does not fit the machine's address
    /// space.
    SizeTooLarge,
    /// The ROM sizes are not ones that the cartridge's mapper can hold.
    BadSize,
}

/// What can go wrong while loading or running a cartridge.
#[derive(Debug, Clone, Copy, PartialEq, Eq, Structural)]
pub enum Error {
    /// The ROM image is malformed.
    Parse(ParseError),
    /// The image asks for a mapper that is not implemented.
    UnsupportedMapper(u16),
    /// The byte at the program counter is no documented opcode.
    UnimplementedOpcode { opcode: u8, pc: u16 },
}

impl ParseError {
    /// What is wrong with the image, in words.
    pub open spec fn text(self) -> Seq<char> {
        match self {
            ParseError::BadMagic => "bad format"@,
            ParseError::Truncated => "truncated file"@,
            ParseError::SizeTooLarge => "ROM size too large"@,
            ParseError::BadSize => "unsupported ROM size"@,
        }
    }

    /// Renders the error as `text` describes.
    pub fn message(&self) -> (message: String)
        ensures
            message@ == self.text(),
    {
        match self {
            ParseError::BadMagic => String::from_str("bad format"),
            ParseError::Truncated => String::from_str("truncated file"),
            ParseError::SizeTooLarge => String::from_str("ROM size too large"),
            ParseError::BadSize => String::from_str("unsupported ROM size"),
        }
    }
}

impl Error {
    /// The error in words. An unsupported mapper is named by its number in
    /// decimal, an unimplemented opcode by the opcode and the program
    /// counter in hexadecimal.
    pub open spec fn text(self) -> Seq<char> {
        match self {
            Error::Parse(error) => error.text(),
            Error::UnsupportedMapper(id) => "unsupported mapper "@ + decimal(id as nat),
            Error::UnimplementedOpcode { opcode, pc } => "Encountered opcode "@ + hex2(opcode)
                + " at "@ + hex4(pc),
        }
    }

    /// Renders the error as `text` describes.
    pub fn message(&self) -> (message: String)
        ensures
            message@ == self.text(),
    {
        match self {
            Error::Parse(error) => error.message(),
            Error::UnsupportedMapper(id) => {
                let mut message = String::from_str("unsupported mapper ");
                push_decimal(&mut message, *id as u64);
                message
            },
            Error::UnimplementedOpcode { opcode, pc } => {
                let mut message = String::from_str("Encountered opcode ");
                push_hex2(&mut message, *opcode);
                message.append(" at ");
                push_hex4(&mut message, *pc);
                message
            },
        }
    }
}

} // verus!
