// The .lh5 program format: a little-endian load address and code length,
// then the LH5801 machine code.
use vstd::prelude::*;

verus! {

#[verifier::external_type_specification]
#[verifier::external_body]
pub struct ExIoError(std::io::Error);

/// Why a program could not be loaded.
#[derive(Debug)]
pub enum Lh5LoadError {
    /// The file could not be read.
    IoError(std::io::Error),
    /// Fewer than the 4 header bytes.
    FileTooSmall,
    /// The header's code length does not match the bytes that follow it.
    InvalidFormat,
    /// The code does not fit below the end of user memory.
    CodeTooLarge,
    /// The load address is outside user memory (0x3800-0x5FFF).
    InvalidLoadAddress,
}

pub const USER_MEMORY_START: u16 = 0x3800;
pub const USER_MEMORY_END: u16 = 0x5FFF;

/// Little-endian 16-bit value of two bytes.
pub open spec fn le16(lo: u8, hi: u8) -> u16 {
    (lo as u16) | ((hi as u16) << 8u16)
}

/// Reads the header of an .lh5 image and returns the load address and the
/// code; the code length in the header must match the bytes after it.
pub fn parse_lh5(data: &[u8]) -> (r: Result<(u16, Vec<u8>), Lh5LoadError>)
    ensures
        data@.len() < 4 ==> r matches Err(Lh5LoadError::FileTooSmall),
        data@.len() >= 4 ==> ({
            let addr = le16(data@[0], data@[1]);
            let len = le16(data@[2], data@[3]) as int;
            &&& (data@.len() != 4 + len ==> r matches Err(Lh5LoadError::InvalidFormat))
            &&& (data@.len() == 4 + len ==> (r matches Ok((a, code)) && a == addr && code@ == data@.subrange(4, 4 + len)))
        }),
{
    if data.len() < 4 {
        return Err(Lh5LoadError::FileTooSmall);
    }
    let load_address: u16 = (data[0] as u16) | ((data[1] as u16) << 8u16);
    let code_length: usize = ((data[2] as u16) | ((data[3] as u16) << 8u16)) as usize;
    if data.len() != 4 + code_length {
        return Err(Lh5LoadError::InvalidFormat);
    }
    let end = 4 + code_length;
    let mut code: Vec<u8> = Vec::new();
    let mut i: usize = 4;
    while i < end
        invariant
            end == 4 + code_length,
            4 <= i <= end,
            end <= data@.len(),
            code@ == data@.subrange(4, i as int),
        decreases end - i,
    {
        code.push(data[i]);
        i = i + 1;
    }
    Ok((load_address, code))
}

/// Checks that `code_size` bytes loaded at `load_address` stay inside user
/// memory (0x3800-0x5FFF).
pub fn validate_load_parameters(load_address: u16, code_size: usize) -> (r: Result<(), Lh5LoadError>)
    requires
        code_size <= usize::MAX - 0x10000,
    ensures
        (load_address < USER_MEMORY_START || load_address > USER_MEMORY_END) <==> r matches Err(Lh5LoadError::InvalidLoadAddress),
        (USER_MEMORY_START <= load_address <= USER_MEMORY_END && load_address + code_size > USER_MEMORY_END + 1)
            <==> r matches Err(Lh5LoadError::CodeTooLarge),
        r is Ok <==> USER_MEMORY_START <= load_address <= USER_MEMORY_END && load_address + code_size <= USER_MEMORY_END + 1,
{
    if load_address < USER_MEMORY_START || load_address > USER_MEMORY_END {
        return Err(Lh5LoadError::InvalidLoadAddress);
    }
    let end_address = load_address as usize + code_size;
    if end_address > USER_MEMORY_END as usize + 1 {
        return Err(Lh5LoadError::CodeTooLarge);
    }
    Ok(())
}

} // verus!
