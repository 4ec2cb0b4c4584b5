//! Resolving one pointer chain against a live process, as a step machine:
//! the library computes each address to read, the caller performs the read
//! and feeds the result back. A chain is resolved fresh every tick; any
//! failed read fails the whole resolution without raising, which the polling
//! pass treats as "no new sample for this field".
//!
//! Also here: the interpretation of the raw little-endian bytes a final read
//! returns as the typed values the trackers hold.

use vstd::prelude::*;

verus! {

/// Where one chain resolution stands.
#[derive(Clone, Copy, Debug, PartialEq, Eq, Structural)]
pub enum ResolveState {
    /// The caller must read a pointer-sized value at `address` and feed it
    /// back; `next_hop` is the index of the offset that pointer is added to.
    NeedPointer { address: u64, next_hop: usize },
    /// The caller must read the field's own bytes at `address`.
    NeedValue { address: u64 },
    /// A read failed: no sample for this field this tick.
    Failed,
}

/// Address arithmetic of a hop: the game's pointers wrap around the address
/// space rather than fault in the arithmetic itself.
pub open spec fn spec_hop_address(base: u64, offset: u64) -> u64 {
    vstd::wrapping::u64_specs::wrapping_add(base, offset)
}

/// The state a resolution starts in: the first offset applied to the module
/// base, a final read at once for a chain of one hop.
pub open spec fn spec_resolve_begin(base: u64, offsets: Seq<u64>) -> ResolveState {
    if offsets.len() == 1 {
        ResolveState::NeedValue { address: spec_hop_address(base, offsets[0]) }
    } else {
        ResolveState::NeedPointer { address: spec_hop_address(base, offsets[0]), next_hop: 1 }
    }
}

/// The state after one pointer read came back: a failure fails the chain, a
/// pointer moves the walk one offset further.
pub open spec fn spec_resolve_feed(
    offsets: Seq<u64>,
    next_hop: int,
    pointer_read: Option<u64>,
) -> ResolveState {
    match pointer_read {
        None => ResolveState::Failed,
        Some(p) => if next_hop == offsets.len() - 1 {
            ResolveState::NeedValue { address: spec_hop_address(p, offsets[next_hop]) }
        } else {
            ResolveState::NeedPointer {
                address: spec_hop_address(p, offsets[next_hop]),
                next_hop: (next_hop + 1) as usize,
            }
        },
    }
}

/// Starts resolving a chain from the module's base address.
pub fn resolve_begin(base: u64, offsets: &Vec<u64>) -> (r: ResolveState)
    requires
        offsets@.len() >= 1,
    ensures
        r == spec_resolve_begin(base, offsets@),
{
    let address = base.wrapping_add(offsets[0]);
    if offsets.len() == 1 {
        ResolveState::NeedValue { address }
    } else {
        ResolveState::NeedPointer { address, next_hop: 1 }
    }
}

/// Continues a resolution with the outcome of the pointer read the previous
/// state asked for.
pub fn resolve_feed(offsets: &Vec<u64>, next_hop: usize, pointer_read: Option<u64>) -> (r:
    ResolveState)
    requires
        1 <= next_hop < offsets@.len(),
    ensures
        r == spec_resolve_feed(offsets@, next_hop as int, pointer_read),
{
    match pointer_read {
        None => ResolveState::Failed,
        Some(p) => {
            let address = p.wrapping_add(offsets[next_hop]);
            if next_hop == offsets.len() - 1 {
                ResolveState::NeedValue { address }
            } else {
                ResolveState::NeedPointer { address, next_hop: next_hop + 1 }
            }
        },
    }
}

/// The unsigned value of four little-endian bytes.
pub open spec fn spec_u32_of_le_bytes(b0: u8, b1: u8, b2: u8, b3: u8) -> u32 {
    (b0 + b1 * 0x100 + b2 * 0x1_0000 + b3 * 0x100_0000) as u32
}

/// The unsigned value of eight little-endian bytes.
pub open spec fn spec_u64_of_le_bytes(lo: u32, hi: u32) -> u64 {
    (lo + hi * 0x1_0000_0000) as u64
}

/// Interprets a final read's four bytes as the unsigned word they spell in
/// little-endian order. The raw bit patterns of the per-level timer and of
/// the end-of-run flag field are read through this too.
pub fn u32_from_le_bytes(bytes: &[u8; 4]) -> (r: u32)
    ensures
        r == spec_u32_of_le_bytes(bytes[0], bytes[1], bytes[2], bytes[3]),
{
    let b0 = bytes[0] as u32;
    let b1 = bytes[1] as u32;
    let b2 = bytes[2] as u32;
    let b3 = bytes[3] as u32;
    b0 + b1 * 0x100 + b2 * 0x1_0000 + b3 * 0x100_0000
}

/// Interprets a final read's four bytes as the signed word they spell: the
/// unsigned value reinterpreted in two's complement.
pub fn i32_from_le_bytes(bytes: &[u8; 4]) -> (r: i32)
    ensures
        r == spec_u32_of_le_bytes(bytes[0], bytes[1], bytes[2], bytes[3]) as i32,
{
    let unsigned = u32_from_le_bytes(bytes);
    #[verifier::truncate]
    let signed = unsigned as i32;
    signed
}

/// Interprets a pointer read of a 32-bit build: four little-endian bytes,
/// zero-extended to an address.
pub fn pointer_from_le_4_bytes(bytes: &[u8; 4]) -> (r: u64)
    ensures
        r == spec_u32_of_le_bytes(bytes[0], bytes[1], bytes[2], bytes[3]) as u64,
{
    u32_from_le_bytes(bytes) as u64
}

/// Interprets a pointer read of a 64-bit build: eight little-endian bytes.
pub fn pointer_from_le_8_bytes(bytes: &[u8; 8]) -> (r: u64)
    ensures
        r == spec_u64_of_le_bytes(
            spec_u32_of_le_bytes(bytes[0], bytes[1], bytes[2], bytes[3]),
            spec_u32_of_le_bytes(bytes[4], bytes[5], bytes[6], bytes[7]),
        ),
{
    let lo = u32_from_le_bytes(&[bytes[0], bytes[1], bytes[2], bytes[3]]) as u64;
    let hi = u32_from_le_bytes(&[bytes[4], bytes[5], bytes[6], bytes[7]]) as u64;
    lo + hi * 0x1_0000_0000
}

} // verus!
