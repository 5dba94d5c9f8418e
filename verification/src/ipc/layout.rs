//! The words of the kernel's command format.
use vstd::prelude::*;

verus! {

/// Descriptor word that asks the kernel to fill in the sender's process id.
pub const CURRENT_PROCESS_ID_DESCRIPTOR: u32 = 0x20;

/// Right of the receiver to read a buffer.
pub const BUFFER_RIGHT_READ: u32 = 0x2;

/// Right of the receiver to write a buffer.
pub const BUFFER_RIGHT_WRITE: u32 = 0x4;

/// The part of a thread's local storage that the kernel reads and writes
/// during a synchronous request.
pub struct ThreadLocalStorage {
    /// The request on the way in, the reply on the way out.
    pub command_buffer: [u32; 64],
    /// Where the thread accepts a static buffer: slot 0 is the packed
    /// descriptor header, slot 1 the address of the receiving memory.
    pub static_buffers: [u32; 2],
}

impl ThreadLocalStorage {
    /// Storage with every word zero.
    pub fn new() -> (tls: ThreadLocalStorage)
        ensures
            tls.command_buffer@ == Seq::new(64, |i: int| 0u32),
            tls.static_buffers@ == seq![0u32, 0u32],
    {
        let tls = ThreadLocalStorage { command_buffer: [0u32; 64], static_buffers: [0u32, 0u32] };
        assert(tls.command_buffer@ =~= Seq::new(64, |i: int| 0u32));
        assert(tls.static_buffers@ =~= seq![0u32, 0u32]);
        tls
    }
}

/// First word of a command: the command id in the upper half, then the number
/// of normal parameter words and the number of translate parameter words, six
/// bits each.
pub open spec fn command_header(command_id: u16, normal: u32, translate: u32) -> u32 {
    ((command_id as u32) << 16) | ((normal & 0x3f) << 6) | (translate & 0x3f)
}

/// Command id that a header word carries.
pub open spec fn header_command_id(header: u32) -> u16 {
    (header >> 16) as u16
}

/// Number of normal parameter words that a header word declares.
pub open spec fn header_normal_count(header: u32) -> u32 {
    (header >> 6) & 0x3f
}

/// Number of translate parameter words that a header word declares.
pub open spec fn header_translate_count(header: u32) -> u32 {
    header & 0x3f
}

/// Descriptor of a static buffer: its size in bytes above bit 14, the index of
/// the receiver's slot in bits 10 to 13, and the tag 2.
pub open spec fn static_buffer_header(size: u32, buffer_id: u16) -> u32 {
    (size << 14) | (((buffer_id as u32) & 0xf) << 10) | 0x2
}

/// Descriptor of a mapped buffer: its size in bytes above bit 4, the
/// receiver's rights in bits 1 and 2, and the tag 8.
pub open spec fn buffer_header(size: u32, rights: u32) -> u32 {
    (size << 4) | 0x8 | rights
}

/// Descriptor that announces `count` capabilities to be duplicated for the
/// receiver: one less than the count, in the top six bits.
pub open spec fn shared_handles_header(count: u32) -> u32
    recommends
        1 <= count <= 64,
{
    ((count - 1) as u32) << 26
}

pub fn make_header(command_id: u16, normal: u32, translate: u32) -> (header: u32)
    ensures
        header == command_header(command_id, normal, translate),
{
    ((command_id as u32) << 16) | ((normal & 0x3f) << 6) | (translate & 0x3f)
}

pub fn make_static_buffer_header(size: u32, buffer_id: u16) -> (header: u32)
    ensures
        header == static_buffer_header(size, buffer_id),
{
    (size << 14) | (((buffer_id as u32) & 0xf) << 10) | 0x2
}

pub fn make_buffer_header(size: u32, rights: u32) -> (header: u32)
    ensures
        header == buffer_header(size, rights),
{
    (size << 4) | 0x8 | rights
}

pub fn make_shared_handles_header(count: u32) -> (header: u32)
    requires
        1 <= count <= 64,
    ensures
        header == shared_handles_header(count),
{
    (count - 1) << 26
}

/// A header gives back the command id and the two counts it was made from.
pub proof fn lemma_header_fields(command_id: u16, normal: u32, translate: u32)
    requires
        normal < 64,
        translate < 64,
    ensures
        header_command_id(command_header(command_id, normal, translate)) == command_id,
        header_normal_count(command_header(command_id, normal, translate)) == normal,
        header_translate_count(command_header(command_id, normal, translate)) == translate,
{
    assert(((((command_id as u32) << 16) | ((normal & 0x3f) << 6) | (translate & 0x3f)) >> 16) as u16
        == command_id) by (bit_vector)
        requires
            normal < 64,
            translate < 64,
    ;
    assert((((((command_id as u32) << 16) | ((normal & 0x3f) << 6) | (translate & 0x3f)) >> 6)
        & 0x3f) == normal) by (bit_vector)
        requires
            normal < 64,
            translate < 64,
    ;
    assert(((((command_id as u32) << 16) | ((normal & 0x3f) << 6) | (translate & 0x3f)) & 0x3f)
        == translate) by (bit_vector)
        requires
            normal < 64,
            translate < 64,
    ;
}

} // verus!
