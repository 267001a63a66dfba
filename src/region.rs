//! The virtualization control region: one zeroed page whose header carries
//! the processor's revision identifier.
use vstd::prelude::*;

verus! {

/// Size in bytes of the control region.
pub const PAGE_SIZE: usize = 4096;

/// Model-specific register that reports the revision identifier.
pub const IA32_VMX_BASIC: u32 = 0x480;

/// Bits 0 to 30 of a header word.
pub const REVISION_MASK: u32 = 0x7FFF_FFFF;

/// The revision identifier held in bits 0 to 30 of the capability register.
pub open spec fn revision_of(basic: u64) -> u32 {
    (basic & 0x7FFF_FFFFu64) as u32
}

/// Extracts the revision identifier from the capability register value `basic`.
pub fn revision_id_of(basic: u64) -> (r: u32)
    ensures
        r == revision_of(basic),
        r < 0x8000_0000,
{
    let masked = basic & 0x7FFF_FFFFu64;
    assert(masked < 0x8000_0000) by (bit_vector)
        requires
            masked == basic & 0x7FFF_FFFFu64,
    ;
    masked as u32
}

/// Byte `k` (0 to 3, least significant first) of the word `w`.
pub open spec fn byte_of(w: u32, k: int) -> u8 {
    let shift: u32 = if k == 0 {
        0
    } else if k == 1 {
        8
    } else if k == 2 {
        16
    } else {
        24
    };
    ((w >> shift) & 0xFFu32) as u8
}

/// The word whose bytes, least significant first, are `b[0]` to `b[3]`.
pub open spec fn header_of(b: Seq<u8>) -> u32
    recommends
        b.len() >= 4,
{
    (b[0] as u32) | ((b[1] as u32) << 8u32) | ((b[2] as u32) << 16u32) | ((b[3] as u32) << 24u32)
}

/// The page that stamps `revision_id` into a zeroed page: its first four bytes
/// hold the identifier with bit 31 clear, least significant byte first, and
/// every other byte is zero.
pub open spec fn region_image(revision_id: u32) -> Seq<u8> {
    let w = revision_id & REVISION_MASK;
    Seq::new(PAGE_SIZE as nat, |i: int| if i < 4 { byte_of(w, i) } else { 0u8 })
}

/// The contents of a control region, ready to be copied into a freshly
/// allocated physical page.
pub struct ControlRegion {
    bytes: Vec<u8>,
}

impl View for ControlRegion {
    type V = Seq<u8>;

    closed spec fn view(&self) -> Seq<u8> {
        self.bytes@
    }
}

impl ControlRegion {
    /// A zeroed page whose header holds `revision_id` with bit 31 clear.
    pub fn prepare(revision_id: u32) -> (r: ControlRegion)
        requires
            revision_id < 0x8000_0000,
        ensures
            r@ == region_image(revision_id),
    {
        let mut bytes: Vec<u8> = Vec::new();
        while bytes.len() < PAGE_SIZE
            invariant
                bytes@.len() <= PAGE_SIZE,
                forall|i: int| 0 <= i < bytes@.len() ==> bytes@[i] == 0u8,
            decreases PAGE_SIZE - bytes@.len(),
        {
            bytes.push(0u8);
        }
        let w = revision_id & REVISION_MASK;
        bytes.set(0, ((w >> 0u32) & 0xFFu32) as u8);
        bytes.set(1, ((w >> 8u32) & 0xFFu32) as u8);
        bytes.set(2, ((w >> 16u32) & 0xFFu32) as u8);
        bytes.set(3, ((w >> 24u32) & 0xFFu32) as u8);
        assert(bytes@ =~= region_image(revision_id));
        ControlRegion { bytes }
    }

    /// The region's bytes.
    pub fn as_bytes(&self) -> (r: &[u8])
        ensures
            r@ == self@,
    {
        self.bytes.as_slice()
    }

    /// The header word: the first four bytes, least significant first.
    pub fn read_header(&self) -> (r: u32)
        requires
            self@.len() >= 4,
        ensures
            r == header_of(self@),
    {
        let b0 = self.bytes[0] as u32;
        let b1 = self.bytes[1] as u32;
        let b2 = self.bytes[2] as u32;
        let b3 = self.bytes[3] as u32;
        b0 | (b1 << 8u32) | (b2 << 16u32) | (b3 << 24u32)
    }
}

/// Reading the header of a region prepared with `revision_id` gives back
/// `revision_id` in bits 0 to 30, bit 31 is clear, and the rest of the page is
/// zero.
pub proof fn lemma_region_stamping(revision_id: u32)
    requires
        revision_id < 0x8000_0000,
    ensures
        region_image(revision_id).len() == PAGE_SIZE,
        header_of(region_image(revision_id)) & REVISION_MASK == revision_id,
        header_of(region_image(revision_id)) & 0x8000_0000u32 == 0,
        forall|i: int| 4 <= i < PAGE_SIZE ==> region_image(revision_id)[i] == 0u8,
{
    let img = region_image(revision_id);
    let w = revision_id & REVISION_MASK;
    assert(img[0] == byte_of(w, 0));
    assert(img[1] == byte_of(w, 1));
    assert(img[2] == byte_of(w, 2));
    assert(img[3] == byte_of(w, 3));
    let b0 = byte_of(w, 0);
    let b1 = byte_of(w, 1);
    let b2 = byte_of(w, 2);
    let b3 = byte_of(w, 3);
    assert(((b0 as u32) | ((b1 as u32) << 8u32) | ((b2 as u32) << 16u32) | ((b3 as u32) << 24u32))
        == w) by (bit_vector)
        requires
            b0 == ((w >> 0u32) & 0xFFu32) as u8,
            b1 == ((w >> 8u32) & 0xFFu32) as u8,
            b2 == ((w >> 16u32) & 0xFFu32) as u8,
            b3 == ((w >> 24u32) & 0xFFu32) as u8,
    ;
    assert(w & 0x7FFF_FFFFu32 == revision_id && w & 0x8000_0000u32 == 0) by (bit_vector)
        requires
            w == revision_id & 0x7FFF_FFFFu32,
            revision_id < 0x8000_0000u32,
    ;
}

} // verus!
