use vstd::prelude::*;

verus! {

/// A 128-bit identifier in its four-field form.
#[derive(Debug, Clone, Copy)]
pub struct Guid {
    pub data1: u32,
    pub data2: u16,
    pub data3: u16,
    pub data4: [u8; 8],
}

/// The bytes of a 16-bit value, low byte first.
pub open spec fn le16(x: u16) -> Seq<u8> {
    seq![(x % 256) as u8, (x / 256) as u8]
}

/// The bytes of a 32-bit value, low byte first.
pub open spec fn le32(x: u32) -> Seq<u8> {
    seq![(x % 256) as u8, ((x / 256) % 256) as u8, ((x / 65536) % 256) as u8, (x / 16777216) as u8]
}

/// The 16 bytes of an identifier as it lies in memory: the three leading
/// fields low byte first, then the eight trailing bytes in order.
pub open spec fn guid_bytes(g: Guid) -> Seq<u8> {
    le32(g.data1) + le16(g.data2) + le16(g.data3) + g.data4@
}

/// The component identifier of the snap-in,
/// d39d9c35-6106-4735-b944-7e929d607000.
pub open spec fn spec_snapin_clsid() -> Guid {
    Guid {
        data1: 0xd39d9c35,
        data2: 0x6106,
        data3: 0x4735,
        data4: [0xb9, 0x44, 0x7e, 0x92, 0x9d, 0x60, 0x70, 0x00],
    }
}

impl Guid {
    /// The identifier's bytes as they lie in memory.
    pub fn to_bytes(&self) -> (r: Vec<u8>)
        ensures
            r@ == guid_bytes(*self),
            r@.len() == 16,
    {
        let mut r: Vec<u8> = Vec::new();
        r.push((self.data1 % 256) as u8);
        r.push(((self.data1 / 256) % 256) as u8);
        r.push(((self.data1 / 65536) % 256) as u8);
        r.push((self.data1 / 16777216) as u8);
        r.push((self.data2 % 256) as u8);
        r.push((self.data2 / 256) as u8);
        r.push((self.data3 % 256) as u8);
        r.push((self.data3 / 256) as u8);
        let ghost head = r@;
        assert(head =~= le32(self.data1) + le16(self.data2) + le16(self.data3));
        let mut i: usize = 0;
        while i < 8
            invariant
                i <= 8,
                head == le32(self.data1) + le16(self.data2) + le16(self.data3),
                r@ == head + self.data4@.take(i as int),
            decreases 8 - i,
        {
            r.push(self.data4[i]);
            assert(self.data4@.take(i + 1) =~= self.data4@.take(i as int).push(self.data4@[i as int]));
            i = i + 1;
        }
        assert(self.data4@.take(8) =~= self.data4@);
        r
    }
}

/// The component identifier of the snap-in.
pub fn snapin_clsid() -> (r: Guid)
    ensures
        r == spec_snapin_clsid(),
{
    Guid {
        data1: 0xd39d9c35,
        data2: 0x6106,
        data3: 0x4735,
        data4: [0xb9, 0x44, 0x7e, 0x92, 0x9d, 0x60, 0x70, 0x00],
    }
}

} // verus!
