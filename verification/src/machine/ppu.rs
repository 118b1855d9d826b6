use vstd::prelude::*;

verus! {

/// An early picture processing unit: it holds video RAM and object attribute memory, reads 0
/// everywhere and ignores writes.
pub struct Ppu {
    video_ram: [u8; 8192],
    object_attribute_memory: [u8; 160],
}

pub ghost struct PpuView {
    pub video_ram: Seq<u8>,
    pub object_attribute_memory: Seq<u8>,
}

impl View for Ppu {
    type V = PpuView;

    closed spec fn view(&self) -> PpuView {
        PpuView { video_ram: self.video_ram@, object_attribute_memory: self.object_attribute_memory@ }
    }
}

impl Ppu {
    pub fn new() -> (ppu: Self)
        ensures
            ppu@.video_ram == Seq::new(8192, |i: int| 0u8),
            ppu@.object_attribute_memory == Seq::new(160, |i: int| 0u8),
    {
        let ppu = Self { video_ram: [0u8; 8192], object_attribute_memory: [0u8; 160] };
        assert(ppu@.video_ram =~= Seq::new(8192, |i: int| 0u8));
        assert(ppu@.object_attribute_memory =~= Seq::new(160, |i: int| 0u8));
        ppu
    }

    pub fn read(&self, address: u16) -> (value: u8)
        ensures
            value == 0,
    {
        0
    }

    pub fn write(&mut self, address: u16, value: u8)
        ensures
            *final(self) == *old(self),
    {
    }

    pub fn render(&mut self)
        ensures
            *final(self) == *old(self),
    {
    }
}

} // verus!
