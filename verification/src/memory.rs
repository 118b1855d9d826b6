use vstd::prelude::*;

verus! {

/// The part of the address space that an address falls in, with the offset into it.
#[derive(Debug)]
enum Region {
    VideoMemory(u16),
    ExternalMemory(u16),
    WorkMemory(u16),
    EchoArea(u16),
    ObjectAttributeMemory(u16),
    Unused,
    HighMemory(u16),
    InterruptEnableRegister,
}

/// A flat memory map: video RAM, work RAM, object attribute memory, high RAM and
/// the interrupt enable register. The cartridge areas and the I/O registers are not mapped.
pub struct Memory {
    work_memory: [u8; 8192],
    video_memory: [u8; 8192],
    object_attribute_memory: [u8; 160],
    high_memory: [u8; 127],
    interrupt_enable_register: u8,
}

pub ghost struct MemoryView {
    pub work_memory: Seq<u8>,
    pub video_memory: Seq<u8>,
    pub object_attribute_memory: Seq<u8>,
    pub high_memory: Seq<u8>,
    pub interrupt_enable_register: u8,
}

/// The addresses that `decode_address` maps: all but the cartridge ROM (0x0000 to 0x7FFF) and
/// the I/O registers (0xFF00 to 0xFF7F).
pub open spec fn is_mapped(address: u16) -> bool {
    0x8000 <= address < 0xFF00 || 0xFF80 <= address
}

/// The addresses that can be read: the mapped ones except the echo area (0xE000 to 0xFDFF),
/// whose offset lands past the end of the work memory.
pub open spec fn is_readable(address: u16) -> bool {
    is_mapped(address) && !(0xE000 <= address < 0xFE00)
}

/// The addresses that can be written: video RAM, work RAM, object attribute memory, high RAM
/// and the interrupt enable register.
pub open spec fn is_writable(address: u16) -> bool {
    ||| 0x8000 <= address < 0xA000
    ||| 0xC000 <= address < 0xE000
    ||| 0xFE00 <= address < 0xFEA0
    ||| 0xFF80 <= address
}

impl MemoryView {
    /// Each area holds as many bytes as its address range: video and work RAM 8192, object
    /// attribute memory 160, high RAM 127.
    pub open spec fn wf(self) -> bool {
        &&& self.video_memory.len() == 8192
        &&& self.work_memory.len() == 8192
        &&& self.object_attribute_memory.len() == 160
        &&& self.high_memory.len() == 127
    }

    /// External RAM and the unused area read 0.
    pub open spec fn read_spec(self, address: u16) -> u8 {
        if address < 0xA000 {
            self.video_memory[address - 0x8000]
        } else if address < 0xC000 {
            0
        } else if address < 0xE000 {
            self.work_memory[address - 0xC000]
        } else if address < 0xFEA0 {
            self.object_attribute_memory[address - 0xFE00]
        } else if address < 0xFF00 {
            0
        } else if address < 0xFFFF {
            self.high_memory[address - 0xFF80]
        } else {
            self.interrupt_enable_register
        }
    }

    pub open spec fn write_spec(self, address: u16, value: u8) -> MemoryView {
        if address < 0xA000 {
            MemoryView { video_memory: self.video_memory.update(address - 0x8000, value), ..self }
        } else if address < 0xE000 {
            MemoryView { work_memory: self.work_memory.update(address - 0xC000, value), ..self }
        } else if address < 0xFEA0 {
            MemoryView {
                object_attribute_memory: self.object_attribute_memory.update(address - 0xFE00, value),
                ..self
            }
        } else if address < 0xFFFF {
            MemoryView { high_memory: self.high_memory.update(address - 0xFF80, value), ..self }
        } else {
            MemoryView { interrupt_enable_register: value, ..self }
        }
    }
}

impl View for Memory {
    type V = MemoryView;

    closed spec fn view(&self) -> MemoryView {
        MemoryView {
            work_memory: self.work_memory@,
            video_memory: self.video_memory@,
            object_attribute_memory: self.object_attribute_memory@,
            high_memory: self.high_memory@,
            interrupt_enable_register: self.interrupt_enable_register,
        }
    }
}

/// A readable address reads back the byte last written there.
/// A writable address reads back the byte last written there, every other readable address
/// reads as before, and the areas keep their sizes.
pub proof fn lemma_read_after_write(memory: MemoryView, address: u16, value: u8)
    requires
        is_writable(address),
        memory.wf(),
    ensures
        is_readable(address),
        memory.write_spec(address, value).read_spec(address) == value,
        forall|other: u16|
            is_readable(other) && other != address ==> #[trigger] memory.write_spec(
                address,
                value,
            ).read_spec(other) == memory.read_spec(other),
        memory.write_spec(address, value).wf(),
{
}

impl Memory {
    /// Every memory has areas of the right sizes.
    pub proof fn lemma_wf(&self)
        ensures
            self@.wf(),
    {
    }
}

impl Memory {
    pub fn new() -> (memory: Self)
        ensures
            memory@ == (MemoryView {
                work_memory: Seq::new(8192, |i: int| 0u8),
                video_memory: Seq::new(8192, |i: int| 0u8),
                object_attribute_memory: Seq::new(160, |i: int| 0u8),
                high_memory: Seq::new(127, |i: int| 0u8),
                interrupt_enable_register: 0,
            }),
            memory@.wf(),
    {
        let memory = Self {
            work_memory: [0u8; 8192],
            video_memory: [0u8; 8192],
            object_attribute_memory: [0u8; 160],
            high_memory: [0u8; 127],
            interrupt_enable_register: 0,
        };
        assert(memory@.work_memory =~= Seq::new(8192, |i: int| 0u8));
        assert(memory@.video_memory =~= Seq::new(8192, |i: int| 0u8));
        assert(memory@.object_attribute_memory =~= Seq::new(160, |i: int| 0u8));
        assert(memory@.high_memory =~= Seq::new(127, |i: int| 0u8));
        memory
    }

    fn decode_address(address: u16) -> (region: Region)
        requires
            is_mapped(address),
        ensures
            match region {
                Region::VideoMemory(offset) => 0x8000 <= address < 0xA000 && offset == address
                    - 0x8000,
                Region::ExternalMemory(offset) => 0xA000 <= address < 0xC000 && offset == address
                    - 0xA000,
                Region::WorkMemory(offset) => 0xC000 <= address < 0xE000 && offset == address
                    - 0xC000,
                Region::EchoArea(offset) => 0xE000 <= address < 0xFE00 && offset == address
                    - 0xE000,
                Region::ObjectAttributeMemory(offset) => 0xFE00 <= address < 0xFEA0 && offset
                    == address - 0xFE00,
                Region::Unused => 0xFEA0 <= address < 0xFF00,
                Region::HighMemory(offset) => 0xFF80 <= address < 0xFFFF && offset == address
                    - 0xFF80,
                Region::InterruptEnableRegister => address == 0xFFFF,
            },
    {
        match address {
            0x8000..0xA000 => Region::VideoMemory(address - 0x8000),
            0xA000..0xC000 => Region::ExternalMemory(address - 0xA000),
            0xC000..0xE000 => Region::WorkMemory(address - 0xC000),
            0xE000..0xFE00 => Region::EchoArea(address - 0xE000),
            0xFE00..0xFEA0 => Region::ObjectAttributeMemory(address - 0xFE00),
            0xFEA0..0xFF00 => Region::Unused,
            0xFF80..0xFFFF => Region::HighMemory(address - 0xFF80),
            _ => Region::InterruptEnableRegister,
        }
    }

    pub fn read(&self, address: u16) -> (value: u8)
        requires
            is_readable(address),
        ensures
            value == self@.read_spec(address),
    {
        match Self::decode_address(address) {
            Region::VideoMemory(offset) => self.video_memory[offset as usize],
            Region::ExternalMemory(offset) => 0,
            Region::WorkMemory(offset) => self.work_memory[offset as usize],
            Region::EchoArea(offset) => self.work_memory[(offset + 0xC000) as usize],
            Region::ObjectAttributeMemory(offset) => self.object_attribute_memory[offset as usize],
            Region::Unused => 0,
            Region::HighMemory(offset) => self.high_memory[offset as usize],
            Region::InterruptEnableRegister => self.interrupt_enable_register,
        }
    }

    pub fn write(&mut self, address: u16, value: u8)
        requires
            is_writable(address),
        ensures
            final(self)@ == old(self)@.write_spec(address, value),
            final(self)@.wf(),
            is_readable(address) && final(self)@.read_spec(address) == value,
            forall|other: u16|
                is_readable(other) && other != address ==> #[trigger] final(self)@.read_spec(other)
                    == old(self)@.read_spec(other),
    {
        proof {
            lemma_read_after_write(old(self)@, address, value);
        }
        match Self::decode_address(address) {
            Region::VideoMemory(offset) => self.video_memory[offset as usize] = value,
            Region::WorkMemory(offset) => self.work_memory[offset as usize] = value,
            Region::ObjectAttributeMemory(offset) => self.object_attribute_memory[offset as usize] =
            value,
            Region::HighMemory(offset) => self.high_memory[offset as usize] = value,
            Region::InterruptEnableRegister => self.interrupt_enable_register = value,
            // The cartridge, echo, unused and I/O areas cannot be written (see `is_writable`).
            _ => {},
        }
    }
}

} // verus!
