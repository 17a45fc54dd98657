//! The address bus of the Famicom-style host: 2 KiB of internal RAM mirrored
//! four times over `0x0000..0x2000`, a 32 KiB cartridge ROM window at
//! `0x8000..=0xFFFF`, and stubbed video/audio/test registers in between that
//! read as zero and swallow writes.
//!
//! [`spec_load`] and [`spec_store`] state the whole range dispatch; writes
//! into the ROM window are the one hard fault of the bus.

use vstd::prelude::*;
use crate::datastructures::doubleword;
use crate::datastructures::word;
use crate::datastructures::InstructionStream;

verus! {

/// Bytes of internal RAM.
pub const RAM_SIZE_BYTES: usize = 0x800;

/// Bytes of the cartridge ROM window.
pub const ROM_SIZE_BYTES: usize = 0x8000;

/// A fatal condition of the execution engine: an opcode byte with no table
/// entry, or a store aimed at read-only ROM. Each carries the failing value.
#[derive(Clone, Copy, Debug, PartialEq, Eq, Structural)]
pub enum EmuFault {
    /// The opcode byte has no entry in the decode table.
    DecodeFault { opcode: u8 },
    /// A store targeted the read-only cartridge window.
    IllegalWrite { address: u16 },
}

/// The mathematical contents of the bus: RAM and ROM as byte sequences.
pub struct MemV {
    pub ram: Seq<u8>,
    pub rom: Seq<u8>,
}

/// Well-formed bus contents: RAM and ROM have their fixed sizes.
pub open spec fn mem_wf(m: MemV) -> bool {
    &&& m.ram.len() == RAM_SIZE_BYTES
    &&& m.rom.len() == ROM_SIZE_BYTES
}

/// What a load returns for every address: RAM modulo its four mirrors, ROM
/// behind the fixed window offset, and zero for the stubbed ranges.
pub open spec fn spec_load(m: MemV, addr: u16) -> u8 {
    if addr < 0x2000 {
        m.ram[(addr % 0x800) as int]
    } else if addr >= 0x8000 {
        m.rom[(addr - 0x8000) as int]
    } else {
        0
    }
}

/// Whether a store to `addr` is legal: everywhere but the ROM window.
pub open spec fn spec_write_ok(addr: u16) -> bool {
    addr < 0x8000
}

/// What a legal store does: RAM writes land modulo the mirrors, stores into
/// the stubbed ranges are swallowed.
pub open spec fn spec_store(m: MemV, addr: u16, v: u8) -> MemV {
    if addr < 0x2000 {
        MemV { ram: m.ram.update((addr % 0x800) as int, v), rom: m.rom }
    } else {
        m
    }
}

/// The bus contents after a program load: the program's bytes at the start
/// of the ROM window, the rest of the window unchanged, RAM untouched.
pub open spec fn spec_push_program(m: MemV, prog: Seq<u8>) -> MemV {
    MemV {
        ram: m.ram,
        rom: Seq::new(
            ROM_SIZE_BYTES as nat,
            |i: int|
                if i < prog.len() {
                    prog[i]
                } else {
                    m.rom[i]
                },
        ),
    }
}

/// Mirroring: a byte stored at `a` in `0x0000..0x0800` is read back through
/// each of the four mirror images `a + k * 0x800`.
pub proof fn lemma_ram_mirroring(m: MemV, a: u16, k: u16, v: u8)
    requires
        mem_wf(m),
        a < 0x800,
        k < 4,
    ensures
        spec_load(spec_store(m, a, v), (a + k * 0x800) as u16) == v,
{
    assert((a + k * 0x800) % 0x800 == a) by {
        assert(k == 0 || k == 1 || k == 2 || k == 3);
    }
}

/// Low four bits of a byte.
#[inline]
pub fn low_nibble(byte: word) -> (r: u8)
    ensures
        r == byte@ % 16,
{
    byte.native_value() % 16
}

/// High four bits of a byte.
#[inline]
pub fn high_nibble(byte: word) -> (r: u8)
    ensures
        r == byte@ / 16,
{
    byte.native_value() / 16
}

/// A fixed-size byte vector filled with zeroes.
fn zeroed_bytes(n: usize) -> (r: Vec<u8>)
    ensures
        r@.len() == n,
        forall|i: int| 0 <= i < n ==> r@[i] == 0,
{
    let mut data: Vec<u8> = Vec::new();
    while data.len() < n
        invariant
            data@.len() <= n,
            forall|i: int| 0 <= i < data@.len() ==> data@[i] == 0,
        decreases n - data@.len(),
    {
        data.push(0);
    }
    data
}

/// The host's internal RAM.
pub struct Ram {
    data: Vec<u8>,
}

impl View for Ram {
    type V = Seq<u8>;

    closed spec fn view(&self) -> Seq<u8> {
        self.data@
    }
}

impl Ram {
    /// The RAM holds exactly its fixed number of bytes.
    pub open spec fn wf(&self) -> bool {
        self@.len() == RAM_SIZE_BYTES
    }

    /// A RAM instance of the fixed size, filled with zeroes.
    pub fn new() -> (r: Self)
        ensures
            r.wf(),
            forall|i: int| 0 <= i < RAM_SIZE_BYTES ==> r@[i] == 0,
    {
        Ram { data: zeroed_bytes(RAM_SIZE_BYTES) }
    }

    /// Stores one byte at a physical RAM address.
    pub fn write(&mut self, address: doubleword, data: word)
        requires
            old(self).wf(),
            address@ < 0x800,
        ensures
            final(self).wf(),
            final(self)@ == old(self)@.update(address@ as int, data@),
    {
        let idx = address.as_addr();
        self.data.set(idx, data.native_value());
    }

    /// Reads one byte at a physical RAM address.
    pub fn read(&self, address: doubleword) -> (r: word)
        requires
            self.wf(),
            address@ < 0x800,
        ensures
            r@ == self@[address@ as int],
    {
        word::from_6502_bytes(self.data[address.as_addr()])
    }

    /// Zero-fills the RAM.
    pub fn reset(&mut self)
        requires
            old(self).wf(),
        ensures
            final(self).wf(),
            forall|i: int| 0 <= i < RAM_SIZE_BYTES ==> final(self)@[i] == 0,
    {
        self.data = zeroed_bytes(RAM_SIZE_BYTES);
    }
}

/// The cartridge: a read-only program image behind the upper address window.
pub struct Cartridge {
    program: Vec<u8>,
}

impl View for Cartridge {
    type V = Seq<u8>;

    closed spec fn view(&self) -> Seq<u8> {
        self.program@
    }
}

impl Cartridge {
    /// The image holds exactly the window's number of bytes.
    pub open spec fn wf(&self) -> bool {
        self@.len() == ROM_SIZE_BYTES
    }

    /// A cartridge image of the fixed size, filled with zeroes.
    pub fn new_zeroed() -> (r: Self)
        ensures
            r.wf(),
            forall|i: int| 0 <= i < ROM_SIZE_BYTES ==> r@[i] == 0,
    {
        Cartridge { program: zeroed_bytes(ROM_SIZE_BYTES) }
    }

    /// Copies a program into the image starting at offset 0; bytes past the
    /// program's end keep their previous contents.
    pub fn push_program(&mut self, program: InstructionStream)
        requires
            old(self).wf(),
            program@.len() <= ROM_SIZE_BYTES,
        ensures
            final(self).wf(),
            forall|i: int| 0 <= i < program@.len() ==> final(self)@[i] == program@[i],
            forall|i: int|
                program@.len() <= i < ROM_SIZE_BYTES ==> final(self)@[i] == old(self)@[i],
    {
        let mut byte_idx: usize = 0;
        while byte_idx < program.stream.len()
            invariant
                self.wf(),
                byte_idx <= program@.len(),
                program@.len() <= ROM_SIZE_BYTES,
                forall|i: int| 0 <= i < byte_idx ==> self@[i] == program@[i],
                forall|i: int| byte_idx <= i < ROM_SIZE_BYTES ==> self@[i] == old(self)@[i],
            decreases program@.len() - byte_idx,
        {
            self.program.set(byte_idx, program.stream[byte_idx].native_value());
            byte_idx += 1;
        }
    }

    /// Reads one byte at an offset into the image.
    pub fn read(&self, address: doubleword) -> (r: word)
        requires
            self.wf(),
            address@ < 0x8000,
        ensures
            r@ == self@[address@ as int],
    {
        word::from_6502_bytes(self.program[address.as_addr()])
    }
}

/// Whether an access reads or writes.
pub enum MemoryAccessType {
    Store,
    Load,
}

/// The address bus: internal RAM plus the cartridge window, dispatched by
/// address range.
pub struct Memory {
    pub internal_ram: Ram,
    pub cart: Cartridge,
}

impl View for Memory {
    type V = MemV;

    open spec fn view(&self) -> MemV {
        MemV { ram: self.internal_ram@, rom: self.cart@ }
    }
}

impl Memory {
    /// Both halves of the bus have their fixed sizes.
    pub open spec fn wf(&self) -> bool {
        mem_wf(self@)
    }

    /// A bus with zeroed RAM and a zeroed cartridge image.
    pub fn new_resetted() -> (r: Self)
        ensures
            r.wf(),
            forall|i: int| 0 <= i < RAM_SIZE_BYTES ==> r@.ram[i] == 0,
            forall|i: int| 0 <= i < ROM_SIZE_BYTES ==> r@.rom[i] == 0,
    {
        Memory { internal_ram: Ram::new(), cart: Cartridge::new_zeroed() }
    }

    /// Zero-fills the RAM; the cartridge image is immutable after load.
    pub fn reset(&mut self)
        requires
            old(self).wf(),
        ensures
            final(self).wf(),
            forall|i: int| 0 <= i < RAM_SIZE_BYTES ==> final(self)@.ram[i] == 0,
            final(self)@.rom == old(self)@.rom,
    {
        self.internal_ram.reset();
    }

    /// Loads a program into the cartridge image.
    pub fn push_program(&mut self, program: InstructionStream)
        requires
            old(self).wf(),
            program@.len() <= ROM_SIZE_BYTES,
        ensures
            final(self).wf(),
            final(self)@ == spec_push_program(old(self)@, program@),
    {
        let ghost prog = program@;
        self.cart.push_program(program);
        proof {
            assert(self@.rom =~= spec_push_program(old(self)@, prog).rom);
        }
    }

    /// The range dispatch shared by loads and stores. A load always succeeds
    /// and hands back `Some` byte; a legal store hands back `None`; a store
    /// into the ROM window is the bus's hard fault.
    pub fn access(&mut self, address: doubleword, tpe: MemoryAccessType, data: Option<word>) -> (r:
        Result<Option<word>, EmuFault>)
        requires
            old(self).wf(),
            tpe is Store ==> data is Some,
        ensures
            final(self).wf(),
            tpe is Load ==> final(self)@ == old(self)@ && r == Ok::<Option<word>, EmuFault>(
                Some(crate::datastructures::word_of(spec_load(old(self)@, address@))),
            ),
            tpe is Store && spec_write_ok(address@) ==> final(self)@ == spec_store(
                old(self)@,
                address@,
                data.unwrap()@,
            ) && r == Ok::<Option<word>, EmuFault>(None),
            tpe is Store && !spec_write_ok(address@) ==> final(self)@ == old(self)@ && r == Err::<
                Option<word>,
                EmuFault,
            >(EmuFault::IllegalWrite { address: address@ }),
    {
        let addr = address.native_value();
        if addr < 0x2000 {
            // RAM, visible through four mirror images.
            let real_address = doubleword::from_6502_bytes(addr % 0x800);
            match tpe {
                MemoryAccessType::Load => Ok(Some(self.internal_ram.read(real_address))),
                MemoryAccessType::Store => {
                    self.internal_ram.write(real_address, data.unwrap());
                    Ok(None)
                },
            }
        } else if addr < 0x8000 {
            // Stubbed video/audio/test registers: reads are a defined zero,
            // writes are swallowed.
            match tpe {
                MemoryAccessType::Load => Ok(Some(word::zero())),
                MemoryAccessType::Store => Ok(None),
            }
        } else {
            // Cartridge ROM window.
            match tpe {
                MemoryAccessType::Load => {
                    let offset = doubleword::from_6502_bytes(addr - 0x8000);
                    Ok(Some(self.cart.read(offset)))
                },
                MemoryAccessType::Store => Err(EmuFault::IllegalWrite { address: addr }),
            }
        }
    }

    /// Stores one byte; a store aimed at ROM is refused and changes nothing.
    pub fn store(&mut self, address: doubleword, data: word) -> (r: Result<(), EmuFault>)
        requires
            old(self).wf(),
        ensures
            final(self).wf(),
            spec_write_ok(address@) ==> r == Ok::<(), EmuFault>(()) && final(self)@ == spec_store(
                old(self)@,
                address@,
                data@,
            ),
            !spec_write_ok(address@) ==> r == Err::<(), EmuFault>(
                EmuFault::IllegalWrite { address: address@ },
            ) && final(self)@ == old(self)@,
    {
        match self.access(address, MemoryAccessType::Store, Some(data)) {
            Ok(_) => Ok(()),
            Err(fault) => Err(fault),
        }
    }

    /// Loads one byte; never fails, unmapped ranges read as zero.
    pub fn load(&mut self, address: doubleword) -> (r: word)
        requires
            old(self).wf(),
        ensures
            final(self)@ == old(self)@,
            r@ == spec_load(old(self)@, address@),
    {
        match self.access(address, MemoryAccessType::Load, None) {
            Ok(Some(w)) => w,
            _ => word::zero(),
        }
    }
}

} // verus!
