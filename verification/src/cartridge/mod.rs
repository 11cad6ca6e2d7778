//! Cartridge header parsing and memory bank controller dispatch.

use vstd::prelude::*;

pub mod header;
pub mod mbc_none;
pub mod mbc1;
pub mod mbc2;
pub mod mbc3;
pub mod mbc5;

pub use header::Header;

verus! {

/// Byte `off` of `v`, or `0xFF` (open bus) when `off` is outside it.
pub open spec fn byte_or_ff(v: Seq<u8>, off: int) -> u8 {
    if 0 <= off < v.len() {
        v[off]
    } else {
        0xFF
    }
}

/// `ram` with its first bytes replaced by `data`; bytes of `data` beyond the end
/// of `ram` are ignored.
pub open spec fn loaded(ram: Seq<u8>, data: Seq<u8>) -> Seq<u8> {
    Seq::new(ram.len(), |i: int| if i < data.len() { data[i] } else { ram[i] })
}

/// `v` with byte `off` replaced by `val` when `off` lies inside it.
pub open spec fn stored(v: Seq<u8>, off: int, val: u8) -> Seq<u8> {
    if 0 <= off < v.len() {
        v.update(off, val)
    } else {
        v
    }
}

pub fn byte_at(v: &Vec<u8>, off: u128) -> (r: u8)
    ensures r == byte_or_ff(v@, off as int),
{
    if off < v.len() as u128 {
        v[off as usize]
    } else {
        0xFF
    }
}

pub fn store_at(v: &mut Vec<u8>, off: u128, val: u8)
    ensures final(v)@ == stored(old(v)@, off as int, val),
{
    if off < v.len() as u128 {
        v.set(off as usize, val);
    }
}

pub fn copy_prefix(ram: &mut Vec<u8>, data: &[u8])
    ensures final(ram)@ == loaded(old(ram)@, data@),
{
    let n = if data.len() < ram.len() { data.len() } else { ram.len() };
    let ghost r0 = ram@;
    let mut i: usize = 0;
    while i < n
        invariant
            n <= data@.len(),
            n <= r0.len(),
            i <= n,
            ram@.len() == r0.len(),
            forall|j: int| 0 <= j < i ==> ram@[j] == data@[j],
            forall|j: int| i <= j < r0.len() ==> ram@[j] == r0[j],
        decreases n - i,
    {
        ram.set(i, data[i]);
        i = i + 1;
    }
    assert(ram@ =~= loaded(r0, data@));
}

pub fn zeroed(n: usize) -> (v: Vec<u8>)
    ensures v@ == Seq::new(n as nat, |i: int| 0u8),
{
    let mut v: Vec<u8> = Vec::new();
    let mut i: usize = 0;
    while i < n
        invariant
            i <= n,
            v@ == Seq::new(i as nat, |j: int| 0u8),
        decreases n - i,
    {
        v.push(0);
        i = i + 1;
        assert(v@ =~= Seq::new(i as nat, |j: int| 0u8));
    }
    v
}

/// `x & m` never exceeds `m`.
pub proof fn lemma_and_le(x: usize, m: usize)
    ensures x & m <= m,
{
    assert(x & m <= m) by (bit_vector);
}

} // verus!

use crate::Error;
use header::{header_fields_of, battery_type};
use mbc_none::MbcNone;
use mbc1::{Mbc1, Mbc1View};
use mbc2::{Mbc2, Mbc2View};
use mbc3::{Mbc3, Mbc3View, ClockReads};
use mbc5::{Mbc5, Mbc5View};

verus! {

/// Interface shared by the memory bank controllers.
pub trait Mapper {
    /// The controller's own well-formedness.
    spec fn mapper_wf(&self) -> bool;

    fn read_rom(&self, addr: u16) -> u8;

    fn write_rom(&mut self, addr: u16, val: u8);

    fn read_ram(&self, addr: u16) -> u8
        requires 0xA000 <= addr, self.mapper_wf();

    fn write_ram(&mut self, addr: u16, val: u8)
        requires 0xA000 <= addr, old(self).mapper_wf();

    /// External RAM contents, when the cartridge has any (for battery saves).
    fn ram(&self) -> Option<&[u8]>;

    /// Reloads external RAM from a save; sizes that differ are clamped.
    fn load_ram(&mut self, data: &[u8])
        requires old(self).mapper_wf();
}

impl Mapper for MbcNone {
    open spec fn mapper_wf(&self) -> bool {
        true
    }

    fn read_rom(&self, addr: u16) -> (r: u8)
        ensures r == self.spec_read_rom(addr),
    {
        MbcNone::read_rom(self, addr)
    }

    fn write_rom(&mut self, addr: u16, val: u8)
        ensures final(self).rom@ == old(self).rom@,
    {
    }

    fn read_ram(&self, addr: u16) -> (r: u8)
        ensures r == 0xFF,
    {
        0xFF
    }

    fn write_ram(&mut self, addr: u16, val: u8)
        ensures final(self).rom@ == old(self).rom@,
    {
    }

    fn ram(&self) -> (r: Option<&[u8]>)
        ensures r is None,
    {
        None
    }

    fn load_ram(&mut self, data: &[u8])
        ensures final(self).rom@ == old(self).rom@,
    {
    }
}

impl Mapper for Mbc1 {
    open spec fn mapper_wf(&self) -> bool {
        true
    }

    fn read_rom(&self, addr: u16) -> (r: u8)
        ensures r == self@.read_rom(addr),
    {
        Mbc1::read_rom(self, addr)
    }

    fn write_rom(&mut self, addr: u16, val: u8)
        ensures final(self)@ == old(self)@.write_rom(addr, val),
    {
        Mbc1::write_rom(self, addr, val)
    }

    fn read_ram(&self, addr: u16) -> (r: u8)
        ensures r == self@.read_ram(addr),
    {
        Mbc1::read_ram(self, addr)
    }

    fn write_ram(&mut self, addr: u16, val: u8)
        ensures final(self)@ == old(self)@.write_ram(addr, val),
    {
        Mbc1::write_ram(self, addr, val)
    }

    fn ram(&self) -> (r: Option<&[u8]>)
        ensures
            r is Some <==> self.ram@.len() > 0,
            r matches Some(s) ==> s@ == self.ram@,
    {
        if self.ram.len() == 0 { None } else { Some(self.ram.as_slice()) }
    }

    fn load_ram(&mut self, data: &[u8])
        ensures final(self)@ == old(self)@.load_ram(data@),
    {
        Mbc1::load_ram(self, data)
    }
}

impl Mapper for Mbc2 {
    open spec fn mapper_wf(&self) -> bool {
        self@.wf()
    }

    fn read_rom(&self, addr: u16) -> (r: u8)
        ensures r == self@.read_rom(addr),
    {
        Mbc2::read_rom(self, addr)
    }

    fn write_rom(&mut self, addr: u16, val: u8)
        ensures final(self)@ == old(self)@.write_rom(addr, val),
    {
        Mbc2::write_rom(self, addr, val)
    }

    fn read_ram(&self, addr: u16) -> (r: u8)
        ensures r == self@.read_ram(addr),
    {
        Mbc2::read_ram(self, addr)
    }

    fn write_ram(&mut self, addr: u16, val: u8)
        ensures final(self)@ == old(self)@.write_ram(addr, val),
    {
        Mbc2::write_ram(self, addr, val)
    }

    fn ram(&self) -> (r: Option<&[u8]>)
        ensures r matches Some(s) && s@ == self.ram@,
    {
        Some(self.ram.as_slice())
    }

    fn load_ram(&mut self, data: &[u8])
        ensures final(self)@ == old(self)@.load_ram(data@),
    {
        Mbc2::load_ram(self, data)
    }
}

impl Mapper for Mbc3 {
    open spec fn mapper_wf(&self) -> bool {
        true
    }

    fn read_rom(&self, addr: u16) -> (r: u8)
        ensures r == self@.read_rom(addr),
    {
        Mbc3::read_rom(self, addr)
    }

    fn write_rom(&mut self, addr: u16, val: u8)
        ensures exists|now: u128| final(self)@ == old(self)@.write_rom(addr, val, now),
    {
        Mbc3::write_rom(self, addr, val)
    }

    fn read_ram(&self, addr: u16) -> (r: u8)
        ensures r == self@.read_ram(addr),
    {
        Mbc3::read_ram(self, addr)
    }

    fn write_ram(&mut self, addr: u16, val: u8)
        ensures exists|t: ClockReads| final(self)@ == old(self)@.write_ram(addr, val, t),
    {
        Mbc3::write_ram(self, addr, val)
    }

    fn ram(&self) -> (r: Option<&[u8]>)
        ensures
            r is Some <==> self.ram@.len() > 0,
            r matches Some(s) ==> s@ == self.ram@,
    {
        if self.ram.len() == 0 { None } else { Some(self.ram.as_slice()) }
    }

    fn load_ram(&mut self, data: &[u8])
        ensures final(self)@ == old(self)@.load_ram(data@),
    {
        Mbc3::load_ram(self, data)
    }
}

impl Mapper for Mbc5 {
    open spec fn mapper_wf(&self) -> bool {
        true
    }

    fn read_rom(&self, addr: u16) -> (r: u8)
        ensures r == self@.read_rom(addr),
    {
        Mbc5::read_rom(self, addr)
    }

    fn write_rom(&mut self, addr: u16, val: u8)
        ensures final(self)@ == old(self)@.write_rom(addr, val),
    {
        Mbc5::write_rom(self, addr, val)
    }

    fn read_ram(&self, addr: u16) -> (r: u8)
        ensures r == self@.read_ram(addr),
    {
        Mbc5::read_ram(self, addr)
    }

    fn write_ram(&mut self, addr: u16, val: u8)
        ensures final(self)@ == old(self)@.write_ram(addr, val),
    {
        Mbc5::write_ram(self, addr, val)
    }

    fn ram(&self) -> (r: Option<&[u8]>)
        ensures
            r is Some <==> self.ram@.len() > 0,
            r matches Some(s) ==> s@ == self.ram@,
    {
        if self.ram.len() == 0 { None } else { Some(self.ram.as_slice()) }
    }

    fn load_ram(&mut self, data: &[u8])
        ensures final(self)@ == old(self)@.load_ram(data@),
    {
        Mbc5::load_ram(self, data)
    }
}

/// The controller fitted to a cartridge.
pub enum MapperKind {
    RomOnly(MbcNone),
    Mbc1(Mbc1),
    Mbc2(Mbc2),
    Mbc3(Mbc3),
    Mbc5(Mbc5),
}

pub enum MapperView {
    RomOnly(Seq<u8>),
    Mbc1(Mbc1View),
    Mbc2(Mbc2View),
    Mbc3(Mbc3View),
    Mbc5(Mbc5View),
}

pub struct Cartridge {
    pub header: Header,
    pub mapper: MapperKind,
}

pub struct CartridgeView {
    pub header: Header,
    pub mapper: MapperView,
}

impl View for MapperKind {
    type V = MapperView;

    open spec fn view(&self) -> MapperView {
        match self {
            MapperKind::RomOnly(m) => MapperView::RomOnly(m.rom@),
            MapperKind::Mbc1(m) => MapperView::Mbc1(m@),
            MapperKind::Mbc2(m) => MapperView::Mbc2(m@),
            MapperKind::Mbc3(m) => MapperView::Mbc3(m@),
            MapperKind::Mbc5(m) => MapperView::Mbc5(m@),
        }
    }
}

impl View for Cartridge {
    type V = CartridgeView;

    open spec fn view(&self) -> CartridgeView {
        CartridgeView { header: self.header, mapper: self.mapper@ }
    }
}

impl CartridgeView {
    pub open spec fn wf(self) -> bool {
        self.mapper matches MapperView::Mbc2(m) ==> m.wf()
    }

    pub open spec fn read_rom(self, addr: u16) -> u8 {
        match self.mapper {
            MapperView::RomOnly(rom) => byte_or_ff(rom, addr as int),
            MapperView::Mbc1(m) => m.read_rom(addr),
            MapperView::Mbc2(m) => m.read_rom(addr),
            MapperView::Mbc3(m) => m.read_rom(addr),
            MapperView::Mbc5(m) => m.read_rom(addr),
        }
    }

    /// A write to the ROM region (controller registers). `now` is the clock reading an
    /// MBC3 latch uses; no other controller looks at it.
    pub open spec fn write_rom(self, addr: u16, val: u8, now: u128) -> CartridgeView {
        CartridgeView {
            mapper: match self.mapper {
                MapperView::RomOnly(rom) => MapperView::RomOnly(rom),
                MapperView::Mbc1(m) => MapperView::Mbc1(m.write_rom(addr, val)),
                MapperView::Mbc2(m) => MapperView::Mbc2(m.write_rom(addr, val)),
                MapperView::Mbc3(m) => MapperView::Mbc3(m.write_rom(addr, val, now)),
                MapperView::Mbc5(m) => MapperView::Mbc5(m.write_rom(addr, val)),
            },
            ..self
        }
    }

    pub open spec fn read_ram(self, addr: u16) -> u8 {
        match self.mapper {
            MapperView::RomOnly(rom) => 0xFF,
            MapperView::Mbc1(m) => m.read_ram(addr),
            MapperView::Mbc2(m) => m.read_ram(addr),
            MapperView::Mbc3(m) => m.read_ram(addr),
            MapperView::Mbc5(m) => m.read_ram(addr),
        }
    }

    /// A write to the RAM region. `t` are the clock readings an MBC3 RTC register
    /// write uses; no other controller looks at them.
    pub open spec fn write_ram(self, addr: u16, val: u8, t: ClockReads) -> CartridgeView {
        CartridgeView {
            mapper: match self.mapper {
                MapperView::RomOnly(rom) => MapperView::RomOnly(rom),
                MapperView::Mbc1(m) => MapperView::Mbc1(m.write_ram(addr, val)),
                MapperView::Mbc2(m) => MapperView::Mbc2(m.write_ram(addr, val)),
                MapperView::Mbc3(m) => MapperView::Mbc3(m.write_ram(addr, val, t)),
                MapperView::Mbc5(m) => MapperView::Mbc5(m.write_ram(addr, val)),
            },
            ..self
        }
    }

    /// External RAM, when the controller has a non-empty one.
    pub open spec fn ram(self) -> Option<Seq<u8>> {
        match self.mapper {
            MapperView::RomOnly(rom) => None,
            MapperView::Mbc1(m) => if m.ram.len() == 0 { None } else { Some(m.ram) },
            MapperView::Mbc2(m) => Some(m.ram),
            MapperView::Mbc3(m) => if m.ram.len() == 0 { None } else { Some(m.ram) },
            MapperView::Mbc5(m) => if m.ram.len() == 0 { None } else { Some(m.ram) },
        }
    }

    pub open spec fn load_ram(self, data: Seq<u8>) -> CartridgeView {
        CartridgeView {
            mapper: match self.mapper {
                MapperView::RomOnly(rom) => MapperView::RomOnly(rom),
                MapperView::Mbc1(m) => MapperView::Mbc1(m.load_ram(data)),
                MapperView::Mbc2(m) => MapperView::Mbc2(m.load_ram(data)),
                MapperView::Mbc3(m) => MapperView::Mbc3(m.load_ram(data)),
                MapperView::Mbc5(m) => MapperView::Mbc5(m.load_ram(data)),
            },
            ..self
        }
    }
}

/// Loading a save into a cartridge with RAM keeps the RAM's size, takes the first
/// bytes of the save (MBC2 keeps their low nibble), and leaves the bytes past the
/// save's end as they were; the rest of the cartridge is unchanged.
pub proof fn lemma_load_ram(c: CartridgeView, data: Seq<u8>)
    requires
        c.ram() is Some,
    ensures
        c.load_ram(data).ram() is Some,
        ({
            let r0 = c.ram().unwrap();
            let r = c.load_ram(data).ram().unwrap();
            &&& r.len() == r0.len()
            &&& forall|i: int| 0 <= i < r0.len() ==> #[trigger] r[i] == (if i < data.len() {
                if c.mapper is Mbc2 { data[i] & 0x0F } else { data[i] }
            } else {
                r0[i]
            })
        }),
        c.load_ram(data).header == c.header,
        forall|a: u16| #[trigger] c.load_ram(data).read_rom(a) == c.read_rom(a),
{
}

/// A freshly fitted controller shows the ROM's first 16 KiB as they are at
/// `0x0000..=0x3FFF` (bytes past the end of a short ROM read `0xFF`).
pub proof fn lemma_initial_bank0(t: u8, rom: Seq<u8>, ram_size: usize, now: u128, h: Header, a: u16)
    requires
        supported_type(t),
        a < 0x4000,
    ensures
        (CartridgeView { header: h, mapper: initial_mapper(t, rom, ram_size, now) }).read_rom(a)
            == byte_or_ff(rom, a as int),
{
}

/// Cartridge types this core implements.
pub open spec fn supported_type(t: u8) -> bool {
    t == 0x00 || (0x01 <= t <= 0x03) || t == 0x05 || t == 0x06 || (0x0F <= t <= 0x13) || (0x19 <= t <= 0x1E)
}

/// The controller state a freshly loaded cartridge of type `t` starts in; `now` is the
/// first clock reading of an MBC3.
pub open spec fn initial_mapper(t: u8, rom: Seq<u8>, ram_size: usize, now: u128) -> MapperView {
    let mask = ((if rom.len() / 0x4000 >= 1 { rom.len() / 0x4000 } else { 1 }) - 1) as usize;
    let zeros = Seq::new(ram_size as nat, |i: int| 0u8);
    if t == 0x00 {
        MapperView::RomOnly(rom)
    } else if 0x01 <= t <= 0x03 {
        MapperView::Mbc1(Mbc1View {
            rom: rom, ram: zeros, rom_bank_mask: mask, ram_bank_count: ram_size / 0x2000,
            ram_enable: false, bank1: 1, bank2: 0, mode: 0,
        })
    } else if t == 0x05 || t == 0x06 {
        MapperView::Mbc2(Mbc2View { rom: rom, ram: Seq::new(512, |i: int| 0u8), rom_bank: 1 })
    } else if 0x0F <= t <= 0x13 {
        MapperView::Mbc3(Mbc3View::initial(rom, ram_size, now))
    } else {
        MapperView::Mbc5(Mbc5View {
            rom: rom, ram: zeros, rom_bank_mask: mask, ram_bank_count: ram_size / 0x2000,
            ram_enable: false, rom_bank_lo: 1, rom_bank_hi: 0, ram_bank: 0,
        })
    }
}

impl Cartridge {
    /// Loads a ROM image: parses the header and fits the controller its type byte names.
    pub fn from_rom(rom: Vec<u8>) -> (r: Result<Cartridge, Error>)
        requires rom@.len() >= 0x150 ==> rom@[0x148] < 64,
        ensures
            r is Ok <==> rom@.len() >= 0x150 && supported_type(rom@[0x147]),
            rom@.len() < 0x150 ==> (r matches Err(Error::InvalidRom(msg)) && msg == "ROM too small to contain header"),
            rom@.len() >= 0x150 && !supported_type(rom@[0x147])
                ==> (r matches Err(Error::UnsupportedCartridge(t)) && t == rom@[0x147]),
            r matches Ok(c) ==> header_fields_of(c.header, rom@) && c@.wf()
                && exists|now: u128| c@.mapper == initial_mapper(rom@[0x147], rom@, c.header.ram_size_bytes, now),
    {
        if rom.len() < 0x0150 {
            return Err(Error::InvalidRom("ROM too small to contain header"));
        }
        let header = match Header::parse(rom.as_slice()) {
            Ok(h) => h,
            Err(e) => return Err(e),
        };
        let t = header.cart_type;
        let ram_size = header.ram_size_bytes;
        let ghost rom0 = rom@;
        let mapper = if t == 0x00 {
            MapperKind::RomOnly(MbcNone::new(rom))
        } else if 0x01 <= t && t <= 0x03 {
            MapperKind::Mbc1(Mbc1::new(rom, ram_size))
        } else if t == 0x05 || t == 0x06 {
            MapperKind::Mbc2(Mbc2::new(rom))
        } else if 0x0F <= t && t <= 0x13 {
            let m = Mbc3::new(rom, ram_size);
            proof {
                let now = choose|now: u128| m@ == Mbc3View::initial(rom0, ram_size, now);
                assert(MapperKind::Mbc3(m)@ == initial_mapper(t, rom0, ram_size, now));
            }
            MapperKind::Mbc3(m)
        } else if 0x19 <= t && t <= 0x1E {
            MapperKind::Mbc5(Mbc5::new(rom, ram_size))
        } else {
            return Err(Error::UnsupportedCartridge(t));
        };
        proof {
            if !(0x0F <= t && t <= 0x13) {
                assert(mapper@ == initial_mapper(t, rom0, ram_size, 0));
            }
        }
        Ok(Cartridge { header, mapper })
    }

    pub fn read_rom(&self, addr: u16) -> (r: u8)
        ensures r == self@.read_rom(addr),
    {
        match &self.mapper {
            MapperKind::RomOnly(m) => m.read_rom(addr),
            MapperKind::Mbc1(m) => m.read_rom(addr),
            MapperKind::Mbc2(m) => m.read_rom(addr),
            MapperKind::Mbc3(m) => m.read_rom(addr),
            MapperKind::Mbc5(m) => m.read_rom(addr),
        }
    }

    pub fn write_rom(&mut self, addr: u16, val: u8)
        ensures exists|now: u128| final(self)@ == old(self)@.write_rom(addr, val, now),
    {
        match &mut self.mapper {
            MapperKind::RomOnly(m) => {
                assert(self@ == old(self)@.write_rom(addr, val, 0));
            }
            MapperKind::Mbc1(m) => {
                m.write_rom(addr, val);
                assert(self@ == old(self)@.write_rom(addr, val, 0));
            }
            MapperKind::Mbc2(m) => {
                m.write_rom(addr, val);
                assert(self@ == old(self)@.write_rom(addr, val, 0));
            }
            MapperKind::Mbc3(m) => {
                let ghost om = m@;
                m.write_rom(addr, val);
                let ghost now = choose|now: u128| m@ == om.write_rom(addr, val, now);
                assert(self@ == old(self)@.write_rom(addr, val, now));
            }
            MapperKind::Mbc5(m) => {
                m.write_rom(addr, val);
                assert(self@ == old(self)@.write_rom(addr, val, 0));
            }
        }
    }

    pub fn read_ram(&self, addr: u16) -> (r: u8)
        requires 0xA000 <= addr, self@.wf(),
        ensures r == self@.read_ram(addr),
    {
        match &self.mapper {
            MapperKind::RomOnly(m) => 0xFF,
            MapperKind::Mbc1(m) => m.read_ram(addr),
            MapperKind::Mbc2(m) => m.read_ram(addr),
            MapperKind::Mbc3(m) => m.read_ram(addr),
            MapperKind::Mbc5(m) => m.read_ram(addr),
        }
    }

    pub fn write_ram(&mut self, addr: u16, val: u8)
        requires 0xA000 <= addr, old(self)@.wf(),
        ensures
            final(self)@.wf(),
            exists|t: ClockReads| final(self)@ == old(self)@.write_ram(addr, val, t),
    {
        let ghost z: ClockReads = (0, 0, 0);
        match &mut self.mapper {
            MapperKind::RomOnly(m) => {
                assert(self@ == old(self)@.write_ram(addr, val, z));
            }
            MapperKind::Mbc1(m) => {
                m.write_ram(addr, val);
                assert(self@ == old(self)@.write_ram(addr, val, z));
            }
            MapperKind::Mbc2(m) => {
                m.write_ram(addr, val);
                assert(self@ == old(self)@.write_ram(addr, val, z));
            }
            MapperKind::Mbc3(m) => {
                let ghost om = m@;
                m.write_ram(addr, val);
                let ghost t = choose|t: ClockReads| m@ == om.write_ram(addr, val, t);
                assert(self@ == old(self)@.write_ram(addr, val, t));
            }
            MapperKind::Mbc5(m) => {
                m.write_ram(addr, val);
                assert(self@ == old(self)@.write_ram(addr, val, z));
            }
        }
    }

    /// Battery-backed external RAM contents (for save files).
    pub fn ram(&self) -> (r: Option<&[u8]>)
        ensures
            r is Some <==> self@.ram() is Some,
            r matches Some(s) ==> s@ == self@.ram().unwrap(),
    {
        match &self.mapper {
            MapperKind::RomOnly(m) => None,
            MapperKind::Mbc1(m) => if m.ram.len() == 0 { None } else { Some(m.ram.as_slice()) },
            MapperKind::Mbc2(m) => Some(m.ram.as_slice()),
            MapperKind::Mbc3(m) => if m.ram.len() == 0 { None } else { Some(m.ram.as_slice()) },
            MapperKind::Mbc5(m) => if m.ram.len() == 0 { None } else { Some(m.ram.as_slice()) },
        }
    }

    /// Replaces external RAM contents from a save file; sizes that differ are clamped.
    pub fn load_ram(&mut self, data: &[u8])
        requires old(self)@.wf(),
        ensures final(self)@ == old(self)@.load_ram(data@), final(self)@.wf(),
    {
        match &mut self.mapper {
            MapperKind::RomOnly(m) => {}
            MapperKind::Mbc1(m) => m.load_ram(data),
            MapperKind::Mbc2(m) => m.load_ram(data),
            MapperKind::Mbc3(m) => m.load_ram(data),
            MapperKind::Mbc5(m) => m.load_ram(data),
        }
    }

    /// `true` when the cartridge has battery-backed RAM that should be saved.
    pub fn has_battery(&self) -> (r: bool)
        ensures r == battery_type(self.header.cart_type),
    {
        self.header.has_battery()
    }
}

} // verus!
