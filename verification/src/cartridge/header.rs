//! Parses the `0x0100..0x0150` cartridge header.

use vstd::prelude::*;
use crate::Error;

verus! {

#[derive(Debug, Clone)]
pub struct Header {
    pub title: String,
    pub cart_type: u8,
    pub rom_size_bytes: usize,
    pub ram_size_bytes: usize,
    pub cgb_flag: u8,
    pub sgb_flag: u8,
    pub header_checksum_ok: bool,
}

/// Title characters: the bytes up to the first zero, each read as one character.
pub open spec fn title_chars(s: Seq<u8>) -> Seq<char>
    decreases s.len(),
{
    if s.len() == 0 || s[0] == 0 {
        Seq::empty()
    } else {
        seq![s[0] as char] + title_chars(s.drop_first())
    }
}

/// Sum of the bytes of `s`.
pub open spec fn byte_sum(s: Seq<u8>) -> int
    decreases s.len(),
{
    if s.len() == 0 {
        0
    } else {
        byte_sum(s.drop_last()) + s.last()
    }
}

/// Header checksum over `0x134..=0x14C`: start at 0 and subtract each byte plus one,
/// modulo 256.
pub open spec fn header_checksum(rom: Seq<u8>) -> u8 {
    ((0 - byte_sum(rom.subrange(0x134, 0x14D)) - 25) % 256) as u8
}

/// RAM size in bytes encoded by header byte `0x149`.
pub open spec fn ram_size_for(code: u8) -> usize {
    if code == 0x01 {
        0x800
    } else if code == 0x02 {
        0x2000
    } else if code == 0x03 {
        0x8000
    } else if code == 0x04 {
        0x20000
    } else if code == 0x05 {
        0x10000
    } else {
        0
    }
}

/// Cartridge types whose external RAM is battery-backed.
pub open spec fn battery_type(t: u8) -> bool {
    t == 0x03 || t == 0x06 || t == 0x09 || t == 0x0D || t == 0x0F || t == 0x10 || t == 0x13
        || t == 0x1B || t == 0x1E || t == 0x22 || t == 0xFF
}

/// The header that `parse` returns for a ROM of at least `0x150` bytes.
pub open spec fn header_fields_of(h: Header, rom: Seq<u8>) -> bool {
    &&& h.title@ == title_chars(rom.subrange(0x134, 0x144))
    &&& h.cart_type == rom[0x147]
    &&& h.rom_size_bytes == ((0x8000u64 << rom[0x148]) as usize)
    &&& h.ram_size_bytes == ram_size_for(rom[0x149])
    &&& h.cgb_flag == rom[0x143]
    &&& h.sgb_flag == rom[0x146]
    &&& h.header_checksum_ok == (header_checksum(rom) == rom[0x14D])
}

#[verifier::external_body]
fn push_char(s: &mut String, c: char)
    ensures final(s)@ == old(s)@.push(c),
{
    s.push(c);
}

fn ram_size_of(code: u8) -> (r: usize)
    ensures r == ram_size_for(code),
{
    if code == 0x01 {
        2 * 1024
    } else if code == 0x02 {
        8 * 1024
    } else if code == 0x03 {
        32 * 1024
    } else if code == 0x04 {
        128 * 1024
    } else if code == 0x05 {
        64 * 1024
    } else {
        0
    }
}

proof fn lemma_title_step(s: Seq<u8>, i: int)
    requires
        0 <= i < s.len(),
        forall|j: int| 0 <= j < i ==> s[j] != 0,
    ensures
        s[i] != 0 ==> title_chars(s.subrange(0, i + 1)) == title_chars(s.subrange(0, i)).push(s[i] as char),
        s[i] == 0 ==> title_chars(s) == title_chars(s.subrange(0, i)),
    decreases i,
{
    if i == 0 {
        assert(title_chars(s.subrange(0, 0)) == Seq::<char>::empty());
        if s[0] != 0 {
            let one = s.subrange(0, 1);
            assert(one.drop_first() =~= Seq::<u8>::empty());
            assert(one[0] == s[0]);
            assert(title_chars(one.drop_first()) == Seq::<char>::empty());
            assert(title_chars(one) =~= seq![s[0] as char]);
            assert(Seq::<char>::empty().push(s[0] as char) =~= seq![s[0] as char]);
        }
    } else {
        let t = s.drop_first();
        lemma_title_step(t, i - 1);
        assert(s.subrange(0, i + 1).drop_first() =~= t.subrange(0, i));
        assert(s.subrange(0, i).drop_first() =~= t.subrange(0, i - 1));
        assert(title_chars(s.subrange(0, i + 1)) == seq![s[0] as char] + title_chars(t.subrange(0, i)));
        assert(title_chars(s.subrange(0, i)) == seq![s[0] as char] + title_chars(t.subrange(0, i - 1)));
        if s[i] != 0 {
            assert(seq![s[0] as char] + title_chars(t.subrange(0, i - 1)).push(t[i - 1] as char)
                =~= (seq![s[0] as char] + title_chars(t.subrange(0, i - 1))).push(s[i] as char));
        }
    }
}

proof fn lemma_title_full(s: Seq<u8>)
    requires forall|j: int| 0 <= j < s.len() ==> s[j] != 0,
    ensures title_chars(s.subrange(0, s.len() as int)) == title_chars(s),
{
    assert(s.subrange(0, s.len() as int) =~= s);
}

impl Header {
    /// Reads the header fields. Fails with `InvalidRom` when the ROM is shorter than
    /// `0x150` bytes.
    pub fn parse(rom: &[u8]) -> (r: Result<Header, Error>)
        requires rom@.len() >= 0x150 ==> rom@[0x148] < 64,
        ensures
            rom@.len() < 0x150 <==> r is Err,
            r matches Err(e) ==> e == Error::InvalidRom("ROM too small for header"),
            r matches Ok(h) ==> header_fields_of(h, rom@),
    {
        if rom.len() < 0x0150 {
            return Err(Error::InvalidRom("ROM too small for header"));
        }
        let ghost tb = rom@.subrange(0x134, 0x144);
        let mut title = String::new();
        let mut i: usize = 0x134;
        while i < 0x144 && rom[i] != 0
            invariant
                0x134 <= i <= 0x144,
                rom@.len() >= 0x150,
                tb == rom@.subrange(0x134, 0x144),
                forall|j: int| 0 <= j < i - 0x134 ==> tb[j] != 0,
                title@ == title_chars(tb.subrange(0, i - 0x134)),
            decreases 0x144 - i,
        {
            let b = rom[i];
            proof { lemma_title_step(tb, i - 0x134); }
            push_char(&mut title, b as char);
            i = i + 1;
        }
        proof {
            if i < 0x144 {
                lemma_title_step(tb, i - 0x134);
            } else {
                lemma_title_full(tb);
            }
        }

        let cart_type = rom[0x0147];
        let rom_size_bytes = (0x8000u64 << rom[0x0148]) as usize;
        let ram_size_bytes = ram_size_of(rom[0x0149]);

        let mut acc: u8 = 0;
        let mut k: usize = 0x134;
        while k <= 0x14C
            invariant
                0x134 <= k <= 0x14D,
                rom@.len() >= 0x150,
                acc == ((0 - byte_sum(rom@.subrange(0x134, k as int)) - (k - 0x134)) % 256) as u8,
            decreases 0x14D - k,
        {
            let b = rom[k];
            proof {
                assert(rom@.subrange(0x134, k + 1).drop_last() =~= rom@.subrange(0x134, k as int));
            }
            acc = ((acc as u16 + 512 - b as u16 - 1) % 256) as u8;
            k = k + 1;
        }
        let header_checksum_ok = acc == rom[0x014D];

        Ok(Header {
            title,
            cart_type,
            rom_size_bytes,
            ram_size_bytes,
            cgb_flag: rom[0x0143],
            sgb_flag: rom[0x0146],
            header_checksum_ok,
        })
    }

    /// `true` when the header advertises CGB support (`0x80`) or requires it (`0xC0`).
    pub fn is_cgb(&self) -> (r: bool)
        ensures r == (self.cgb_flag & 0x80 != 0),
    {
        self.cgb_flag & 0x80 != 0
    }

    /// `true` when the header marks the cartridge as CGB-only (`0xC0`).
    pub fn is_cgb_only(&self) -> (r: bool)
        ensures r == (self.cgb_flag == 0xC0),
    {
        self.cgb_flag == 0xC0
    }

    /// `true` when the cartridge type includes a battery for its RAM.
    pub fn has_battery(&self) -> (r: bool)
        ensures r == battery_type(self.cart_type),
    {
        let t = self.cart_type;
        t == 0x03 || t == 0x06 || t == 0x09 || t == 0x0D || t == 0x0F || t == 0x10 || t == 0x13
            || t == 0x1B || t == 0x1E || t == 0x22 || t == 0xFF
    }
}

} // verus!
