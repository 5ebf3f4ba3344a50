use vstd::prelude::*;
use crate::bits::{lemma_u8_pcm_fields, lemma_u32_bits, lemma_u32_bytes, lemma_u8_bits, lemma_u8_shifts, lemma_u8_triple, lemma_usize_bits};
use crate::sound::rom::{read_byte, spec_read_byte, RomBank, RomView};

verus! {

/// Size of the SEGAPCM register RAM.
pub const SEGAPCM_RAM: usize = 0x800;

/// Number of SEGAPCM channels.
pub const SEGAPCM_CHANNELS: usize = 16;

/// What one output sample does to one active channel: its (left, right)
/// contribution, if it plays, and the new values of its address and flag
/// registers and of its address low byte.
pub struct SegaPcmVoiceStep {
    pub out: Option<(i32, i32)>,
    pub reg84: u8,
    pub reg85: u8,
    pub reg86: u8,
    pub low: u8,
}

/// The 24-bit play address held in registers 0x85, 0x84 and the low byte.
pub open spec fn spec_segapcm_address(cur_lo: u8, cur_hi: u8, low: u8) -> int {
    cur_hi as int * 0x10000 + cur_lo as int * 0x100 + low as int
}

/// Whether an active channel stops at this sample: it reached its end
/// page and looping is disabled (flag bit 1).
pub open spec fn spec_segapcm_stops(end_reg: u8, cur_lo: u8, cur_hi: u8, flags: u8, low: u8) -> bool {
    spec_segapcm_address(cur_lo, cur_hi, low) / 0x10000 == end_reg as int + 1 && flags & 2 != 0
}

/// One sample of an active channel, from its registers: at the end page it
/// either stops (setting the disable bit) or jumps to the loop address; it
/// then reads the ROM byte at the bank offset plus the address's middle
/// bytes, outputs it (unsigned, biased by 0x80) times each 7-bit volume, and
/// advances the address by the delta register, modulo 2^24.
pub open spec fn spec_segapcm_voice(
    vol_l: u8,
    vol_r: u8,
    loop_lo: u8,
    loop_hi: u8,
    end_reg: u8,
    delta: u8,
    cur_lo: u8,
    cur_hi: u8,
    flags: u8,
    low: u8,
    roms: Seq<RomView>,
    bus: Option<(u8, u8, Seq<u8>)>,
) -> SegaPcmVoiceStep {
    let addr = spec_segapcm_address(cur_lo, cur_hi, low);
    if spec_segapcm_stops(end_reg, cur_lo, cur_hi, flags, low) {
        SegaPcmVoiceStep { out: None, reg84: cur_lo, reg85: cur_hi, reg86: flags | 1, low: 0 }
    } else {
        let a = if addr / 0x10000 == end_reg as int + 1 { loop_hi as int * 0x10000 + loop_lo as int * 0x100 } else { addr };
        let bank = (flags & 0x70) as int * 0x1000;
        let v = spec_read_byte(roms, bus, (bank + a / 0x100) as usize) as int - 0x80;
        let next = (a + delta as int) % 0x1000000;
        SegaPcmVoiceStep {
            out: Some(((v * (vol_l & 0x7f) as int) as i32, (v * (vol_r & 0x7f) as int) as i32)),
            reg84: ((next / 0x100) % 0x100) as u8,
            reg85: (next / 0x10000) as u8,
            reg86: flags,
            low: (next % 0x100) as u8,
        }
    }
}

/// Whether channel `ch` is active (bit 0 of its flag register clear).
pub open spec fn spec_segapcm_active(ram: Seq<u8>, ch: int) -> bool {
    ram[ch * 8 + 0x86] & 1 == 0
}

/// One sample of channel `ch`, read from the register RAM.
pub open spec fn spec_segapcm_channel(
    ram: Seq<u8>,
    low: Seq<u8>,
    ch: int,
    roms: Seq<RomView>,
    bus: Option<(u8, u8, Seq<u8>)>,
) -> SegaPcmVoiceStep {
    let b = ch * 8;
    spec_segapcm_voice(ram[b + 2], ram[b + 3], ram[b + 4], ram[b + 5], ram[b + 6], ram[b + 7],
        ram[b + 0x84], ram[b + 0x85], ram[b + 0x86], low[ch], roms, bus)
}

/// Whether channel `ch` reads the ROM at the next sample.
pub open spec fn spec_segapcm_reads_rom(ram: Seq<u8>, low: Seq<u8>, ch: int) -> bool {
    let b = ch * 8;
    spec_segapcm_active(ram, ch) && !spec_segapcm_stops(ram[b + 6], ram[b + 0x84], ram[b + 0x85], ram[b + 0x86], low[ch])
}

/// The channel whose address or flag register sits at RAM index `i`, or -1.
pub open spec fn spec_segapcm_owner(i: int) -> int {
    if 0x84 <= i < 0x84 + 0x80 && (i - 0x84) % 8 < 3 { (i - 0x84) / 8 } else { -1 }
}

/// RAM index `i` after one sample.
pub open spec fn spec_segapcm_ram_after(
    ram: Seq<u8>,
    low: Seq<u8>,
    i: int,
    roms: Seq<RomView>,
    bus: Option<(u8, u8, Seq<u8>)>,
) -> u8 {
    let ch = spec_segapcm_owner(i);
    if ch >= 0 && spec_segapcm_active(ram, ch) {
        let st = spec_segapcm_channel(ram, low, ch, roms, bus);
        if (i - 0x84) % 8 == 0 { st.reg84 } else if (i - 0x84) % 8 == 1 { st.reg85 } else { st.reg86 }
    } else {
        ram[i]
    }
}

/// The state of a SEGAPCM.
pub struct SegaPcmView {
    pub clock: u32,
    pub ram: Seq<u8>,
    pub low: Seq<u8>,
}

/// Sega PCM: 16 channels of 8-bit unsigned PCM read from banked ROM.
#[allow(clippy::upper_case_acronyms)]
pub struct SEGAPCM {
    clock: u32,
    ram: Vec<u8>,
    rombank: RomBank,
    bankshift: u8,
    bankmask: u8,
    low: Vec<u8>,
}

impl View for SEGAPCM {
    type V = SegaPcmView;

    closed spec fn view(&self) -> SegaPcmView {
        SegaPcmView { clock: self.clock, ram: self.ram@, low: self.low@ }
    }
}

impl SEGAPCM {
    pub closed spec fn wf(&self) -> bool {
        &&& self.ram@.len() == SEGAPCM_RAM
        &&& self.low@.len() == SEGAPCM_CHANNELS
        &&& self.bankshift == 12
        &&& self.bankmask == 0x70
        &&& self.rombank is Some ==> self.rombank->0.wf()
    }

    /// Whether the chip has been given a ROM set.
    pub closed spec fn has_rom(&self) -> bool {
        self.rombank is Some
    }

    /// The images of the chip's ROM set.
    pub closed spec fn roms(&self) -> Seq<RomView> {
        match self.rombank {
            Some(r) => r.roms(),
            None => Seq::empty(),
        }
    }

    /// The bus decoder of the chip's ROM set.
    pub closed spec fn bus(&self) -> Option<(u8, u8, Seq<u8>)> {
        match self.rombank {
            Some(r) => r.bus(),
            None => None,
        }
    }

    /// A chip with its RAM filled with 0xff (every channel disabled).
    pub fn from() -> (r: Self)
        ensures
            r.wf(),
            !r.has_rom(),
            r@.clock == 0,
            r@.ram == Seq::new(SEGAPCM_RAM as nat, |i: int| 0xffu8),
            r@.low == Seq::new(SEGAPCM_CHANNELS as nat, |i: int| 0u8),
    {
        SEGAPCM {
            clock: 0,
            bankshift: 12,
            bankmask: 0x70,
            ram: Self::filled_ram(),
            rombank: None,
            low: Self::cleared_low(),
        }
    }

    fn filled_ram() -> (r: Vec<u8>)
        ensures
            r@ == Seq::new(SEGAPCM_RAM as nat, |i: int| 0xffu8),
    {
        let mut ram: Vec<u8> = Vec::new();
        let mut i: usize = 0;
        while i < SEGAPCM_RAM
            invariant
                i <= SEGAPCM_RAM,
                ram@ == Seq::new(i as nat, |k: int| 0xffu8),
            decreases SEGAPCM_RAM - i,
        {
            ram.push(0xff);
            i = i + 1;
            assert(ram@ =~= Seq::new(i as nat, |k: int| 0xffu8));
        }
        ram
    }

    fn cleared_low() -> (r: Vec<u8>)
        ensures
            r@ == Seq::new(SEGAPCM_CHANNELS as nat, |i: int| 0u8),
    {
        let mut low: Vec<u8> = Vec::new();
        let mut i: usize = 0;
        while i < SEGAPCM_CHANNELS
            invariant
                i <= SEGAPCM_CHANNELS,
                low@ == Seq::new(i as nat, |k: int| 0u8),
            decreases SEGAPCM_CHANNELS - i,
        {
            low.push(0);
            i = i + 1;
            assert(low@ =~= Seq::new(i as nat, |k: int| 0u8));
        }
        low
    }

    /// Set the clock; the chip's output rate is the clock divided by 128.
    pub fn init(&mut self, clock: u32) -> (r: u32)
        requires
            old(self).wf(),
        ensures
            final(self).wf(),
            final(self)@ == (SegaPcmView { clock: clock, ..old(self)@ }),
            final(self).has_rom() == old(self).has_rom(),
            final(self).roms() == old(self).roms(),
            final(self).bus() == old(self).bus(),
            r == clock / 128,
    {
        self.clock = clock;
        self.clock / 128
    }

    /// Fill the RAM with 0xff and clear the address low bytes.
    pub fn reset(&mut self)
        requires
            old(self).wf(),
        ensures
            final(self).wf(),
            final(self)@ == (SegaPcmView {
                ram: Seq::new(SEGAPCM_RAM as nat, |i: int| 0xffu8),
                low: Seq::new(SEGAPCM_CHANNELS as nat, |i: int| 0u8),
                ..old(self)@
            }),
            final(self).has_rom() == old(self).has_rom(),
            final(self).roms() == old(self).roms(),
            final(self).bus() == old(self).bus(),
    {
        self.ram = Self::filled_ram();
        self.low = Self::cleared_low();
    }

    /// Write a RAM byte (the offset wraps at 0x800).
    pub fn write(&mut self, offset: u32, data: u8)
        requires
            old(self).wf(),
        ensures
            final(self).wf(),
            final(self)@ == (SegaPcmView { ram: old(self)@.ram.update((offset & 0x7ff) as int, data), ..old(self)@ }),
            final(self).has_rom() == old(self).has_rom(),
            final(self).roms() == old(self).roms(),
            final(self).bus() == old(self).bus(),
    {
        let idx: usize = offset as usize & 0x07ff;
        proof {
            lemma_u32_bytes(offset);
            lemma_usize_bits(offset as usize);
        }
        self.ram.set(idx, data);
    }

    /// One sample of channel `ch` (the chip is left as it is).
    fn channel_step(&self, ch: usize) -> (r: (Option<(i32, i32)>, u8, u8, u8, u8))
        requires
            self.wf(),
            ch < SEGAPCM_CHANNELS,
            spec_segapcm_active(self@.ram, ch as int),
            spec_segapcm_reads_rom(self@.ram, self@.low, ch as int) ==> self.has_rom(),
        ensures
            ({
                let st = spec_segapcm_channel(self@.ram, self@.low, ch as int, self.roms(), self.bus());
                r == (st.out, st.reg84, st.reg85, st.reg86, st.low)
            }),
    {
        let b: usize = ch * 8;
        let flags: u8 = self.ram[b + 0x86];
        let bank: usize = ((flags & self.bankmask) as usize) << self.bankshift;
        let hi: u32 = self.ram[b + 0x85] as u32;
        let mid: u32 = self.ram[b + 0x84] as u32;
        let lo: u32 = self.low[ch] as u32;
        let lhi: u32 = self.ram[b + 0x05] as u32;
        let lmid: u32 = self.ram[b + 0x04] as u32;
        let mut addr: u32 = hi << 16 | mid << 8 | lo;
        let loops: u32 = lhi << 16 | lmid << 8;
        let end: u32 = self.ram[b + 6] as u32 + 1;
        proof {
            lemma_u8_triple(self.ram@[b + 0x85], self.ram@[b + 0x84], self.low@[ch as int]);
            lemma_u8_shifts(self.ram@[b + 0x05], self.ram@[b + 0x04]);
            lemma_u32_bits(addr);
            lemma_u8_bits(flags);
        }
        if (addr >> 16) == end {
            if flags & 2 != 0 {
                return (None, mid as u8, hi as u8, flags | 1, 0);
            } else {
                addr = loops;
            }
        }
        proof {
            lemma_u32_bits(addr);
        }
        let byte: u8 = read_byte(&self.rombank, bank + (addr >> 8) as usize);
        let v: i32 = byte as i32 - 0x80;
        let vol_l: i32 = (self.ram[b + 2] & 0x7f) as i32;
        let vol_r: i32 = (self.ram[b + 3] & 0x7f) as i32;
        proof {
            let x = self.ram@[b + 2];
            let y = self.ram@[b + 3];
            lemma_u8_bits(x);
            lemma_u8_bits(y);
            assert(-128 * 127 <= v * vol_l <= 127 * 127) by (nonlinear_arith)
                requires -128 <= v <= 127, 0 <= vol_l <= 127;
            assert(-128 * 127 <= v * vol_r <= 127 * 127) by (nonlinear_arith)
                requires -128 <= v <= 127, 0 <= vol_r <= 127;
        }
        let out = Some((v * vol_l, v * vol_r));
        let next: u32 = (addr + self.ram[b + 7] as u32) & 0xffffff;
        proof {
            let d = self.ram@[b + 7] as u32;
            let sum: u32 = (addr + d) as u32;
            lemma_u32_bits(sum);
            lemma_u32_bits(next);
            lemma_u32_bytes(next);
        }
        (out, (next >> 8) as u8, (next >> 16) as u8, flags, next as u8)
    }
}

impl SEGAPCM {
    /// Produce one output sample: each active channel gives its (left, right)
    /// contribution, in channel order (`None` for a channel that is disabled
    /// or stops at this sample), and its address registers advance.
    #[verifier::rlimit(40)]
    pub fn update(&mut self) -> (r: Vec<Option<(i32, i32)>>)
        requires
            old(self).wf(),
            forall|ch: int| 0 <= ch < SEGAPCM_CHANNELS && #[trigger] spec_segapcm_reads_rom(old(self)@.ram, old(self)@.low, ch)
                ==> old(self).has_rom(),
        ensures
            final(self).wf(),
            final(self).has_rom() == old(self).has_rom(),
            final(self).roms() == old(self).roms(),
            final(self).bus() == old(self).bus(),
            final(self)@.clock == old(self)@.clock,
            final(self)@.ram.len() == SEGAPCM_RAM,
            forall|i: int| 0 <= i < SEGAPCM_RAM ==> #[trigger] final(self)@.ram[i] == spec_segapcm_ram_after(
                old(self)@.ram, old(self)@.low, i, old(self).roms(), old(self).bus()),
            final(self)@.low.len() == SEGAPCM_CHANNELS,
            r@.len() == SEGAPCM_CHANNELS,
            forall|ch: int| 0 <= ch < SEGAPCM_CHANNELS ==> {
                let st = spec_segapcm_channel(old(self)@.ram, old(self)@.low, ch, old(self).roms(), old(self).bus());
                if spec_segapcm_active(old(self)@.ram, ch) {
                    &&& #[trigger] r@[ch] == st.out
                    &&& final(self)@.low[ch] == st.low
                } else {
                    &&& r@[ch] is None
                    &&& final(self)@.low[ch] == old(self)@.low[ch]
                }
            },
    {
        let mut out: Vec<Option<(i32, i32)>> = Vec::new();
        let mut ch: usize = 0;
        while ch < SEGAPCM_CHANNELS
            invariant
                0 <= ch <= SEGAPCM_CHANNELS,
                self.wf(),
                old(self).wf(),
                self.clock == old(self).clock,
                self.rombank == old(self).rombank,
                out@.len() == ch,
                forall|i: int| 0 <= i < SEGAPCM_RAM ==> #[trigger] self.ram@[i] == if spec_segapcm_owner(i) < ch {
                    spec_segapcm_ram_after(old(self)@.ram, old(self)@.low, i, old(self).roms(), old(self).bus())
                } else {
                    old(self)@.ram[i]
                },
                forall|c: int| ch <= c < SEGAPCM_CHANNELS ==> #[trigger] self.low@[c] == old(self)@.low[c],
                forall|c: int| 0 <= c < ch ==> {
                    let st = spec_segapcm_channel(old(self)@.ram, old(self)@.low, c, old(self).roms(), old(self).bus());
                    if spec_segapcm_active(old(self)@.ram, c) {
                        &&& #[trigger] out@[c] == st.out
                        &&& self.low@[c] == st.low
                    } else {
                        &&& out@[c] is None
                        &&& self.low@[c] == old(self)@.low[c]
                    }
                },
                forall|c: int| 0 <= c < SEGAPCM_CHANNELS && #[trigger] spec_segapcm_reads_rom(old(self)@.ram, old(self)@.low, c)
                    ==> old(self).has_rom(),
            decreases SEGAPCM_CHANNELS - ch,
        {
            let b: usize = ch * 8;
            proof {
                assert(spec_segapcm_owner(b + 2) == -1);
                assert(spec_segapcm_owner(b + 3) == -1);
                assert(spec_segapcm_owner(b + 4) == -1);
                assert(spec_segapcm_owner(b + 5) == -1);
                assert(spec_segapcm_owner(b + 6) == -1);
                assert(spec_segapcm_owner(b + 7) == -1);
                assert(spec_segapcm_owner(b + 0x84) == ch);
                assert(spec_segapcm_owner(b + 0x85) == ch);
                assert(spec_segapcm_owner(b + 0x86) == ch);
                assert(self.ram@[b + 2] == old(self)@.ram[b + 2]);
                assert(self.ram@[b + 3] == old(self)@.ram[b + 3]);
                assert(self.ram@[b + 4] == old(self)@.ram[b + 4]);
                assert(self.ram@[b + 5] == old(self)@.ram[b + 5]);
                assert(self.ram@[b + 6] == old(self)@.ram[b + 6]);
                assert(self.ram@[b + 7] == old(self)@.ram[b + 7]);
                assert(self.ram@[b + 0x84] == old(self)@.ram[b + 0x84]);
                assert(self.ram@[b + 0x85] == old(self)@.ram[b + 0x85]);
                assert(self.ram@[b + 0x86] == old(self)@.ram[b + 0x86]);
                assert(self.low@[ch as int] == old(self)@.low[ch as int]);
                assert(spec_segapcm_channel(self@.ram, self@.low, ch as int, self.roms(), self.bus())
                    == spec_segapcm_channel(old(self)@.ram, old(self)@.low, ch as int, old(self).roms(), old(self).bus()));
                assert(spec_segapcm_reads_rom(self@.ram, self@.low, ch as int)
                    == spec_segapcm_reads_rom(old(self)@.ram, old(self)@.low, ch as int));
            }
            if self.ram[b + 0x86] & 1 == 0 {
                let (o, r84, r85, r86, lo) = self.channel_step(ch);
                self.ram.set(b + 0x84, r84);
                self.ram.set(b + 0x85, r85);
                self.ram.set(b + 0x86, r86);
                self.low.set(ch, lo);
                out.push(o);
            } else {
                out.push(None);
            }
            ch = ch + 1;
            proof {
                assert forall|i: int| 0 <= i < SEGAPCM_RAM implies #[trigger] self.ram@[i] == if spec_segapcm_owner(i) < ch {
                    spec_segapcm_ram_after(old(self)@.ram, old(self)@.low, i, old(self).roms(), old(self).bus())
                } else {
                    old(self)@.ram[i]
                } by {
                    if spec_segapcm_owner(i) == ch - 1 {
                        assert(i == b + 0x84 || i == b + 0x85 || i == b + 0x86);
                    }
                }
            }
        }
        out
    }

    /// Give the chip its ROM set.
    pub fn set_rom_bank(&mut self, rombank: RomBank)
        requires
            old(self).wf(),
            rombank is Some ==> rombank->0.wf(),
        ensures
            final(self).wf(),
            final(self)@ == old(self)@,
            final(self).has_rom() == rombank is Some,
            rombank is Some ==> final(self).roms() == rombank->0.roms() && final(self).bus() == rombank->0.bus(),
    {
        self.rombank = rombank;
    }

    /// Add a ROM image to the chip's ROM set; returns its index there.
    pub fn add_rom(&mut self, memory: &[u8], start_address: usize, end_address: usize) -> (r: usize)
        requires
            old(self).wf(),
            old(self).has_rom(),
            old(self).roms().len() < usize::MAX,
            start_address <= end_address ==> end_address - start_address < memory@.len(),
        ensures
            final(self).wf(),
            final(self)@ == old(self)@,
            final(self).has_rom(),
            final(self).bus() == old(self).bus(),
            final(self).roms() == old(self).roms().push(
                RomView { start: start_address as int, end: end_address as int, memory: memory@ }),
            r == old(self).roms().len(),
    {
        match &mut self.rombank {
            Some(r) => r.add_rom(memory, start_address, end_address),
            None => 0,
        }
    }
}

/// After a reset every channel is disabled, so a sample reads no ROM and
/// outputs nothing.
pub proof fn lemma_segapcm_reset_silent(ch: int)
    requires
        0 <= ch < SEGAPCM_CHANNELS,
    ensures
        !spec_segapcm_active(Seq::new(SEGAPCM_RAM as nat, |i: int| 0xffu8), ch),
        !spec_segapcm_reads_rom(Seq::new(SEGAPCM_RAM as nat, |i: int| 0xffu8),
            Seq::new(SEGAPCM_CHANNELS as nat, |i: int| 0u8), ch),
{
    crate::bits::lemma_u8_bits(0xffu8);
}

/// A channel's registers sit at eight bytes per channel: left and right
/// volume (7 bits) at 2 and 3, loop address at 4 (low) and 5 (high), end
/// page at 6, delta at 7, and the play address at 0x84 (low) and 0x85
/// (high) with the flags at 0x86 (bit 0 disabled, bit 1 no loop, bits 4-6
/// the ROM bank). An active channel at the page after its end page stops
/// where looping is off (setting its disable bit); else it restarts there at
/// its loop address, reads the ROM byte at 64 KiB times the bank plus the
/// address's upper two bytes, outputs that byte less 0x80 times each
/// volume, and advances the address by the delta, modulo 2^24.
pub proof fn lemma_segapcm_channel_registers(
    ram: Seq<u8>,
    low: Seq<u8>,
    ch: int,
    roms: Seq<RomView>,
    bus: Option<(u8, u8, Seq<u8>)>,
)
    requires
        0 <= ch < SEGAPCM_CHANNELS,
        ram.len() == SEGAPCM_RAM,
        low.len() == SEGAPCM_CHANNELS,
    ensures
        ({
            let b = ch * 8;
            let flags = ram[b + 0x86];
            let addr = ram[b + 0x85] * 0x10000 + ram[b + 0x84] * 0x100 + low[ch];
            let at_end = addr / 0x10000 == ram[b + 6] + 1;
            let stops = at_end && (flags / 2) % 2 == 1;
            let st = spec_segapcm_channel(ram, low, ch, roms, bus);
            &&& spec_segapcm_active(ram, ch) == (flags % 2 == 0)
            &&& spec_segapcm_active(ram, ch) && stops ==> st == (SegaPcmVoiceStep {
                out: None,
                reg84: ram[b + 0x84],
                reg85: ram[b + 0x85],
                reg86: (flags + 1) as u8,
                low: 0,
            })
            &&& !stops ==> {
                let a = if at_end { ram[b + 5] * 0x10000 + ram[b + 4] * 0x100 } else { addr };
                let v = spec_read_byte(roms, bus, (((flags / 16) % 8) * 0x10000 + a / 0x100) as usize) - 0x80;
                let next = (a + ram[b + 7]) % 0x1000000;
                &&& st.out == Some(((v * (ram[b + 2] % 128)) as i32, (v * (ram[b + 3] % 128)) as i32))
                &&& st.reg84 == (next / 0x100) % 0x100
                &&& st.reg85 == next / 0x10000
                &&& st.reg86 == flags
                &&& st.low == next % 0x100
            }
        }),
{
    let b = ch * 8;
    lemma_u8_pcm_fields(ram[b + 0x86]);
    lemma_u8_pcm_fields(ram[b + 2]);
    lemma_u8_pcm_fields(ram[b + 3]);
}

} // verus!
