use vstd::prelude::*;
use crate::bits::{lemma_u16_bits, lemma_u16_fields, lemma_u16_route_fields};

verus! {

/// Depth of each PWM channel FIFO.
pub const PWM_FIFO_SIZE: usize = 3;

/// The rate at which the PWM chip's output is sampled.
pub const EMU_SAMPLING_RATE: u32 = 22050;

/// The state of the 32X PWM chip.
pub struct PWMView {
    pub clock: u32,
    pub pwm_ctrl: u16,
    pub pwm_cycle: u16,
    pub pwm_tm_reg: u16,
    pub cur_lch: Seq<u16>,
    pub cur_rch: Seq<u16>,
    pub pwm_cycle_reg: u16,
    pub pwm_timer_tick: u8,
    pub lch_size: usize,
    pub rch_size: usize,
    pub lch_fifo_state: u16,
    pub rch_fifo_state: u16,
    pub emu_timer_up_hz: Option<u32>,
}

/// Sega 32X PWM sound: two 12-bit channels fed through three-entry FIFOs,
/// drained by a timer whose rate the cycle register sets.
#[allow(clippy::upper_case_acronyms)]
pub struct PWM {
    clock: u32,
    pwm_ctrl: u16,
    pwm_cycle: u16,
    pwm_tm_reg: u16,
    cur_lch: Vec<u16>,
    cur_rch: Vec<u16>,
    pwm_cycle_reg: u16,
    pwm_timer_tick: u8,
    lch_size: usize,
    rch_size: usize,
    lch_fifo_state: u16,
    rch_fifo_state: u16,
    emu_timer_up_hz: Option<u32>,
}

impl View for PWM {
    type V = PWMView;

    closed spec fn view(&self) -> PWMView {
        PWMView {
            clock: self.clock,
            pwm_ctrl: self.pwm_ctrl,
            pwm_cycle: self.pwm_cycle,
            pwm_tm_reg: self.pwm_tm_reg,
            cur_lch: self.cur_lch@,
            cur_rch: self.cur_rch@,
            pwm_cycle_reg: self.pwm_cycle_reg,
            pwm_timer_tick: self.pwm_timer_tick,
            lch_size: self.lch_size,
            rch_size: self.rch_size,
            lch_fifo_state: self.lch_fifo_state,
            rch_fifo_state: self.rch_fifo_state,
            emu_timer_up_hz: self.emu_timer_up_hz,
        }
    }
}

/// The ranges that the chip's state stays in.
pub open spec fn pwm_wf(s: PWMView) -> bool {
    &&& s.cur_lch.len() == PWM_FIFO_SIZE
    &&& s.cur_rch.len() == PWM_FIFO_SIZE
    &&& s.lch_size <= PWM_FIFO_SIZE
    &&& s.rch_size <= PWM_FIFO_SIZE
    &&& s.pwm_tm_reg <= 16
}

/// While the timer runs, the cycle register is at least 2 and the tick
/// count stays below the timer register (so the timer can always tick).
pub open spec fn pwm_timer_ok(s: PWMView) -> bool {
    s.emu_timer_up_hz is Some ==> 2 <= s.pwm_cycle && 1 <= s.pwm_tm_reg && s.pwm_timer_tick < s.pwm_tm_reg
}

/// A FIFO after dropping its first entry.
pub open spec fn spec_fifo_pop(c: Seq<u16>) -> Seq<u16> {
    seq![c[1], c[2], c[2]]
}

/// A FIFO and its size after pushing `data`: a full FIFO first drops its
/// first entry.
pub open spec fn spec_fifo_push(c: Seq<u16>, size: usize, data: u16) -> (Seq<u16>, usize) {
    let (c1, s1) = if size == PWM_FIFO_SIZE { (spec_fifo_pop(c), (size - 1) as usize) } else { (c, size) };
    (c1.update(s1 as int, data), (s1 + 1) as usize)
}

/// The timer after the control or cycle register changes: a zero timer
/// register counts 16, a zero cycle 4095; the timer stops where the cycle is
/// 1 or both channels are off, else it restarts (FIFOs emptied, tick count
/// cleared) at the clock divided by the cycle less one.
pub open spec fn spec_pwm_timer(s: PWMView) -> PWMView {
    let tm = if s.pwm_tm_reg == 0 { 16u16 } else { s.pwm_tm_reg };
    let cycle = if s.pwm_cycle == 0 { 4095u16 } else { s.pwm_cycle };
    if cycle == 1 || s.pwm_ctrl & 0xf == 0 {
        PWMView { pwm_tm_reg: tm, pwm_cycle: cycle, emu_timer_up_hz: None, ..s }
    } else {
        PWMView {
            pwm_tm_reg: tm,
            pwm_cycle: cycle,
            pwm_timer_tick: 0,
            lch_fifo_state: 0x4000,
            rch_fifo_state: 0x4000,
            lch_size: 0,
            rch_size: 0,
            emu_timer_up_hz: Some((s.clock / (cycle - 1) as u32) as u32),
            ..s
        }
    }
}

/// The FIFO state flag after a push: full (0x8000) or not.
pub open spec fn spec_fifo_full_state(size: usize) -> u16 {
    if size == PWM_FIFO_SIZE { 0x8000 } else { 0 }
}

/// The chip after a write: 0 sets the control register (timer register in
/// bits 8-11), 1 the cycle register, 2 and 3 push to the left or right
/// FIFO, 4 to both.
pub open spec fn spec_pwm_w(s: PWMView, offset: u32, data: u16) -> PWMView {
    if offset == 0 {
        spec_pwm_timer(PWMView { pwm_ctrl: data, pwm_tm_reg: (data & 0xf00) / 256, ..s })
    } else if offset == 1 {
        spec_pwm_timer(PWMView { pwm_cycle: data, pwm_cycle_reg: s.pwm_ctrl, ..s })
    } else {
        let (l, ls) = spec_fifo_push(s.cur_lch, s.lch_size, data);
        let (r, rs) = spec_fifo_push(s.cur_rch, s.rch_size, data);
        if offset == 2 {
            PWMView { cur_lch: l, lch_size: ls, lch_fifo_state: spec_fifo_full_state(ls), ..s }
        } else if offset == 3 {
            PWMView { cur_rch: r, rch_size: rs, rch_fifo_state: spec_fifo_full_state(rs), ..s }
        } else {
            PWMView {
                cur_lch: l,
                lch_size: ls,
                lch_fifo_state: spec_fifo_full_state(ls),
                cur_rch: r,
                rch_size: rs,
                rch_fifo_state: spec_fifo_full_state(rs),
                ..s
            }
        }
    }
}

/// Whether a timer callback can run without a fault: the cycle register is
/// at least 2, the tick count can advance, and no non-empty FIFO is routed
/// by the undefined setting 3.
pub open spec fn spec_pwm_callback_ok(s: PWMView) -> bool {
    &&& s.pwm_cycle >= 2
    &&& s.pwm_timer_tick < 255
    &&& s.lch_size > 0 ==> s.pwm_ctrl & 3 != 3
    &&& s.rch_size > 0 ==> (s.pwm_ctrl & 0xc) / 4 != 3
}

/// The (left, right) DAC values of a timer callback: each non-empty FIFO's
/// first entry goes to the side its control bits route it to (left FIFO:
/// 1 left, 2 right; right FIFO: 1 right, 2 left; the right FIFO wins where
/// both go to one side).
pub open spec fn spec_pwm_dac(s: PWMView) -> (u32, u32) {
    let lmode = s.pwm_ctrl & 3;
    let rmode = (s.pwm_ctrl & 0xc) / 4;
    let l0: u16 = if s.lch_size > 0 && lmode == 1 { s.cur_lch[0] } else { 0 };
    let r0: u16 = if s.lch_size > 0 && lmode == 2 { s.cur_lch[0] } else { 0 };
    let r1: u16 = if s.rch_size > 0 && rmode == 1 { s.cur_rch[0] } else { r0 };
    let l1: u16 = if s.rch_size > 0 && rmode == 2 { s.cur_rch[0] } else { l0 };
    (l1 as u32, r1 as u32)
}

/// The chip after a timer callback: each non-empty FIFO drops its first
/// entry, the FIFO state flags toggle between 0x4000 and 0, the tick count
/// advances (wrapping at the timer register), and the timer rate is set
/// anew from the cycle register.
pub open spec fn spec_pwm_callback(s: PWMView) -> PWMView {
    let tick = (s.pwm_timer_tick + 1) as u8;
    PWMView {
        cur_lch: if s.lch_size > 0 { spec_fifo_pop(s.cur_lch) } else { s.cur_lch },
        lch_size: if s.lch_size > 0 { (s.lch_size - 1) as usize } else { 0 },
        cur_rch: if s.rch_size > 0 { spec_fifo_pop(s.cur_rch) } else { s.cur_rch },
        rch_size: if s.rch_size > 0 { (s.rch_size - 1) as usize } else { 0 },
        lch_fifo_state: if s.lch_fifo_state == 0 { 0x4000 } else { 0 },
        rch_fifo_state: if s.rch_fifo_state == 0 { 0x4000 } else { 0 },
        pwm_timer_tick: if tick as u16 == s.pwm_tm_reg { 0 } else { tick },
        emu_timer_up_hz: Some((s.clock / (s.pwm_cycle - 1) as u32) as u32),
        ..s
    }
}

impl PWM {
    pub closed spec fn wf(&self) -> bool {
        pwm_wf(self@)
    }

    /// A silent chip with its timer stopped.
    pub fn new() -> (r: Self)
        ensures
            r.wf(),
            pwm_timer_ok(r@),
            r@ == (PWMView {
                clock: 0,
                pwm_ctrl: 0,
                pwm_cycle: 0,
                pwm_tm_reg: 0,
                cur_lch: seq![0u16, 0u16, 0u16],
                cur_rch: seq![0u16, 0u16, 0u16],
                pwm_cycle_reg: 0,
                pwm_timer_tick: 0,
                lch_size: 0,
                rch_size: 0,
                lch_fifo_state: 0,
                rch_fifo_state: 0,
                emu_timer_up_hz: None,
            }),
    {
        let r = PWM {
            clock: 0,
            pwm_ctrl: 0,
            pwm_cycle: 0,
            pwm_tm_reg: 0,
            cur_lch: vec![0u16, 0u16, 0u16],
            cur_rch: vec![0u16, 0u16, 0u16],
            pwm_cycle_reg: 0,
            pwm_timer_tick: 0,
            lch_size: 0,
            rch_size: 0,
            lch_fifo_state: 0,
            rch_fifo_state: 0,
            emu_timer_up_hz: None,
        };
        assert(r.cur_lch@ =~= seq![0u16, 0u16, 0u16]);
        assert(r.cur_rch@ =~= seq![0u16, 0u16, 0u16]);
        r
    }

    /// Set the clock; the output is sampled at a fixed rate.
    pub fn device_start(&mut self, clock: u32) -> (r: u32)
        requires
            old(self).wf(),
        ensures
            final(self).wf(),
            final(self)@ == (PWMView { clock: clock, ..old(self)@ }),
            r == EMU_SAMPLING_RATE,
    {
        self.clock = clock;
        EMU_SAMPLING_RATE
    }

    /// Start the chip; returns its output rate.
    pub fn init(&mut self, clock: u32) -> (r: u32)
        requires
            old(self).wf(),
        ensures
            final(self).wf(),
            final(self)@ == (PWMView { clock: clock, ..old(self)@ }),
            r == EMU_SAMPLING_RATE,
    {
        self.device_start(clock)
    }

    fn emu_timer_adjust(&mut self, time: Option<u32>)
        ensures
            final(self)@ == (PWMView { emu_timer_up_hz: time, ..old(self)@ }),
    {
        self.emu_timer_up_hz = time;
    }

    fn lch_pop(&mut self)
        requires
            old(self).wf(),
            old(self).lch_size > 0,
        ensures
            final(self)@ == (PWMView {
                cur_lch: spec_fifo_pop(old(self)@.cur_lch),
                lch_size: (old(self)@.lch_size - 1) as usize,
                ..old(self)@
            }),
    {
        let mut i: usize = 0;
        while i < PWM_FIFO_SIZE - 1
            invariant
                i <= PWM_FIFO_SIZE - 1,
                self@ == (PWMView { cur_lch: self@.cur_lch, ..old(self)@ }),
                self.cur_lch@.len() == PWM_FIFO_SIZE,
                forall|k: int| 0 <= k < PWM_FIFO_SIZE ==> #[trigger] self.cur_lch@[k] == if k < i {
                    old(self)@.cur_lch[k + 1]
                } else {
                    old(self)@.cur_lch[k]
                },
            decreases PWM_FIFO_SIZE - 1 - i,
        {
            let v = self.cur_lch[i + 1];
            self.cur_lch.set(i, v);
            i = i + 1;
        }
        self.lch_size = self.lch_size - 1;
        assert(self.cur_lch@ =~= spec_fifo_pop(old(self)@.cur_lch));
    }

    fn rch_pop(&mut self)
        requires
            old(self).wf(),
            old(self).rch_size > 0,
        ensures
            final(self)@ == (PWMView {
                cur_rch: spec_fifo_pop(old(self)@.cur_rch),
                rch_size: (old(self)@.rch_size - 1) as usize,
                ..old(self)@
            }),
    {
        let mut i: usize = 0;
        while i < PWM_FIFO_SIZE - 1
            invariant
                i <= PWM_FIFO_SIZE - 1,
                self@ == (PWMView { cur_rch: self@.cur_rch, ..old(self)@ }),
                self.cur_rch@.len() == PWM_FIFO_SIZE,
                forall|k: int| 0 <= k < PWM_FIFO_SIZE ==> #[trigger] self.cur_rch@[k] == if k < i {
                    old(self)@.cur_rch[k + 1]
                } else {
                    old(self)@.cur_rch[k]
                },
            decreases PWM_FIFO_SIZE - 1 - i,
        {
            let v = self.cur_rch[i + 1];
            self.cur_rch.set(i, v);
            i = i + 1;
        }
        self.rch_size = self.rch_size - 1;
        assert(self.cur_rch@ =~= spec_fifo_pop(old(self)@.cur_rch));
    }

    fn calculate_pwm_timer(&mut self)
        requires
            old(self).wf() || old(self)@.pwm_tm_reg <= 16 && old(self)@.cur_lch.len() == PWM_FIFO_SIZE
                && old(self)@.cur_rch.len() == PWM_FIFO_SIZE && old(self)@.lch_size <= PWM_FIFO_SIZE
                && old(self)@.rch_size <= PWM_FIFO_SIZE,
        ensures
            final(self).wf(),
            pwm_timer_ok(final(self)@),
            final(self)@ == spec_pwm_timer(old(self)@),
    {
        if self.pwm_tm_reg == 0 {
            self.pwm_tm_reg = 16;
        }
        if self.pwm_cycle == 0 {
            self.pwm_cycle = 4095;
        }
        if self.pwm_cycle == 1 || self.pwm_ctrl & 0xf == 0 {
            self.emu_timer_adjust(None);
        } else {
            self.pwm_timer_tick = 0;
            self.lch_fifo_state = 0x4000;
            self.rch_fifo_state = 0x4000;
            self.lch_size = 0;
            self.rch_size = 0;
            self.emu_timer_adjust(Some(self.clock / (self.pwm_cycle as u32 - 1)));
        }
    }

    /// Push `data` to the left FIFO.
    fn lch_push(&mut self, data: u16)
        requires
            old(self).wf(),
        ensures
            final(self).wf(),
            ({
                let (l, ls) = spec_fifo_push(old(self)@.cur_lch, old(self)@.lch_size, data);
                final(self)@ == (PWMView { cur_lch: l, lch_size: ls, lch_fifo_state: spec_fifo_full_state(ls), ..old(self)@ })
            }),
    {
        if self.lch_size == PWM_FIFO_SIZE {
            self.lch_pop();
        }
        let n = self.lch_size;
        self.cur_lch.set(n, data);
        self.lch_size = n + 1;
        self.lch_fifo_state = if self.lch_size == PWM_FIFO_SIZE { 0x8000 } else { 0x0000 };
    }

    /// Push `data` to the right FIFO.
    fn rch_push(&mut self, data: u16)
        requires
            old(self).wf(),
        ensures
            final(self).wf(),
            ({
                let (r, rs) = spec_fifo_push(old(self)@.cur_rch, old(self)@.rch_size, data);
                final(self)@ == (PWMView { cur_rch: r, rch_size: rs, rch_fifo_state: spec_fifo_full_state(rs), ..old(self)@ })
            }),
    {
        if self.rch_size == PWM_FIFO_SIZE {
            self.rch_pop();
        }
        let n = self.rch_size;
        self.cur_rch.set(n, data);
        self.rch_size = n + 1;
        self.rch_fifo_state = if self.rch_size == PWM_FIFO_SIZE { 0x8000 } else { 0x0000 };
    }

    /// Write a register: 0 control, 1 cycle, 2 left FIFO, 3 right FIFO, 4
    /// both FIFOs.
    pub fn pwm_w(&mut self, offset: u32, data: u16)
        requires
            old(self).wf(),
            offset <= 4,
        ensures
            final(self).wf(),
            pwm_timer_ok(old(self)@) || offset <= 1 ==> pwm_timer_ok(final(self)@),
            final(self)@ == spec_pwm_w(old(self)@, offset, data),
    {
        match offset {
            0 => {
                self.pwm_ctrl = data & 0xffff;
                proof {
                    lemma_u16_bits(data);
                }
                self.pwm_tm_reg = (self.pwm_ctrl & 0xf00) >> 8;
                self.calculate_pwm_timer();
            },
            1 => {
                self.pwm_cycle = data & 0xffff;
                proof {
                    lemma_u16_bits(data);
                }
                self.pwm_cycle_reg = self.pwm_ctrl;
                self.calculate_pwm_timer();
            },
            2 => {
                self.lch_push(data);
            },
            3 => {
                self.rch_push(data);
            },
            _ => {
                self.lch_push(data);
                self.rch_push(data);
            },
        }
    }

    /// Whether a timer callback can run without a fault.
    pub fn pwm_callback_ok(&self) -> (r: bool)
        ensures
            r == spec_pwm_callback_ok(self@),
    {
        proof {
            lemma_u16_bits(self.pwm_ctrl);
        }
        self.pwm_cycle >= 2 && self.pwm_timer_tick < 255 && (self.lch_size == 0 || self.pwm_ctrl & 3 != 3)
            && (self.rch_size == 0 || (self.pwm_ctrl & 0xc) >> 2 != 3)
    }

    /// One timer tick: take the first entry of each non-empty FIFO to the
    /// DAC side its control bits choose; returns the (left, right) 12-bit
    /// DAC values.
    pub fn handle_pwm_callback(&mut self) -> (r: (u32, u32))
        requires
            old(self).wf(),
            spec_pwm_callback_ok(old(self)@),
        ensures
            final(self).wf(),
            pwm_timer_ok(old(self)@) && old(self)@.emu_timer_up_hz is Some ==> pwm_timer_ok(final(self)@),
            final(self)@ == spec_pwm_callback(old(self)@),
            r == spec_pwm_dac(old(self)@),
    {
        let ghost s0 = self@;
        let mut ldac: u16 = 0;
        let mut rdac: u16 = 0;
        proof {
            lemma_u16_bits(self.pwm_ctrl);
        }
        if self.lch_size > 0 {
            let mode = self.pwm_ctrl & 3;
            if mode == 1 {
                ldac = self.cur_lch[0];
            } else if mode == 2 {
                rdac = self.cur_lch[0];
            }
            self.lch_pop();
        }
        self.lch_fifo_state = if self.lch_fifo_state == 0 { 0x4000 } else { 0x0000 };
        if self.rch_size > 0 {
            let mode = (self.pwm_ctrl & 0xc) >> 2;
            if mode == 1 {
                rdac = self.cur_rch[0];
            } else if mode == 2 {
                ldac = self.cur_rch[0];
            }
            self.rch_pop();
        }
        self.rch_fifo_state = if self.rch_fifo_state == 0 { 0x4000 } else { 0x0000 };
        self.pwm_timer_tick = self.pwm_timer_tick + 1;
        if self.pwm_timer_tick as u16 == self.pwm_tm_reg {
            self.pwm_timer_tick = 0;
        }
        self.emu_timer_adjust(Some(self.clock / (self.pwm_cycle as u32 - 1)));
        (ldac as u32, rdac as u32)
    }

    /// Whether the timer runs, and at what rate.
    pub fn emu_timer_up_hz(&self) -> (r: Option<u32>)
        ensures
            r == self@.emu_timer_up_hz,
    {
        self.emu_timer_up_hz
    }
}

/// The left FIFO hands data out in the order it came in: two values
/// pushed into an empty FIFO come out first, then second, at the next two
/// timer callbacks (with the left FIFO routed to the left DAC).
pub proof fn lemma_pwm_fifo_order(s: PWMView, a: u16, b: u16)
    requires
        pwm_wf(s),
        s.lch_size == 0,
        s.rch_size == 0,
        s.pwm_ctrl & 3 == 1,
        (s.pwm_ctrl & 0xc) / 4 == 0,
    ensures
        ({
            let s1 = spec_pwm_w(spec_pwm_w(s, 2, a), 2, b);
            &&& spec_pwm_dac(s1).0 == a as u32
            &&& spec_pwm_dac(spec_pwm_callback(s1)).0 == b as u32
            &&& spec_pwm_callback(spec_pwm_callback(s1)).lch_size == 0
        }),
{
}

/// Offset 2 appends `data` to the left FIFO (a full, three-entry FIFO first
/// drops its oldest entry) and marks it full when it holds three; offset 3
/// does the same to the right FIFO; each leaves everything else as it was.
/// Offset 4 feeds both FIFOs, as a write to offset 2 followed by one to
/// offset 3 does.
pub proof fn lemma_pwm_fifo_writes(s: PWMView, data: u16)
    requires
        pwm_wf(s),
    ensures
        ({
            let l = spec_pwm_w(s, 2, data);
            let r = spec_pwm_w(s, 3, data);
            let b = spec_pwm_w(s, 4, data);
            let ln: int = if s.lch_size < 3 { s.lch_size + 1 } else { 3 };
            let rn: int = if s.rch_size < 3 { s.rch_size + 1 } else { 3 };
            &&& l.lch_size == ln
            &&& l.cur_lch.len() == 3
            &&& l.cur_lch[ln - 1] == data
            &&& s.lch_size < 3 ==> forall|i: int| 0 <= i < s.lch_size ==> l.cur_lch[i] == s.cur_lch[i]
            &&& s.lch_size == 3 ==> l.cur_lch[0] == s.cur_lch[1] && l.cur_lch[1] == s.cur_lch[2]
            &&& l.lch_fifo_state == (if ln == 3 { 0x8000u16 } else { 0u16 })
            &&& l == (PWMView { cur_lch: l.cur_lch, lch_size: l.lch_size, lch_fifo_state: l.lch_fifo_state, ..s })
            &&& r.rch_size == rn
            &&& r.cur_rch.len() == 3
            &&& r.cur_rch[rn - 1] == data
            &&& s.rch_size < 3 ==> forall|i: int| 0 <= i < s.rch_size ==> r.cur_rch[i] == s.cur_rch[i]
            &&& s.rch_size == 3 ==> r.cur_rch[0] == s.cur_rch[1] && r.cur_rch[1] == s.cur_rch[2]
            &&& r.rch_fifo_state == (if rn == 3 { 0x8000u16 } else { 0u16 })
            &&& r == (PWMView { cur_rch: r.cur_rch, rch_size: r.rch_size, rch_fifo_state: r.rch_fifo_state, ..s })
            &&& b == (PWMView { cur_rch: r.cur_rch, rch_size: r.rch_size, rch_fifo_state: r.rch_fifo_state, ..l })
            &&& b == spec_pwm_w(spec_pwm_w(s, 2, data), 3, data)
        }),
{
}

/// Offset 0 sets the control register to `data` and the timer register to
/// its bits 8-11 (16 where they are 0); offset 1 sets the cycle register to
/// `data` (4095 where it is 0) and latches the control register. Either
/// way the timer then runs, with both FIFOs emptied, at the clock divided by
/// one less than the cycle, unless the cycle is 1 or the low four control
/// bits are clear, which stops it and leaves the FIFOs alone.
pub proof fn lemma_pwm_register_writes(s: PWMView, data: u16)
    requires
        pwm_wf(s),
    ensures
        ({
            let c = spec_pwm_w(s, 0, data);
            let tm: int = ((data / 256) % 16) as int;
            let ccycle: int = if s.pwm_cycle == 0 { 4095 } else { s.pwm_cycle as int };
            &&& c.pwm_ctrl == data
            &&& c.pwm_tm_reg == (if tm == 0 { 16 } else { tm })
            &&& c.pwm_cycle == ccycle
            &&& c.pwm_cycle_reg == s.pwm_cycle_reg
            &&& c.cur_lch == s.cur_lch && c.cur_rch == s.cur_rch
            &&& (ccycle != 1 && data % 16 != 0) ==> {
                &&& c.emu_timer_up_hz == Some((s.clock as int / (ccycle - 1)) as u32)
                &&& c.lch_size == 0 && c.rch_size == 0 && c.pwm_timer_tick == 0
            }
            &&& (ccycle == 1 || data % 16 == 0) ==> {
                &&& c.emu_timer_up_hz is None
                &&& c.lch_size == s.lch_size && c.rch_size == s.rch_size && c.pwm_timer_tick == s.pwm_timer_tick
            }
        }),
        ({
            let y = spec_pwm_w(s, 1, data);
            let cycle: int = if data == 0 { 4095 } else { data as int };
            &&& y.pwm_cycle == cycle
            &&& y.pwm_cycle_reg == s.pwm_ctrl
            &&& y.pwm_ctrl == s.pwm_ctrl
            &&& y.pwm_tm_reg == (if s.pwm_tm_reg == 0 { 16 } else { s.pwm_tm_reg })
            &&& y.cur_lch == s.cur_lch && y.cur_rch == s.cur_rch
            &&& (cycle != 1 && s.pwm_ctrl % 16 != 0) ==> {
                &&& y.emu_timer_up_hz == Some((s.clock as int / (cycle - 1)) as u32)
                &&& y.lch_size == 0 && y.rch_size == 0 && y.pwm_timer_tick == 0
            }
            &&& (cycle == 1 || s.pwm_ctrl % 16 == 0) ==> {
                &&& y.emu_timer_up_hz is None
                &&& y.lch_size == s.lch_size && y.rch_size == s.rch_size && y.pwm_timer_tick == s.pwm_timer_tick
            }
        }),
{
    lemma_u16_fields(data);
    lemma_u16_fields(s.pwm_ctrl);
}

/// A timer callback outputs the first entry of each non-empty FIFO on the
/// side that the control register routes it to (bits 0-1 for the left
/// FIFO, bits 2-3 for the right one: 1 to its own side, 2 to the other),
/// the right FIFO winning where both go to one side, and 0 on a side that
/// gets nothing; each non-empty FIFO then drops its first entry, keeping the
/// others in order.
pub proof fn lemma_pwm_callback_output(s: PWMView)
    requires
        pwm_wf(s),
    ensures
        ({
            let lm = s.pwm_ctrl % 4;
            let rm = (s.pwm_ctrl / 4) % 4;
            let (l, r) = spec_pwm_dac(s);
            let t = spec_pwm_callback(s);
            &&& l == (if s.rch_size > 0 && rm == 2 { s.cur_rch[0] as u32 } else if s.lch_size > 0 && lm == 1 {
                s.cur_lch[0] as u32 } else { 0u32 })
            &&& r == (if s.rch_size > 0 && rm == 1 { s.cur_rch[0] as u32 } else if s.lch_size > 0 && lm == 2 {
                s.cur_lch[0] as u32 } else { 0u32 })
            &&& s.lch_size > 0 ==> t.lch_size == s.lch_size - 1 && t.cur_lch[0] == s.cur_lch[1] && t.cur_lch[1] == s.cur_lch[2]
            &&& s.lch_size == 0 ==> t.lch_size == 0 && t.cur_lch == s.cur_lch
            &&& s.rch_size > 0 ==> t.rch_size == s.rch_size - 1 && t.cur_rch[0] == s.cur_rch[1] && t.cur_rch[1] == s.cur_rch[2]
            &&& s.rch_size == 0 ==> t.rch_size == 0 && t.cur_rch == s.cur_rch
        }),
{
    lemma_u16_route_fields(s.pwm_ctrl);
}

} // verus!
