//! The register file the driver acts on: pin multiplexer registers, GPIO
//! byte and direction registers, the pin-interrupt channels and the
//! interrupt lines of the core's interrupt controller.
//!
//! `Hardware` keeps the registers in memory, so the driver can be run and
//! reasoned about away from the chip. Its view, `Registers`, is the
//! mathematical state all contracts speak of.

use vstd::prelude::*;

verus! {

/// Silicon ports that carry a multiplexer register.
pub const MUX_PORTS: u32 = 16;

/// Pins per silicon port, and bits per GPIO port.
pub const PINS_PER_PORT: u32 = 32;

/// Logical GPIO ports.
pub const GPIO_PORTS: u32 = 8;

/// Shared pin-interrupt channels.
pub const CHANNELS: u32 = 8;

/// Interrupt lines of the core's interrupt controller.
pub const INTERRUPT_LINES: u32 = 80;

/// Interrupt line of pin-interrupt channel 0; channel `c` raises line
/// `FIRST_CHANNEL_LINE + c`.
pub const FIRST_CHANNEL_LINE: u32 = crate::nvic::PIN_INT0;

/// Direction of a signal change on a pin.
#[derive(Clone, Copy, Debug, PartialEq, Eq, Structural)]
pub enum Edge {
    Rising,
    Falling,
}

/// One pin-interrupt channel: the GPIO bit its edge detector is wired to and
/// how it is set up.
#[derive(Clone, Copy, Debug, PartialEq, Eq, Structural)]
pub struct Channel {
    /// The channel has been wired to a GPIO bit.
    pub bound: bool,
    /// GPIO port of the wired bit.
    pub port: u8,
    /// Bit number of the wired bit.
    pub bit: u8,
    /// The channel reacts to levels; when false, to edges.
    pub level_sensitive: bool,
    /// Rising edges are latched.
    pub rising: bool,
    /// Falling edges are latched.
    pub falling: bool,
    /// An edge has been latched and not yet cleared.
    pub status: bool,
}

impl Channel {
    /// The channel as it is after reset.
    pub open spec fn reset() -> Channel {
        Channel {
            bound: false,
            port: 0,
            bit: 0,
            level_sensitive: false,
            rising: false,
            falling: false,
            status: false,
        }
    }

    /// An `edge` on GPIO bit (`port`, `bit`) is latched by this channel.
    pub open spec fn latches(self, port: int, bit: int, edge: Edge) -> bool {
        &&& self.bound
        &&& self.port == port
        &&& self.bit == bit
        &&& !self.level_sensitive
        &&& match edge {
            Edge::Rising => self.rising,
            Edge::Falling => self.falling,
        }
    }

    /// The channel with its status flag set to `status`.
    pub open spec fn with_status(self, status: bool) -> Channel {
        Channel { status, ..self }
    }

    /// The channel wired to GPIO bit (`port`, `bit`), otherwise as it was.
    pub open spec fn wired_to(self, port: u8, bit: u8) -> Channel {
        Channel { bound: true, port, bit, ..self }
    }

    /// The channel reacting to edges, otherwise as it was.
    pub open spec fn edge_sensitive(self) -> Channel {
        Channel { level_sensitive: false, ..self }
    }

    /// The channel latching rising edges, otherwise as it was.
    pub open spec fn with_rising(self) -> Channel {
        Channel { rising: true, ..self }
    }

    /// The channel latching falling edges, otherwise as it was.
    pub open spec fn with_falling(self) -> Channel {
        Channel { falling: true, ..self }
    }
}

/// Where a pin-interrupt channel stands.
#[derive(Clone, Copy, Debug, PartialEq, Eq, Structural)]
pub enum ChannelState {
    /// The channel has not been wired to a GPIO bit.
    Unbound,
    /// The channel is wired to a GPIO bit and its interrupt line is masked.
    Bound,
    /// The channel is wired to a GPIO bit and its interrupt line is
    /// unmasked.
    Armed,
}

/// Number of enabled lines among the eight pin-interrupt lines.
pub open spec fn armed_lines(enabled: Seq<bool>) -> nat {
    let first = FIRST_CHANNEL_LINE as int;
    (if enabled[first] { 1nat } else { 0 }) + (if enabled[first + 1] { 1nat } else { 0 }) + (
    if enabled[first + 2] { 1nat } else { 0 }) + (if enabled[first + 3] { 1nat } else { 0 }) + (
    if enabled[first + 4] { 1nat } else { 0 }) + (if enabled[first + 5] { 1nat } else { 0 }) + (
    if enabled[first + 6] { 1nat } else { 0 }) + (if enabled[first + 7] { 1nat } else { 0 })
}

/// `line` is the interrupt line of a pin-interrupt channel.
pub open spec fn is_channel_line(line: int) -> bool {
    FIRST_CHANNEL_LINE <= line < FIRST_CHANNEL_LINE + CHANNELS
}

/// The state of the register file.
pub struct Registers {
    /// Pin multiplexer registers, `PINS_PER_PORT` per silicon port.
    pub sfsp: Seq<u32>,
    /// GPIO byte registers, one per GPIO bit.
    pub byte: Seq<u8>,
    /// GPIO direction registers, one per GPIO port; a set bit is an output.
    pub dir: Seq<u32>,
    /// Pin-interrupt channels.
    pub channels: Seq<Channel>,
    /// Interrupt lines that are unmasked at the interrupt controller.
    pub irq_enabled: Seq<bool>,
    /// Interrupt lines that are pending at the interrupt controller.
    pub irq_pending: Seq<bool>,
    /// Interrupts are globally masked.
    pub interrupts_masked: bool,
    /// Number of pin interrupts that are currently armed.
    pub interrupt_count: nat,
}

impl Registers {
    /// Every register bank has its size, and the count of armed pin
    /// interrupts is the number of enabled pin-interrupt lines.
    pub open spec fn wf(self) -> bool {
        &&& self.sfsp.len() == MUX_PORTS * PINS_PER_PORT
        &&& self.byte.len() == GPIO_PORTS * PINS_PER_PORT
        &&& self.dir.len() == GPIO_PORTS
        &&& self.channels.len() == CHANNELS
        &&& self.irq_enabled.len() == INTERRUPT_LINES
        &&& self.irq_pending.len() == INTERRUPT_LINES
        &&& self.interrupt_count == armed_lines(self.irq_enabled)
    }

    /// The register file after reset: every register zero, every channel
    /// unbound, every interrupt line masked and idle.
    pub open spec fn reset() -> Registers {
        Registers {
            sfsp: Seq::new((MUX_PORTS * PINS_PER_PORT) as nat, |i: int| 0u32),
            byte: Seq::new((GPIO_PORTS * PINS_PER_PORT) as nat, |i: int| 0u8),
            dir: Seq::new(GPIO_PORTS as nat, |i: int| 0u32),
            channels: Seq::new(CHANNELS as nat, |i: int| Channel::reset()),
            irq_enabled: Seq::new(INTERRUPT_LINES as nat, |i: int| false),
            irq_pending: Seq::new(INTERRUPT_LINES as nat, |i: int| false),
            interrupts_masked: false,
            interrupt_count: 0,
        }
    }

    /// Multiplexer register of silicon pin (`port`, `pin`).
    pub open spec fn mux(self, port: int, pin: int) -> u32 {
        self.sfsp[port * PINS_PER_PORT + pin]
    }

    /// Byte register of GPIO bit (`port`, `bit`).
    pub open spec fn level(self, port: int, bit: int) -> u8 {
        self.byte[port * PINS_PER_PORT + bit]
    }

    /// Direction register of GPIO port `port`.
    pub open spec fn direction(self, port: int) -> u32 {
        self.dir[port]
    }

    /// Interrupt line `line` is pending and unmasked, so the interrupt
    /// controller reports it.
    pub open spec fn deliverable(self, line: int) -> bool {
        &&& 0 <= line < INTERRUPT_LINES
        &&& self.irq_pending[line]
        &&& self.irq_enabled[line]
    }

    /// Where pin-interrupt channel `channel` stands.
    pub open spec fn channel_state(self, channel: int) -> ChannelState {
        if !self.channels[channel].bound {
            ChannelState::Unbound
        } else if self.irq_enabled[FIRST_CHANNEL_LINE + channel] {
            ChannelState::Armed
        } else {
            ChannelState::Bound
        }
    }

    /// The interrupt controller reports some line.
    pub open spec fn has_pending(self) -> bool {
        exists|line: int| self.deliverable(line)
    }

    /// The state with one multiplexer register replaced.
    pub open spec fn with_mux(self, port: int, pin: int, value: u32) -> Registers {
        Registers { sfsp: self.sfsp.update(port * PINS_PER_PORT + pin, value), ..self }
    }

    /// The state with one byte register replaced.
    pub open spec fn with_level(self, port: int, bit: int, value: u8) -> Registers {
        Registers { byte: self.byte.update(port * PINS_PER_PORT + bit, value), ..self }
    }

    /// The state with one direction register replaced.
    pub open spec fn with_direction(self, port: int, value: u32) -> Registers {
        Registers { dir: self.dir.update(port, value), ..self }
    }

    /// The state with one channel replaced.
    pub open spec fn with_channel(self, channel: int, value: Channel) -> Registers {
        Registers { channels: self.channels.update(channel, value), ..self }
    }

    /// The state with interrupt line `line` unmasked or masked. The count of
    /// armed pin interrupts follows the pin-interrupt lines.
    pub open spec fn with_irq_enabled(self, line: int, enabled: bool) -> Registers {
        let lines = self.irq_enabled.update(line, enabled);
        Registers { irq_enabled: lines, interrupt_count: armed_lines(lines), ..self }
    }

    /// The state with the pending flag of interrupt line `line` replaced.
    pub open spec fn with_irq_pending(self, line: int, pending: bool) -> Registers {
        Registers { irq_pending: self.irq_pending.update(line, pending), ..self }
    }

    /// The state with no interrupt line pending.
    pub open spec fn with_nothing_pending(self) -> Registers {
        Registers { irq_pending: Seq::new(INTERRUPT_LINES as nat, |i: int| false), ..self }
    }

    /// The state with the global interrupt mask replaced.
    pub open spec fn with_mask(self, masked: bool) -> Registers {
        Registers { interrupts_masked: masked, ..self }
    }

    /// The state after `edge` arrives at GPIO bit (`port`, `bit`): the byte
    /// register shows the new level, every channel that latches the edge has
    /// its status flag set, and the interrupt line of each such channel is
    /// pending.
    pub open spec fn after_edge(self, port: int, bit: int, edge: Edge) -> Registers {
        Registers {
            byte: self.byte.update(
                port * PINS_PER_PORT + bit,
                match edge {
                    Edge::Rising => 1u8,
                    Edge::Falling => 0u8,
                },
            ),
            channels: Seq::new(
                CHANNELS as nat,
                |c: int|
                    if self.channels[c].latches(port, bit, edge) {
                        self.channels[c].with_status(true)
                    } else {
                        self.channels[c]
                    },
            ),
            irq_pending: Seq::new(
                INTERRUPT_LINES as nat,
                |line: int|
                    is_channel_line(line) && self.channels[line - FIRST_CHANNEL_LINE].latches(
                        port,
                        bit,
                        edge,
                    ) || self.irq_pending[line],
            ),
            ..self
        }
    }
}

/// An in-memory register file.
pub struct Hardware {
    sfsp: Vec<u32>,
    byte: Vec<u8>,
    dir: Vec<u32>,
    channels: Vec<Channel>,
    irq_enabled: Vec<bool>,
    irq_pending: Vec<bool>,
    interrupts_masked: bool,
    interrupt_count: usize,
}

impl View for Hardware {
    type V = Registers;

    closed spec fn view(&self) -> Registers {
        Registers {
            sfsp: self.sfsp@,
            byte: self.byte@,
            dir: self.dir@,
            channels: self.channels@,
            irq_enabled: self.irq_enabled@,
            irq_pending: self.irq_pending@,
            interrupts_masked: self.interrupts_masked,
            interrupt_count: self.interrupt_count as nat,
        }
    }
}

/// A vector of `len` copies of `value`.
fn filled<T: Copy>(len: usize, value: T) -> (v: Vec<T>)
    ensures
        v@ == Seq::new(len as nat, |i: int| value),
{
    let mut v: Vec<T> = Vec::new();
    while v.len() < len
        invariant
            v.len() <= len,
            forall|i: int| 0 <= i < v.len() ==> v[i] == value,
        decreases len - v.len(),
    {
        v.push(value);
    }
    assert(v@ =~= Seq::new(len as nat, |i: int| value));
    v
}

impl Hardware {
    /// The register banks have their sizes and the interrupt count is
    /// consistent.
    pub open spec fn wf(&self) -> bool {
        self@.wf()
    }

    /// A register file in its reset state.
    pub fn new() -> (hw: Hardware)
        ensures
            hw.wf(),
            hw@ == Registers::reset(),
    {
        Hardware {
            sfsp: filled((MUX_PORTS * PINS_PER_PORT) as usize, 0u32),
            byte: filled((GPIO_PORTS * PINS_PER_PORT) as usize, 0u8),
            dir: filled(GPIO_PORTS as usize, 0u32),
            channels: filled(
                CHANNELS as usize,
                Channel {
                    bound: false,
                    port: 0,
                    bit: 0,
                    level_sensitive: false,
                    rising: false,
                    falling: false,
                    status: false,
                },
            ),
            irq_enabled: filled(INTERRUPT_LINES as usize, false),
            irq_pending: filled(INTERRUPT_LINES as usize, false),
            interrupts_masked: false,
            interrupt_count: 0,
        }
    }

    /// Reads the multiplexer register of silicon pin (`port`, `pin`).
    pub fn mux_register(&self, port: u32, pin: u32) -> (value: u32)
        requires
            self.wf(),
            port < MUX_PORTS,
            pin < PINS_PER_PORT,
        ensures
            value == self@.mux(port as int, pin as int),
    {
        self.sfsp[(port * PINS_PER_PORT + pin) as usize]
    }

    /// Writes the multiplexer register of silicon pin (`port`, `pin`).
    pub fn set_mux_register(&mut self, port: u32, pin: u32, value: u32)
        requires
            old(self).wf(),
            port < MUX_PORTS,
            pin < PINS_PER_PORT,
        ensures
            final(self).wf(),
            final(self)@ == old(self)@.with_mux(port as int, pin as int, value),
    {
        self.sfsp[(port * PINS_PER_PORT + pin) as usize] = value;
    }

    /// Reads the byte register of GPIO bit (`port`, `bit`).
    pub fn byte_register(&self, port: u32, bit: u32) -> (value: u8)
        requires
            self.wf(),
            port < GPIO_PORTS,
            bit < PINS_PER_PORT,
        ensures
            value == self@.level(port as int, bit as int),
    {
        self.byte[(port * PINS_PER_PORT + bit) as usize]
    }

    /// Writes the byte register of GPIO bit (`port`, `bit`).
    pub fn set_byte_register(&mut self, port: u32, bit: u32, value: u8)
        requires
            old(self).wf(),
            port < GPIO_PORTS,
            bit < PINS_PER_PORT,
        ensures
            final(self).wf(),
            final(self)@ == old(self)@.with_level(port as int, bit as int, value),
    {
        self.byte[(port * PINS_PER_PORT + bit) as usize] = value;
    }

    /// Reads the direction register of GPIO port `port`.
    pub fn direction_register(&self, port: u32) -> (value: u32)
        requires
            self.wf(),
            port < GPIO_PORTS,
        ensures
            value == self@.direction(port as int),
    {
        self.dir[port as usize]
    }

    /// Writes the direction register of GPIO port `port`.
    pub fn set_direction_register(&mut self, port: u32, value: u32)
        requires
            old(self).wf(),
            port < GPIO_PORTS,
        ensures
            final(self).wf(),
            final(self)@ == old(self)@.with_direction(port as int, value),
    {
        self.dir[port as usize] = value;
    }

    /// Reads pin-interrupt channel `channel`.
    pub fn channel(&self, channel: u8) -> (value: Channel)
        requires
            self.wf(),
            channel < CHANNELS,
        ensures
            value == self@.channels[channel as int],
    {
        self.channels[channel as usize]
    }

    /// Replaces pin-interrupt channel `channel`.
    pub fn set_channel(&mut self, channel: u8, value: Channel)
        requires
            old(self).wf(),
            channel < CHANNELS,
        ensures
            final(self).wf(),
            final(self)@ == old(self)@.with_channel(channel as int, value),
    {
        self.channels[channel as usize] = value;
    }

    /// Where pin-interrupt channel `channel` stands.
    pub fn channel_state(&self, channel: u8) -> (state: ChannelState)
        requires
            self.wf(),
            channel < CHANNELS,
        ensures
            state == self@.channel_state(channel as int),
    {
        if !self.channels[channel as usize].bound {
            ChannelState::Unbound
        } else if self.irq_enabled[(FIRST_CHANNEL_LINE + channel as u32) as usize] {
            ChannelState::Armed
        } else {
            ChannelState::Bound
        }
    }

    /// Whether interrupt line `line` is unmasked at the interrupt controller.
    pub fn irq_is_enabled(&self, line: u32) -> (enabled: bool)
        requires
            self.wf(),
            line < INTERRUPT_LINES,
        ensures
            enabled == self@.irq_enabled[line as int],
    {
        self.irq_enabled[line as usize]
    }

    /// Whether interrupt line `line` is pending at the interrupt controller.
    pub fn irq_is_pending(&self, line: u32) -> (pending: bool)
        requires
            self.wf(),
            line < INTERRUPT_LINES,
        ensures
            pending == self@.irq_pending[line as int],
    {
        self.irq_pending[line as usize]
    }

    /// Whether interrupts are globally masked.
    pub fn interrupts_masked(&self) -> (masked: bool)
        ensures
            masked == self@.interrupts_masked,
    {
        self.interrupts_masked
    }

    /// Sets the global interrupt mask and returns what it was before.
    pub fn set_interrupt_mask(&mut self, masked: bool) -> (prior: bool)
        ensures
            prior == old(self)@.interrupts_masked,
            final(self)@ == old(self)@.with_mask(masked),
    {
        let prior = self.interrupts_masked;
        self.interrupts_masked = masked;
        prior
    }

    /// Number of pin interrupts that are currently armed.
    pub fn interrupt_count(&self) -> (count: usize)
        ensures
            count == self@.interrupt_count,
    {
        self.interrupt_count
    }

    /// Unmasks interrupt line `line`. Where this arms a pin interrupt that
    /// was not armed, the count of armed pin interrupts goes up by one; the
    /// count is updated with interrupts masked and the mask is put back.
    pub fn irq_enable(&mut self, line: u32)
        requires
            old(self).wf(),
            line < INTERRUPT_LINES,
        ensures
            final(self).wf(),
            final(self)@ == old(self)@.with_irq_enabled(line as int, true),
    {
        let was_enabled = self.irq_enabled[line as usize];
        self.irq_enabled[line as usize] = true;
        if !was_enabled && FIRST_CHANNEL_LINE <= line && line < FIRST_CHANNEL_LINE + CHANNELS {
            let prior = self.set_interrupt_mask(true);
            self.interrupt_count = self.interrupt_count + 1;
            self.set_interrupt_mask(prior);
        }
    }

    /// Masks interrupt line `line`. Where this disarms a pin interrupt that
    /// was armed, the count of armed pin interrupts goes down by one; the
    /// count is updated with interrupts masked and the mask is put back.
    pub fn irq_disable(&mut self, line: u32)
        requires
            old(self).wf(),
            line < INTERRUPT_LINES,
        ensures
            final(self).wf(),
            final(self)@ == old(self)@.with_irq_enabled(line as int, false),
    {
        let was_enabled = self.irq_enabled[line as usize];
        self.irq_enabled[line as usize] = false;
        if was_enabled && FIRST_CHANNEL_LINE <= line && line < FIRST_CHANNEL_LINE + CHANNELS {
            let prior = self.set_interrupt_mask(true);
            self.interrupt_count = self.interrupt_count - 1;
            self.set_interrupt_mask(prior);
        }
    }

    /// Makes interrupt line `line` pending, as a peripheral that raises the
    /// line does.
    pub fn irq_set_pending(&mut self, line: u32)
        requires
            old(self).wf(),
            line < INTERRUPT_LINES,
        ensures
            final(self).wf(),
            final(self)@ == old(self)@.with_irq_pending(line as int, true),
    {
        self.irq_pending[line as usize] = true;
    }

    /// Clears the pending flag of interrupt line `line`.
    pub fn irq_clear_pending(&mut self, line: u32)
        requires
            old(self).wf(),
            line < INTERRUPT_LINES,
        ensures
            final(self).wf(),
            final(self)@ == old(self)@.with_irq_pending(line as int, false),
    {
        self.irq_pending[line as usize] = false;
    }

    /// Clears the pending flag of every interrupt line.
    pub fn irq_clear_all_pending(&mut self)
        requires
            old(self).wf(),
        ensures
            final(self).wf(),
            final(self)@ == old(self)@.with_nothing_pending(),
    {
        let mut line: usize = 0;
        while line < INTERRUPT_LINES as usize
            invariant
                line <= INTERRUPT_LINES,
                self.wf(),
                self@.with_nothing_pending() == old(self)@.with_nothing_pending(),
                forall|i: int| 0 <= i < line ==> !self.irq_pending[i],
            decreases INTERRUPT_LINES - line,
        {
            self.irq_pending[line] = false;
            line += 1;
        }
        assert(self.irq_pending@ =~= Seq::new(INTERRUPT_LINES as nat, |i: int| false));
    }

    /// The lowest interrupt line that is pending and unmasked, if there is
    /// one.
    pub fn next_pending(&self) -> (next: Option<u32>)
        requires
            self.wf(),
        ensures
            match next {
                Some(line) => self@.deliverable(line as int) && forall|lower: int|
                    0 <= lower < line ==> !self@.deliverable(lower),
                None => !self@.has_pending(),
            },
    {
        let mut line: u32 = 0;
        while line < INTERRUPT_LINES
            invariant
                line <= INTERRUPT_LINES,
                self.wf(),
                forall|lower: int| 0 <= lower < line ==> !self@.deliverable(lower),
            decreases INTERRUPT_LINES - line,
        {
            if self.irq_pending[line as usize] && self.irq_enabled[line as usize] {
                return Some(line);
            }
            line += 1;
        }
        None
    }

    /// Whether the interrupt controller reports a pending interrupt.
    pub fn has_pending(&self) -> (pending: bool)
        requires
            self.wf(),
        ensures
            pending == self@.has_pending(),
    {
        self.next_pending().is_some()
    }

    /// A signal edge arrives at GPIO bit (`port`, `bit`). The byte register
    /// takes the level after the edge; each channel that is wired to the bit
    /// and set up for this edge latches it and raises its interrupt line.
    pub fn edge(&mut self, port: u8, bit: u8, edge: Edge)
        requires
            old(self).wf(),
            port < GPIO_PORTS,
            bit < PINS_PER_PORT,
        ensures
            final(self).wf(),
            final(self)@ == old(self)@.after_edge(port as int, bit as int, edge),
    {
        let ghost before = self@;
        let level: u8 = match edge {
            Edge::Rising => 1,
            Edge::Falling => 0,
        };
        self.byte[(port as u32 * PINS_PER_PORT + bit as u32) as usize] = level;
        let mut c: u8 = 0;
        while c < CHANNELS as u8
            invariant
                c <= CHANNELS,
                before.wf(),
                self.wf(),
                self@.sfsp == before.sfsp,
                self@.byte == before.after_edge(port as int, bit as int, edge).byte,
                self@.dir == before.dir,
                self@.irq_enabled == before.irq_enabled,
                self@.interrupts_masked == before.interrupts_masked,
                self@.interrupt_count == before.interrupt_count,
                forall|k: int|
                    0 <= k < CHANNELS ==> self@.channels[k] == if k < c
                        && before.channels[k].latches(port as int, bit as int, edge) {
                        before.channels[k].with_status(true)
                    } else {
                        before.channels[k]
                    },
                forall|line: int|
                    0 <= line < INTERRUPT_LINES ==> self@.irq_pending[line] == (is_channel_line(
                        line,
                    ) && line - FIRST_CHANNEL_LINE < c && before.channels[line
                        - FIRST_CHANNEL_LINE].latches(port as int, bit as int, edge)
                        || before.irq_pending[line]),
            decreases CHANNELS - c,
        {
            let channel = self.channels[c as usize];
            let wanted = match edge {
                Edge::Rising => channel.rising,
                Edge::Falling => channel.falling,
            };
            if channel.bound && channel.port == port && channel.bit == bit
                && !channel.level_sensitive && wanted {
                self.channels[c as usize] = Channel { status: true, ..channel };
                self.irq_pending[(FIRST_CHANNEL_LINE + c as u32) as usize] = true;
            }
            c += 1;
        }
        assert(self@.channels =~= before.after_edge(port as int, bit as int, edge).channels);
        assert(self@.irq_pending =~= before.after_edge(port as int, bit as int, edge).irq_pending);
    }
}

} // verus!
