//! The pin assignment table and the backpack adapter.

use vstd::prelude::*;
use crate::bits::spec_bit;
use crate::bits::spec_bit_set;
use crate::bits::get_bit;
use crate::bits::set_bit;
use crate::bits::lemma_bit_set_read_back;
use crate::bus::BusError;
use crate::bus::I2cBus;
use crate::error::LcdError;

verus! {

/// Marker held in the read/write slot when no physical position is assigned
/// to it; read support is then disabled end to end.
pub const RW_PIN_NONE: u8 = 0xff;

/// The mathematical view of a pin assignment: the physical bit position of
/// each logical role.
pub struct PinView {
    /// Register-select line.
    pub rs: u8,
    /// Read/write line, or [`RW_PIN_NONE`] when reads are unsupported.
    pub rw: u8,
    /// Enable line.
    pub en: u8,
    /// Backlight line.
    pub backlight: u8,
    /// Data line 4.
    pub d4: u8,
    /// Data line 5.
    pub d5: u8,
    /// Data line 6.
    pub d6: u8,
    /// Data line 7.
    pub d7: u8,
}

impl PinView {
    /// Every role sits at a physical position in `0..=7`; the read/write
    /// role alone may instead be unassigned.
    pub open spec fn wf(self) -> bool {
        &&& self.rs <= 7
        &&& self.rw == RW_PIN_NONE || self.rw <= 7
        &&& self.en <= 7
        &&& self.backlight <= 7
        &&& self.d4 <= 7
        &&& self.d5 <= 7
        &&& self.d6 <= 7
        &&& self.d7 <= 7
    }

    /// The four data lines sit at pairwise distinct physical positions.
    pub open spec fn data_distinct(self) -> bool {
        &&& self.d4 != self.d5
        &&& self.d4 != self.d6
        &&& self.d4 != self.d7
        &&& self.d5 != self.d6
        &&& self.d5 != self.d7
        &&& self.d6 != self.d7
    }
}

/// The documented default assignment of the common commodity backpack board.
pub open spec fn spec_default_pins() -> PinView {
    PinView { rs: 0, rw: 1, en: 2, backlight: 3, d4: 4, d5: 5, d6: 6, d7: 7 }
}

/// The pin assignment configuration for the I2C LCD backpack.
///
/// Built by overriding the default assignment one role at a time; each
/// setter validates its position, so every value obtained through this
/// builder satisfies [`PinView::wf`].
#[derive(Clone, Copy, Debug)]
pub struct I2cLcdPinConfig {
    rw_pin: u8,
    rs_pin: u8,
    en_pin: u8,
    d4_pin: u8,
    d5_pin: u8,
    d6_pin: u8,
    d7_pin: u8,
    backlight_pin: u8,
}

impl View for I2cLcdPinConfig {
    type V = PinView;

    closed spec fn view(&self) -> PinView {
        PinView {
            rs: self.rs_pin,
            rw: self.rw_pin,
            en: self.en_pin,
            backlight: self.backlight_pin,
            d4: self.d4_pin,
            d5: self.d5_pin,
            d6: self.d6_pin,
            d7: self.d7_pin,
        }
    }
}

impl Default for I2cLcdPinConfig {
    /// The common board layout: RS=0, RW=1, EN=2, backlight=3, D4..D7=4..7.
    fn default() -> (r: Self)
        ensures
            r@ == spec_default_pins(),
    {
        Self {
            rs_pin: 0,
            rw_pin: 1,
            en_pin: 2,
            backlight_pin: 3,
            d4_pin: 4,
            d5_pin: 5,
            d6_pin: 6,
            d7_pin: 7,
        }
    }
}

/// The validation rule every builder setter routes through: a physical
/// position is accepted exactly when it lies in `0..=7`; any value of 8 or
/// greater is a configuration error, so no assignment holding one can be
/// completed.
pub fn check_pin(pin: u8) -> (r: Result<(), LcdError>)
    ensures
        r is Ok <==> pin <= 7,
        r is Err ==> r->Err_0 == LcdError::InvalidPin,
{
    if pin > 7 {
        Err(LcdError::InvalidPin)
    } else {
        Ok(())
    }
}

impl I2cLcdPinConfig {
    /// Assign the read/write role, or pass `None` to disable reading from
    /// the LCD altogether.
    ///
    /// The default assignment is output 1.
    pub fn rw(self, rw_pin: Option<u8>) -> (r: Result<Self, LcdError>)
        ensures
            match rw_pin {
                Some(p) => {
                    &&& p <= 7 ==> r is Ok && r->Ok_0@ == (PinView { rw: p, ..self@ })
                    &&& p > 7 ==> r is Err && r->Err_0 == LcdError::InvalidPin
                },
                None => r is Ok && r->Ok_0@ == (PinView { rw: RW_PIN_NONE, ..self@ }),
            },
    {
        match rw_pin {
            Some(p) => match check_pin(p) {
                Ok(()) => Ok(Self { rw_pin: p, ..self }),
                Err(e) => Err(e),
            },
            None => Ok(Self { rw_pin: RW_PIN_NONE, ..self }),
        }
    }

    /// Assign the register-select (RS) role.
    ///
    /// The default assignment is output 0.
    pub fn rs(self, rs_pin: u8) -> (r: Result<Self, LcdError>)
        ensures
            rs_pin <= 7 ==> r is Ok && r->Ok_0@ == (PinView { rs: rs_pin, ..self@ }),
            rs_pin > 7 ==> r is Err && r->Err_0 == LcdError::InvalidPin,
    {
        match check_pin(rs_pin) {
            Ok(()) => Ok(Self { rs_pin, ..self }),
            Err(e) => Err(e),
        }
    }

    /// Assign the enable (EN) role.
    ///
    /// The default assignment is output 2.
    pub fn en(self, en_pin: u8) -> (r: Result<Self, LcdError>)
        ensures
            en_pin <= 7 ==> r is Ok && r->Ok_0@ == (PinView { en: en_pin, ..self@ }),
            en_pin > 7 ==> r is Err && r->Err_0 == LcdError::InvalidPin,
    {
        match check_pin(en_pin) {
            Ok(()) => Ok(Self { en_pin, ..self }),
            Err(e) => Err(e),
        }
    }

    /// Assign the data line 4 role.
    ///
    /// The default assignment is output 4.
    pub fn d4(self, d4_pin: u8) -> (r: Result<Self, LcdError>)
        ensures
            d4_pin <= 7 ==> r is Ok && r->Ok_0@ == (PinView { d4: d4_pin, ..self@ }),
            d4_pin > 7 ==> r is Err && r->Err_0 == LcdError::InvalidPin,
    {
        match check_pin(d4_pin) {
            Ok(()) => Ok(Self { d4_pin, ..self }),
            Err(e) => Err(e),
        }
    }

    /// Assign the data line 5 role.
    ///
    /// The default assignment is output 5.
    pub fn d5(self, d5_pin: u8) -> (r: Result<Self, LcdError>)
        ensures
            d5_pin <= 7 ==> r is Ok && r->Ok_0@ == (PinView { d5: d5_pin, ..self@ }),
            d5_pin > 7 ==> r is Err && r->Err_0 == LcdError::InvalidPin,
    {
        match check_pin(d5_pin) {
            Ok(()) => Ok(Self { d5_pin, ..self }),
            Err(e) => Err(e),
        }
    }

    /// Assign the data line 6 role.
    ///
    /// The default assignment is output 6.
    pub fn d6(self, d6_pin: u8) -> (r: Result<Self, LcdError>)
        ensures
            d6_pin <= 7 ==> r is Ok && r->Ok_0@ == (PinView { d6: d6_pin, ..self@ }),
            d6_pin > 7 ==> r is Err && r->Err_0 == LcdError::InvalidPin,
    {
        match check_pin(d6_pin) {
            Ok(()) => Ok(Self { d6_pin, ..self }),
            Err(e) => Err(e),
        }
    }

    /// Assign the data line 7 role.
    ///
    /// The default assignment is output 7.
    pub fn d7(self, d7_pin: u8) -> (r: Result<Self, LcdError>)
        ensures
            d7_pin <= 7 ==> r is Ok && r->Ok_0@ == (PinView { d7: d7_pin, ..self@ }),
            d7_pin > 7 ==> r is Err && r->Err_0 == LcdError::InvalidPin,
    {
        match check_pin(d7_pin) {
            Ok(()) => Ok(Self { d7_pin, ..self }),
            Err(e) => Err(e),
        }
    }

    /// Assign the backlight role.
    ///
    /// The default assignment is output 3.
    pub fn backlight(self, backlight_pin: u8) -> (r: Result<Self, LcdError>)
        ensures
            backlight_pin <= 7 ==> r is Ok && r->Ok_0@ == (
                PinView { backlight: backlight_pin, ..self@ }
            ),
            backlight_pin > 7 ==> r is Err && r->Err_0 == LcdError::InvalidPin,
    {
        match check_pin(backlight_pin) {
            Ok(()) => Ok(Self { backlight_pin, ..self }),
            Err(e) => Err(e),
        }
    }
}

/// How command and data bytes travel to the LCD controller.
#[derive(Clone, Copy, Debug, PartialEq, Eq, Structural)]
pub enum FunctionMode {
    /// Each byte crosses as two successive 4-bit halves.
    Bit4,
    /// Each byte crosses whole, over eight data lines.
    Bit8,
}

/// The state register after a 4-bit value is written to the data lines:
/// bit 0 of `v` drives the position of data line 4, bit 1 that of data
/// line 5, bit 2 that of data line 6 and bit 3 that of data line 7, in that
/// order, each independently of the others.
pub open spec fn spec_write_nibble(p: PinView, s: u8, v: u8) -> u8 {
    spec_bit_set(
        spec_bit_set(
            spec_bit_set(spec_bit_set(s, p.d4, spec_bit(v, 0)), p.d5, spec_bit(v, 1)),
            p.d6,
            spec_bit(v, 2),
        ),
        p.d7,
        spec_bit(v, 3),
    )
}

/// The 4-bit value decoded from a byte read off the bus: bit 0 of the
/// result is the level at the position of data line 4, bit 1 that of data
/// line 5, bit 2 that of data line 6 and bit 3 that of data line 7.
pub open spec fn spec_read_nibble(p: PinView, v: u8) -> u8 {
    spec_bit_set(
        spec_bit_set(
            spec_bit_set(spec_bit_set(0u8, 0, spec_bit(v, p.d4)), 1, spec_bit(v, p.d5)),
            2,
            spec_bit(v, p.d6),
        ),
        3,
        spec_bit(v, p.d7),
    )
}

/// Law: the decoded nibble is exactly the four data-line bits of the byte
/// read, in order, and nothing more: it is a 4-bit value whose bit `i`
/// equals the level at the position assigned to data line `4 + i`.
pub proof fn lemma_read_nibble_decodes_data_lines(p: PinView, v: u8)
    requires
        p.wf(),
    ensures
        spec_read_nibble(p, v) <= 15,
        spec_bit(spec_read_nibble(p, v), 0) == spec_bit(v, p.d4),
        spec_bit(spec_read_nibble(p, v), 1) == spec_bit(v, p.d5),
        spec_bit(spec_read_nibble(p, v), 2) == spec_bit(v, p.d6),
        spec_bit(spec_read_nibble(p, v), 3) == spec_bit(v, p.d7),
{
    let d4: u8 = p.d4;
    let d5: u8 = p.d5;
    let d6: u8 = p.d6;
    let d7: u8 = p.d7;
    assert({
        let c3: u8 = spec_bit_set(
            spec_bit_set(
                spec_bit_set(spec_bit_set(0u8, 0, spec_bit(v, d4)), 1, spec_bit(v, d5)),
                2,
                spec_bit(v, d6),
            ),
            3,
            spec_bit(v, d7),
        );
        c3 <= 15 && spec_bit(c3, 0) == spec_bit(v, d4) && spec_bit(c3, 1) == spec_bit(v, d5)
            && spec_bit(c3, 2) == spec_bit(v, d6) && spec_bit(c3, 3) == spec_bit(v, d7)
    }) by (bit_vector);
}

/// Law: decoding reads only the four data-line positions. Two bytes that
/// agree at those positions decode to the same nibble, whatever their other
/// bits hold.
pub proof fn lemma_read_nibble_ignores_other_bits(p: PinView, v1: u8, v2: u8)
    requires
        p.wf(),
        spec_bit(v1, p.d4) == spec_bit(v2, p.d4),
        spec_bit(v1, p.d5) == spec_bit(v2, p.d5),
        spec_bit(v1, p.d6) == spec_bit(v2, p.d6),
        spec_bit(v1, p.d7) == spec_bit(v2, p.d7),
    ensures
        spec_read_nibble(p, v1) == spec_read_nibble(p, v2),
{
}

/// Law: writing a 4-bit value to the data lines and reading the same lines
/// back reconstructs the value, under any well-formed assignment whose data
/// lines sit at pairwise distinct positions, whatever the register held
/// before.
pub proof fn lemma_data_nibble_round_trip(p: PinView, s: u8, v: u8)
    requires
        p.wf(),
        p.data_distinct(),
        v <= 15,
    ensures
        spec_read_nibble(p, spec_write_nibble(p, s, v)) == v,
{
    let c0: u8 = spec_bit_set(s, p.d4, spec_bit(v, 0));
    let c1: u8 = spec_bit_set(c0, p.d5, spec_bit(v, 1));
    let c2: u8 = spec_bit_set(c1, p.d6, spec_bit(v, 2));
    let w: u8 = spec_bit_set(c2, p.d7, spec_bit(v, 3));

    lemma_bit_set_read_back(c2, p.d7, p.d4, spec_bit(v, 3));
    lemma_bit_set_read_back(c1, p.d6, p.d4, spec_bit(v, 2));
    lemma_bit_set_read_back(c0, p.d5, p.d4, spec_bit(v, 1));
    lemma_bit_set_read_back(s, p.d4, p.d4, spec_bit(v, 0));
    assert(spec_bit(w, p.d4) == spec_bit(v, 0));

    lemma_bit_set_read_back(c2, p.d7, p.d5, spec_bit(v, 3));
    lemma_bit_set_read_back(c1, p.d6, p.d5, spec_bit(v, 2));
    lemma_bit_set_read_back(c0, p.d5, p.d5, spec_bit(v, 1));
    assert(spec_bit(w, p.d5) == spec_bit(v, 1));

    lemma_bit_set_read_back(c2, p.d7, p.d6, spec_bit(v, 3));
    lemma_bit_set_read_back(c1, p.d6, p.d6, spec_bit(v, 2));
    assert(spec_bit(w, p.d6) == spec_bit(v, 2));

    lemma_bit_set_read_back(c2, p.d7, p.d7, spec_bit(v, 3));
    assert(spec_bit(w, p.d7) == spec_bit(v, 3));

    assert(v <= 15 ==> spec_bit_set(
        spec_bit_set(
            spec_bit_set(spec_bit_set(0u8, 0, spec_bit(v, 0)), 1, spec_bit(v, 1)),
            2,
            spec_bit(v, 2),
        ),
        3,
        spec_bit(v, 3),
    ) == v) by (bit_vector);
}

/// LCD character display hardware driver for the I2C backpack board.
///
/// Owns the bus handle, the device address, the pin assignment and the
/// 8-bit output state register. Control-line setters mutate the state
/// register in memory only; [`apply`](Self::apply) flushes it to the device
/// in one bus write.
pub struct I2cLcdBackpack<T> {
    driver: T,
    address: u8,
    state: u8,
    pins: I2cLcdPinConfig,
    /// Ghost log of this adapter's completed bus writes: one `(address,
    /// byte)` entry per `write_byte` call that returned success, appended
    /// beside the call itself.
    writes: Ghost<Seq<(u8, u8)>>,
    /// Ghost log of this adapter's completed bus reads: one `(address,
    /// byte)` entry per `read_byte` call that returned success, holding the
    /// address read from and the byte returned, appended beside the call
    /// itself.
    reads: Ghost<Seq<(u8, u8)>>,
    /// Ghost log of the transport errors the bus port has returned, in
    /// order: one entry per failed transaction, appended beside the failing
    /// call itself.
    failures: Ghost<Seq<BusError>>,
}

impl<T> I2cLcdBackpack<T> {
    /// The bus handle.
    pub closed spec fn spec_bus(self) -> T {
        self.driver
    }

    /// The `(address, byte)` pairs this adapter has written to the bus, in
    /// order, successful transactions only.
    pub closed spec fn spec_writes(self) -> Seq<(u8, u8)> {
        self.writes@
    }

    /// The `(address, byte)` pairs this adapter's successful bus reads have
    /// performed, in order: the address read from and the byte returned.
    pub closed spec fn spec_reads(self) -> Seq<(u8, u8)> {
        self.reads@
    }

    /// The transport errors the bus port has returned, in order, one per
    /// failed transaction.
    pub closed spec fn spec_failures(self) -> Seq<BusError> {
        self.failures@
    }

    /// The 7-bit device address every transaction goes to.
    pub closed spec fn spec_address(self) -> u8 {
        self.address
    }

    /// The output state register: the desired level of each expander line.
    pub closed spec fn spec_state(self) -> u8 {
        self.state
    }

    /// The pin assignment in force.
    pub closed spec fn spec_pins(self) -> PinView {
        self.pins@
    }

    /// The pin assignment maps every role into the expander byte.
    pub open spec fn wf(self) -> bool {
        self.spec_pins().wf()
    }

    /// `post` differs from `self` at most in the state register and the bus
    /// side: address and pin assignment never change after construction.
    pub open spec fn same_config(self, post: Self) -> bool {
        &&& post.spec_pins() == self.spec_pins()
        &&& post.spec_address() == self.spec_address()
    }

    /// `post` has seen exactly the bus traffic `self` had: no transaction,
    /// successful or failed, happened in between.
    pub open spec fn same_bus_traffic(self, post: Self) -> bool {
        &&& post.spec_writes() == self.spec_writes()
        &&& post.spec_reads() == self.spec_reads()
        &&& post.spec_failures() == self.spec_failures()
    }

    /// Create a driver for a backpack at the given address with the default
    /// (common) pin assignment.
    pub fn new(driver: T, address: u8) -> (r: Self)
        ensures
            r.spec_bus() == driver,
            r.spec_address() == address,
            r.spec_state() == 0,
            r.spec_pins() == spec_default_pins(),
            r.spec_writes() == Seq::<(u8, u8)>::empty(),
            r.spec_reads() == Seq::<(u8, u8)>::empty(),
            r.spec_failures() == Seq::<BusError>::empty(),
    {
        Self::new_with_pins(driver, address, I2cLcdPinConfig::default())
    }

    /// Create a driver for a backpack at the given address with a custom
    /// pin assignment.
    pub fn new_with_pins(driver: T, address: u8, pins: I2cLcdPinConfig) -> (r: Self)
        ensures
            r.spec_bus() == driver,
            r.spec_address() == address,
            r.spec_state() == 0,
            r.spec_pins() == pins@,
            r.spec_writes() == Seq::<(u8, u8)>::empty(),
            r.spec_reads() == Seq::<(u8, u8)>::empty(),
            r.spec_failures() == Seq::<BusError>::empty(),
    {
        Self {
            driver,
            address,
            state: 0,
            pins,
            writes: Ghost(Seq::empty()),
            reads: Ghost(Seq::empty()),
            failures: Ghost(Seq::empty()),
        }
    }

    /// Borrow the bus handle, for inspection or reuse by the caller.
    pub fn bus(&self) -> (r: &T)
        ensures
            *r == self.spec_bus(),
    {
        &self.driver
    }

    /// Drive the register-select line. In-memory only; no bus traffic.
    pub fn rs(&mut self, bit: bool)
        requires
            old(self).wf(),
        ensures
            old(self).same_config(*final(self)),
            final(self).spec_bus() == old(self).spec_bus(),
            old(self).same_bus_traffic(*final(self)),
            final(self).spec_state() == spec_bit_set(
                old(self).spec_state(),
                old(self).spec_pins().rs,
                bit,
            ),
    {
        self.state = set_bit(self.state, self.pins.rs_pin, bit);
    }

    /// Drive the enable line. In-memory only; no bus traffic.
    pub fn enable(&mut self, bit: bool)
        requires
            old(self).wf(),
        ensures
            old(self).same_config(*final(self)),
            final(self).spec_bus() == old(self).spec_bus(),
            old(self).same_bus_traffic(*final(self)),
            final(self).spec_state() == spec_bit_set(
                old(self).spec_state(),
                old(self).spec_pins().en,
                bit,
            ),
    {
        self.state = set_bit(self.state, self.pins.en_pin, bit);
    }

    /// Drive the four data lines from the low 4 bits of `data`: bit 0 to
    /// data line 4's position through bit 3 to data line 7's position, in
    /// that order. Bits 4..=7 of `data` are ignored. In-memory only; no bus
    /// traffic.
    pub fn data(&mut self, data: u8)
        requires
            old(self).wf(),
        ensures
            old(self).same_config(*final(self)),
            final(self).spec_bus() == old(self).spec_bus(),
            old(self).same_bus_traffic(*final(self)),
            final(self).spec_state() == spec_write_nibble(
                old(self).spec_pins(),
                old(self).spec_state(),
                data,
            ),
    {
        self.state = set_bit(self.state, self.pins.d4_pin, get_bit(data, 0));
        self.state = set_bit(self.state, self.pins.d5_pin, get_bit(data, 1));
        self.state = set_bit(self.state, self.pins.d6_pin, get_bit(data, 2));
        self.state = set_bit(self.state, self.pins.d7_pin, get_bit(data, 3));
    }

    /// This adapter always runs the controller in 4-bit nibble mode: all
    /// eight expander lines are already committed to the four data lines,
    /// RS, RW, EN and the backlight.
    pub fn mode(&self) -> (r: FunctionMode)
        ensures
            r == FunctionMode::Bit4,
    {
        FunctionMode::Bit4
    }

    /// Whether the read path is available: true exactly when the read/write
    /// role is assigned a physical position.
    pub fn can_read(&self) -> (r: bool)
        ensures
            r == (self.spec_pins().rw != RW_PIN_NONE),
    {
        self.pins.rw_pin != RW_PIN_NONE
    }

    /// Drive the read/write line. Driving it high also forces all four
    /// data-line bits of the state register high, the input-ready pattern:
    /// on this expander family a line driven high can be pulled low by the
    /// peripheral, which is how input is sensed. In-memory only; no bus
    /// traffic. Fails if the read/write role is unassigned.
    pub fn rw(&mut self, bit: bool) -> (r: Result<(), LcdError>)
        requires
            old(self).wf(),
        ensures
            old(self).same_config(*final(self)),
            final(self).spec_bus() == old(self).spec_bus(),
            old(self).same_bus_traffic(*final(self)),
            old(self).spec_pins().rw == RW_PIN_NONE ==> {
                &&& r is Err
                &&& r->Err_0 == LcdError::ReadNotSupported
                &&& *final(self) == *old(self)
            },
            old(self).spec_pins().rw != RW_PIN_NONE ==> {
                &&& r is Ok
                &&& final(self).spec_state() == (if bit {
                    spec_bit_set(
                        spec_write_nibble(old(self).spec_pins(), old(self).spec_state(), 0xf),
                        old(self).spec_pins().rw,
                        true,
                    )
                } else {
                    spec_bit_set(old(self).spec_state(), old(self).spec_pins().rw, false)
                })
            },
    {
        if self.pins.rw_pin == RW_PIN_NONE {
            return Err(LcdError::ReadNotSupported);
        }
        if bit {
            // Configure all data pins as inputs.
            self.data(0b1111);
            self.state = set_bit(self.state, self.pins.rw_pin, true);
        } else {
            self.state = set_bit(self.state, self.pins.rw_pin, false);
        }
        Ok(())
    }
}

impl<T: I2cBus> I2cLcdBackpack<T> {
    /// Flush the state register: exactly one bus write of the accumulated
    /// byte to the configured address. The register itself is not cleared;
    /// it holds persistent desired state. A transport failure is returned
    /// carrying the very error the port reported, with nothing logged as
    /// written.
    pub fn apply(&mut self) -> (r: Result<(), LcdError>)
        ensures
            old(self).same_config(*final(self)),
            final(self).spec_state() == old(self).spec_state(),
            final(self).spec_reads() == old(self).spec_reads(),
            r is Ok ==> {
                &&& final(self).spec_writes() == old(self).spec_writes().push(
                    (old(self).spec_address(), old(self).spec_state()),
                )
                &&& final(self).spec_failures() == old(self).spec_failures()
            },
            r is Err ==> {
                &&& r->Err_0 is Transport
                &&& final(self).spec_writes() == old(self).spec_writes()
                &&& final(self).spec_failures() == old(self).spec_failures().push(
                    r->Err_0->Transport_0,
                )
            },
    {
        match self.driver.write_byte(self.address, self.state) {
            Ok(()) => {
                self.writes = Ghost(self.writes@.push((self.address, self.state)));
                Ok(())
            },
            Err(e) => {
                self.failures = Ghost(self.failures@.push(e));
                Err(LcdError::Transport(e))
            },
        }
    }

    /// Read one status byte from the device at the configured address and
    /// decode the four data-line bits out of it, the inverse of
    /// [`data`](Self::data): bit `i` of the result is the level found at
    /// data line `4 + i`'s position. Exactly one bus read, from the
    /// configured address, on success; a transport failure is returned
    /// carrying the very error the port reported; no bus access at all if
    /// the read/write role is unassigned.
    pub fn read_data(&mut self) -> (r: Result<u8, LcdError>)
        requires
            old(self).wf(),
        ensures
            old(self).same_config(*final(self)),
            final(self).spec_state() == old(self).spec_state(),
            final(self).spec_writes() == old(self).spec_writes(),
            old(self).spec_pins().rw == RW_PIN_NONE ==> {
                &&& r is Err
                &&& r->Err_0 == LcdError::ReadNotSupported
                &&& *final(self) == *old(self)
            },
            old(self).spec_pins().rw != RW_PIN_NONE && r is Ok ==> {
                &&& final(self).spec_reads() == old(self).spec_reads().push(
                    (old(self).spec_address(), final(self).spec_reads().last().1),
                )
                &&& r->Ok_0 == spec_read_nibble(
                    old(self).spec_pins(),
                    final(self).spec_reads().last().1,
                )
                &&& r->Ok_0 <= 15
                &&& final(self).spec_failures() == old(self).spec_failures()
            },
            old(self).spec_pins().rw != RW_PIN_NONE && r is Err ==> {
                &&& r->Err_0 is Transport
                &&& final(self).spec_reads() == old(self).spec_reads()
                &&& final(self).spec_failures() == old(self).spec_failures().push(
                    r->Err_0->Transport_0,
                )
            },
    {
        if self.pins.rw_pin == RW_PIN_NONE {
            return Err(LcdError::ReadNotSupported);
        }
        let byte = match self.driver.read_byte(self.address) {
            Ok(b) => b,
            Err(e) => {
                self.failures = Ghost(self.failures@.push(e));
                return Err(LcdError::Transport(e));
            },
        };
        self.reads = Ghost(self.reads@.push((self.address, byte)));
        let mut data: u8 = 0;
        data = set_bit(data, 0, get_bit(byte, self.pins.d4_pin));
        data = set_bit(data, 1, get_bit(byte, self.pins.d5_pin));
        data = set_bit(data, 2, get_bit(byte, self.pins.d6_pin));
        data = set_bit(data, 3, get_bit(byte, self.pins.d7_pin));
        proof {
            lemma_read_nibble_decodes_data_lines(old(self).spec_pins(), byte);
        }
        Ok(data)
    }

    /// Set or clear the backlight bit of the state register and flush
    /// immediately: exactly one bus write per call, and every non-backlight
    /// register bit keeps its previous value. Unlike the control-line
    /// setters this operation is not batched, since backlight toggles
    /// happen outside the controller's own command framing.
    pub fn set_backlight(&mut self, enable: bool) -> (r: Result<(), LcdError>)
        requires
            old(self).wf(),
        ensures
            old(self).same_config(*final(self)),
            final(self).spec_state() == spec_bit_set(
                old(self).spec_state(),
                old(self).spec_pins().backlight,
                enable,
            ),
            final(self).spec_reads() == old(self).spec_reads(),
            r is Ok ==> {
                &&& final(self).spec_writes() == old(self).spec_writes().push(
                    (
                        old(self).spec_address(),
                        spec_bit_set(
                            old(self).spec_state(),
                            old(self).spec_pins().backlight,
                            enable,
                        ),
                    ),
                )
                &&& final(self).spec_failures() == old(self).spec_failures()
            },
            r is Err ==> {
                &&& r->Err_0 is Transport
                &&& final(self).spec_writes() == old(self).spec_writes()
                &&& final(self).spec_failures() == old(self).spec_failures().push(
                    r->Err_0->Transport_0,
                )
            },
    {
        self.state = set_bit(self.state, self.pins.backlight_pin, enable);
        self.apply()
    }
}

} // verus!
