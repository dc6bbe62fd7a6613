//! Adapter that drives an HD44780-style character LCD through a PCF8574-style
//! I2C GPIO expander ("backpack" board).
//!
//! The expander exposes eight undifferentiated output/input lines that are
//! written and read as a single byte. This crate maps each logical LCD
//! control line (register select, read/write, enable, the four data lines,
//! and the backlight) onto one physical expander bit, accumulates the desired
//! output levels in an 8-bit state register, and flushes that register to the
//! device in one bus transaction. Inbound status bytes are decoded back into
//! logical data-line values using the same pin assignment in reverse.
//!
//! The bus itself is abstracted as the [`bus::I2cBus`] trait: one byte
//! written to, or read from, a device at a 7-bit address. Callers supply an
//! implementation backed by whatever I2C driver the target platform offers.

pub mod backpack;
pub mod bits;
pub mod bus;
pub mod error;

pub use backpack::check_pin;
pub use backpack::FunctionMode;
pub use backpack::I2cLcdBackpack;
pub use backpack::I2cLcdPinConfig;
pub use backpack::PinView;
pub use backpack::RW_PIN_NONE;
pub use bus::BusError;
pub use bus::I2cBus;
pub use error::LcdError;
