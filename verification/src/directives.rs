//! Plain-data directives accepted by the instrument methods.
//!
//! Each type mirrors a configuration choice of the native instrument
//! library: which lines are biased, when and at what voltage read-outs
//! happen, how retrieved memory is filtered, and which auxiliary DAC
//! function a voltage applies to. Voltages travel through this crate as
//! IEEE 754 single-precision bit patterns, so that the directives stay
//! plain integer data; the boundary layer that talks to the instrument
//! converts them to floating-point values unchanged.

use vstd::prelude::*;

use crate::error::DirectiveError;
use crate::text::str_eq;

verus! {

/// Marks the order of biasing in multi-crosspoint pulse and read
/// operations: either rows or columns form the active set.
#[derive(Clone, Copy, Debug, PartialEq, Eq, Structural)]
pub enum BiasOrder {
    /// Bias rows
    Rows,
    /// Bias columns
    Cols,
}

/// Daughterboard operation mode: route device connections to the external
/// header pins or through the internal circuitry.
#[derive(Clone, Copy, Debug, PartialEq, Eq, Structural)]
pub enum ControlMode {
    /// Switch to external headers
    Header,
    /// Switch to internal control
    Internal,
}

/// Retrieval mode for values read out of instrument memory: only the
/// wordline channels, only the bitline channels, or everything.
#[derive(Clone, Copy, Debug, PartialEq, Eq, Structural)]
pub enum DataMode {
    /// Return values associated with wordlines
    Words,
    /// Return values associated with bitlines
    Bits,
    /// Return all data
    All,
}

/// How raw memory values are decoded: as current or as voltage readings.
#[derive(Clone, Copy, Debug, PartialEq, Eq, Structural)]
pub enum ReadType {
    /// Decode values into current readings
    Current,
    /// Decode values into voltage readings
    Voltage,
}

/// Identifier for the auxiliary DAC functions that manage the peripheral
/// instrument circuitry.
#[allow(non_camel_case_types)]
#[derive(Clone, Copy, Debug, PartialEq, Eq, Structural)]
pub enum AuxDACFn {
    /// Selector circuit pulls down to this voltage
    SELL,
    /// Selector circuit pulls up to this voltage
    SELH,
    /// Arbitrary power supply for DUTs - Max current 100 mA
    ARB1,
    /// Arbitrary power supply for DUTs - Max current 100 mA
    ARB2,
    /// Arbitrary power supply for DUTs - Max current 100 mA
    ARB3,
    /// Arbitrary power supply for DUTs - Max current 100 mA
    ARB4,
    /// Reference voltage that the current source sources or sinks current
    /// from or to. Must stay within 1.5 V of `CSET`.
    CREF,
    /// Sets the output current of the current source: the difference
    /// between `CSET` and `CREF` divided by the selected resistor. Must
    /// stay within 1.5 V of `CREF`.
    CSET,
}

/// At what voltage read-outs are done during a ramp operation: at the
/// current ramp bias, at an arbitrary voltage, or never. `Never` also
/// implies [`ReadAfter::Never`].
#[derive(Clone, Copy, Debug, PartialEq, Eq, Structural)]
pub enum ReadAt {
    /// Read at the current bias
    Bias,
    /// Read at an arbitrary voltage, carried as the bit pattern of an
    /// IEEE 754 single-precision value
    Arb { volt_bits: u32 },
    /// Never read
    Never,
}

impl ReadAt {
    /// Builds a read-out directive for an arbitrary voltage, given as the
    /// bit pattern of an IEEE 754 single-precision value.
    pub fn arb(volt_bits: u32) -> (r: ReadAt)
        ensures
            r == (ReadAt::Arb { volt_bits }),
    {
        ReadAt::Arb { volt_bits }
    }

    /// Returns the bit pattern of the arbitrary read-out voltage, or an
    /// error for the directives that carry none.
    pub fn voltage_bits(&self) -> (r: Result<u32, DirectiveError>)
        ensures
            r == match *self {
                ReadAt::Arb { volt_bits } => Ok::<u32, DirectiveError>(volt_bits),
                _ => Err::<u32, DirectiveError>(DirectiveError::NoVoltage),
            },
    {
        match self {
            ReadAt::Arb { volt_bits } => Ok(*volt_bits),
            _ => Err(DirectiveError::NoVoltage),
        }
    }
}

/// When read-outs are done during a ramp operation: after every pulse,
/// after each block of identical pulses, once at the end of the ramp, or
/// never. `Never` also implies [`ReadAt::Never`].
#[derive(Clone, Copy, Debug, PartialEq, Eq, Structural)]
pub enum ReadAfter {
    /// Read after pulsing
    Pulse,
    /// Read after a block of identical pulses
    Block,
    /// Read at the end of a ramp
    Ramp,
    /// Never read
    Never,
}

impl ReadAfter {
    /// The lower-case name of this directive.
    pub open spec fn name_view(&self) -> Seq<char> {
        match self {
            ReadAfter::Pulse => "pulse"@,
            ReadAfter::Block => "block"@,
            ReadAfter::Ramp => "ramp"@,
            ReadAfter::Never => "never"@,
        }
    }

    /// The descriptive form of this directive.
    pub open spec fn repr_view(&self) -> Seq<char> {
        match self {
            ReadAfter::Pulse => "ReadAfter<Pulse>"@,
            ReadAfter::Block => "ReadAfter<Block>"@,
            ReadAfter::Ramp => "ReadAfter<Ramp>"@,
            ReadAfter::Never => "ReadAfter<Never>"@,
        }
    }

    /// What parsing a directive name yields: the directive whose name
    /// matches, or an error for any other string.
    pub open spec fn spec_from_str(s: Seq<char>) -> Result<ReadAfter, DirectiveError> {
        if s == "pulse"@ {
            Ok(ReadAfter::Pulse)
        } else if s == "ramp"@ {
            Ok(ReadAfter::Ramp)
        } else if s == "block"@ {
            Ok(ReadAfter::Block)
        } else if s == "never"@ {
            Ok(ReadAfter::Never)
        } else {
            Err(DirectiveError::UnknownReadAfter)
        }
    }

    /// Parses a directive from its lower-case name: one of `pulse`,
    /// `ramp`, `block` or `never`. Any other string is rejected.
    pub fn from_str(r: &str) -> (res: Result<ReadAfter, DirectiveError>)
        ensures
            res == ReadAfter::spec_from_str(r@),
    {
        if str_eq(r, "pulse") {
            Ok(ReadAfter::Pulse)
        } else if str_eq(r, "ramp") {
            Ok(ReadAfter::Ramp)
        } else if str_eq(r, "block") {
            Ok(ReadAfter::Block)
        } else if str_eq(r, "never") {
            Ok(ReadAfter::Never)
        } else {
            Err(DirectiveError::UnknownReadAfter)
        }
    }

    /// The lower-case name of this directive, as accepted back by
    /// [`ReadAfter::from_str`].
    pub fn as_str(&self) -> (r: &'static str)
        ensures
            r@ == self.name_view(),
    {
        match self {
            ReadAfter::Pulse => "pulse",
            ReadAfter::Block => "block",
            ReadAfter::Ramp => "ramp",
            ReadAfter::Never => "never",
        }
    }

    /// The descriptive form of this directive.
    pub fn repr(&self) -> (r: &'static str)
        ensures
            r@ == self.repr_view(),
    {
        match self {
            ReadAfter::Pulse => "ReadAfter<Pulse>",
            ReadAfter::Block => "ReadAfter<Block>",
            ReadAfter::Ramp => "ReadAfter<Ramp>",
            ReadAfter::Never => "ReadAfter<Never>",
        }
    }
}

/// Parsing a directive's own name always yields that directive back:
/// printing and parsing round-trip.
pub proof fn lemma_read_after_round_trip(x: ReadAfter)
    ensures
        ReadAfter::spec_from_str(x.name_view()) == Ok::<ReadAfter, DirectiveError>(x),
{
    reveal_strlit("pulse");
    reveal_strlit("ramp");
    reveal_strlit("block");
    reveal_strlit("never");
    // The four names differ in length or in their first character.
    assert("pulse"@.len() == 5 && "block"@.len() == 5 && "never"@.len() == 5);
    assert("ramp"@.len() == 4);
    assert("pulse"@[0] == 'p' && "block"@[0] == 'b' && "never"@[0] == 'n');
    match x {
        ReadAfter::Pulse => {
            assert(ReadAfter::spec_from_str("pulse"@) == Ok::<ReadAfter, DirectiveError>(ReadAfter::Pulse));
        }
        ReadAfter::Block => {
            assert(ReadAfter::spec_from_str("block"@) == Ok::<ReadAfter, DirectiveError>(ReadAfter::Block));
        }
        ReadAfter::Ramp => {
            assert(ReadAfter::spec_from_str("ramp"@) == Ok::<ReadAfter, DirectiveError>(ReadAfter::Ramp));
        }
        ReadAfter::Never => {
            assert(ReadAfter::spec_from_str("never"@) == Ok::<ReadAfter, DirectiveError>(ReadAfter::Never));
        }
    }
}

/// Parsing is injective into names: whenever a string parses to a
/// directive, the string is exactly that directive's name.
pub proof fn lemma_read_after_parse_is_name(s: Seq<char>, x: ReadAfter)
    requires
        ReadAfter::spec_from_str(s) == Ok::<ReadAfter, DirectiveError>(x),
    ensures
        s == x.name_view(),
{
    reveal_strlit("pulse");
    reveal_strlit("ramp");
    reveal_strlit("block");
    reveal_strlit("never");
}

} // verus!
