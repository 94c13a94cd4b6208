//! The pins of the I/O expander, as bits of its registers.
use vstd::prelude::*;

verus! {

pub const TCA9554_ADDRESS: u8 = 0x20;
pub const TCA9554_INPUT_REG: u8 = 0x00;
pub const TCA9554_OUTPUT_REG: u8 = 0x01;
pub const TCA9554_CONFIG_REG: u8 = 0x03;

#[derive(Debug, Clone, Copy, PartialEq, Eq, Structural)]
pub enum ExioPin {
    Exio1,
    Exio2,
    Exio3,
    Exio4,
    Exio5,
    Exio6,
    Exio7,
    Exio8,
}

/// The place of a pin's bit.
pub open spec fn pin_bit(pin: ExioPin) -> u8 {
    match pin {
        ExioPin::Exio1 => 0,
        ExioPin::Exio2 => 1,
        ExioPin::Exio3 => 2,
        ExioPin::Exio4 => 3,
        ExioPin::Exio5 => 4,
        ExioPin::Exio6 => 5,
        ExioPin::Exio7 => 6,
        ExioPin::Exio8 => 7,
    }
}

/// Whether a bit of a register is set.
pub open spec fn bit_is_set(bits: u8, bit: u8) -> bool {
    (bits >> bit) & 1 == 1
}

/// Whether a pin is high in a register.
pub open spec fn is_high(bits: u8, pin: ExioPin) -> bool {
    bit_is_set(bits, pin_bit(pin))
}

fn bit_of(pin: ExioPin) -> (r: u8)
    ensures
        r == pin_bit(pin),
        r < 8,
{
    match pin {
        ExioPin::Exio1 => 0,
        ExioPin::Exio2 => 1,
        ExioPin::Exio3 => 2,
        ExioPin::Exio4 => 3,
        ExioPin::Exio5 => 4,
        ExioPin::Exio6 => 5,
        ExioPin::Exio7 => 6,
        ExioPin::Exio8 => 7,
    }
}

/// Whether a pin is high, by the bits of the input register.
pub fn read_exio(input_bits: u8, pin: ExioPin) -> (r: bool)
    ensures
        r == is_high(input_bits, pin),
{
    let bit: u8 = bit_of(pin);
    (input_bits >> bit) & 0x01 == 1
}

/// The bits of the output register with one pin set; the others stay.
pub fn set_exio(output_bits: u8, pin: ExioPin, state: bool) -> (r: u8)
    ensures
        is_high(r, pin) == state,
        forall|other: ExioPin|
            other != pin ==> #[trigger] is_high(r, other) == is_high(output_bits, other),
{
    let bit: u8 = bit_of(pin);
    let mask: u8 = 1u8 << bit;
    let r: u8 = if state {
        output_bits | mask
    } else {
        output_bits & !mask
    };
    proof {
        assert(bit < 8 ==> (((output_bits | (1u8 << bit)) >> bit) & 1 == 1)) by (bit_vector);
        assert(bit < 8 ==> (((output_bits & !(1u8 << bit)) >> bit) & 1 == 0)) by (bit_vector);
        assert forall|other: ExioPin| other != pin implies #[trigger] is_high(r, other) == is_high(
            output_bits,
            other,
        ) by {
            let b = pin_bit(other);
            assert(b < 8 && b != bit);
            assert(b < 8 && bit < 8 && b != bit ==> ((output_bits | (1u8 << bit)) >> b) & 1 == (
            output_bits >> b) & 1) by (bit_vector);
            assert(b < 8 && bit < 8 && b != bit ==> ((output_bits & !(1u8 << bit)) >> b) & 1 == (
            output_bits >> b) & 1) by (bit_vector);
        }
    }
    r
}

/// The bits of the output register with one pin set to the opposite of what the input
/// register shows; the others stay.
pub fn toggle_exio(input_bits: u8, output_bits: u8, pin: ExioPin) -> (r: u8)
    ensures
        is_high(r, pin) == !is_high(input_bits, pin),
        forall|other: ExioPin|
            other != pin ==> #[trigger] is_high(r, other) == is_high(output_bits, other),
{
    let state = read_exio(input_bits, pin);
    set_exio(output_bits, pin, !state)
}

/// A register is told by its eight pins.
pub proof fn law_pins_tell_the_register(a: u8, b: u8)
    requires
        forall|pin: ExioPin| #[trigger] is_high(a, pin) == is_high(b, pin),
    ensures
        a == b,
{
    assert(is_high(a, ExioPin::Exio1) == is_high(b, ExioPin::Exio1));
    assert(is_high(a, ExioPin::Exio2) == is_high(b, ExioPin::Exio2));
    assert(is_high(a, ExioPin::Exio3) == is_high(b, ExioPin::Exio3));
    assert(is_high(a, ExioPin::Exio4) == is_high(b, ExioPin::Exio4));
    assert(is_high(a, ExioPin::Exio5) == is_high(b, ExioPin::Exio5));
    assert(is_high(a, ExioPin::Exio6) == is_high(b, ExioPin::Exio6));
    assert(is_high(a, ExioPin::Exio7) == is_high(b, ExioPin::Exio7));
    assert(is_high(a, ExioPin::Exio8) == is_high(b, ExioPin::Exio8));
    assert((((a >> 0) & 1 == 1) == ((b >> 0) & 1 == 1) && ((a >> 1) & 1 == 1) == ((b >> 1) & 1 == 1)
        && ((a >> 2) & 1 == 1) == ((b >> 2) & 1 == 1) && ((a >> 3) & 1 == 1) == ((b >> 3) & 1 == 1)
        && ((a >> 4) & 1 == 1) == ((b >> 4) & 1 == 1) && ((a >> 5) & 1 == 1) == ((b >> 5) & 1 == 1)
        && ((a >> 6) & 1 == 1) == ((b >> 6) & 1 == 1) && ((a >> 7) & 1 == 1) == ((b >> 7) & 1 == 1))
        ==> a == b) by (bit_vector);
}

/// The pins in their order.
pub open spec fn pins() -> Seq<ExioPin> {
    seq![
        ExioPin::Exio1,
        ExioPin::Exio2,
        ExioPin::Exio3,
        ExioPin::Exio4,
        ExioPin::Exio5,
        ExioPin::Exio6,
        ExioPin::Exio7,
        ExioPin::Exio8,
    ]
}

/// The pins are the bits of a register in their order, from the lowest on: of two pins the
/// later one has the higher bit, and the register of one high pin is the power of two of its
/// place.
pub proof fn law_pins_are_bits_in_order(i: int, j: int)
    requires
        0 <= i < 8,
        0 <= j < 8,
    ensures
        i < j ==> pin_bit(pins()[i]) < pin_bit(pins()[j]),
        pin_bit(pins()[i]) < 8,
        is_high(1u8 << pin_bit(pins()[i]), pins()[j]) <==> i == j,
{
    let a = pin_bit(pins()[i]);
    let b = pin_bit(pins()[j]);
    assert(a < 8 && b < 8 ==> ((((1u8 << a) >> b) & 1 == 1) == (a == b))) by (bit_vector);
}

} // verus!
