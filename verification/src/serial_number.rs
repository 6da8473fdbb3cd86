//! The serial number that the device shows on USB.

use vstd::prelude::*;

verus! {

/// `hex::FromHexError`, which the functions of `hex` fail with.
#[verifier::external_type_specification]
#[verifier::external_body]
pub struct ExFromHexError(hex::FromHexError);

/// The lower-case hexadecimal digit of a value below 16, in ASCII.
pub open spec fn hex_digit(value: int) -> u8 {
    if value < 10 {
        (0x30 + value) as u8
    } else {
        (0x61 + value - 10) as u8
    }
}

/// The hexadecimal digits of some bytes: two for each byte, the high one first.
pub open spec fn hex_digits(bytes: Seq<u8>) -> Seq<u8> {
    Seq::new(
        2 * bytes.len(),
        |i: int|
            hex_digit(
                if i % 2 == 0 {
                    bytes[i / 2] / 16
                } else {
                    bytes[i / 2] % 16
                } as int,
            ),
    )
}

/// Calls `hex::encode_to_slice`, which writes the lower-case hexadecimal digits of
/// `input` to `output`. It fails, and writes nothing, exactly where `output` does
/// not have two bytes for each byte of `input`.
#[verifier::external_body]
fn hex_encode_to_slice(input: &[u8], output: &mut [u8]) -> (result: Result<(), hex::FromHexError>)
    ensures
        result is Ok <==> old(output)@.len() == 2 * input@.len(),
        final(output)@ == if old(output)@.len() == 2 * input@.len() {
            hex_digits(input@)
        } else {
            old(output)@
        },
{
    hex::encode_to_slice(input, output)
}

/// The serial number of a device: the hexadecimal digits of the unique identifier
/// of its flash.
pub fn serial_number(unique_id: &[u8; 8]) -> (serial: [u8; 16])
    ensures
        serial@ == hex_digits(unique_id@),
{
    let mut serial: [u8; 16] = [0; 16];
    hex_encode_to_slice(unique_id.as_slice(), &mut serial).unwrap();
    serial
}

/// Every character of a serial number is a lower-case hexadecimal digit.
pub proof fn law_serial_is_hexadecimal(unique_id: Seq<u8>, i: int)
    requires
        0 <= i < hex_digits(unique_id).len(),
    ensures
        ({
            let character = hex_digits(unique_id)[i];
            0x30 <= character <= 0x39 || 0x61 <= character <= 0x66
        }),
{
}

/// Devices with different identifiers have different serial numbers.
pub proof fn law_serials_are_unique(first: Seq<u8>, second: Seq<u8>)
    requires
        first.len() == second.len(),
        hex_digits(first) == hex_digits(second),
    ensures
        first == second,
{
    assert forall|i: int| 0 <= i < first.len() implies first[i] == second[i] by {
        let high = 2 * i;
        let low = 2 * i + 1;
        assert(high / 2 == i && high % 2 == 0 && low / 2 == i && low % 2 == 1);
        assert(hex_digits(first)[high] == hex_digit((first[i] / 16) as int));
        assert(hex_digits(second)[high] == hex_digit((second[i] / 16) as int));
        assert(hex_digits(first)[low] == hex_digit((first[i] % 16) as int));
        assert(hex_digits(second)[low] == hex_digit((second[i] % 16) as int));
    }
    assert(first =~= second);
}

/// A serial number spells its identifier: each pair of digits is the value of one
/// byte, in order.
pub proof fn law_serial_spells_the_identifier(unique_id: Seq<u8>, i: int)
    requires
        0 <= i < unique_id.len(),
    ensures
        hex_digits(unique_id).len() == 2 * unique_id.len(),
        ({
            let high = hex_digits(unique_id)[2 * i];
            let low = hex_digits(unique_id)[2 * i + 1];
            let high_value = if high <= 0x39 {
                high - 0x30
            } else {
                high - 0x61 + 10
            };
            let low_value = if low <= 0x39 {
                low - 0x30
            } else {
                low - 0x61 + 10
            };
            &&& 0 <= high_value < 16
            &&& 0 <= low_value < 16
            &&& 16 * high_value + low_value == unique_id[i]
        }),
{
    let high = 2 * i;
    let low = 2 * i + 1;
    assert(high / 2 == i && high % 2 == 0 && low / 2 == i && low % 2 == 1);
}

} // verus!
