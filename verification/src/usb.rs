//! The control transfers that read, write and reset the device, and the
//! bytes they carry.
//!
//! Nothing here touches a USB handle. A function describes the transfer to
//! make, or takes what a transfer returned and says what it means.

use crate::binary32::Binary32;
use crate::params::{Access, ParamDef, ParamType, COMMAND_LIMIT};
use crate::value::Value;
use vstd::prelude::*;

verus! {

/// How long a transfer may take, in milliseconds.
pub const TIMEOUT_MS: u64 = 2000;

/// Set in the command of every read.
pub const READ_FLAG: u16 = 0x80;

/// Set in the command of a read of an integer parameter.
pub const INT_FLAG: u16 = 0x40;

/// Length of the response to a read: two words, mantissa and exponent.
pub const RESPONSE_LENGTH: usize = 8;

/// Length of the payload of a write: command, value and type tag.
pub const PAYLOAD_LENGTH: usize = 12;

/// Type tag of an integer value in the payload of a write.
pub const INT_TAG: u32 = 1;

/// Type tag of a binary32 value in the payload of a write.
pub const FLOAT_TAG: u32 = 0;

/// The request that resets the device.
pub const RESET_REQUEST: u8 = 0xF0;

/// Vendor and product of the microphone array.
pub const VENDOR_ID: u16 = 0x2886;

pub const PRODUCT_ID: u16 = 0x0018;

/// Class and subclass of the interface that takes the reset request.
pub const CONTROL_CLASS: u8 = 0xfe;

pub const CONTROL_SUB_CLASS: u8 = 0x01;

/// Which way the data of a transfer goes, seen from the host.
#[derive(Clone, Copy, Debug, PartialEq, Eq, Structural)]
pub enum Direction {
    In,
    Out,
}

/// Who defines the meaning of a request: the class of the interface, or
/// the vendor of the device.
#[derive(Clone, Copy, Debug, PartialEq, Eq, Structural)]
pub enum RequestType {
    Class,
    Vendor,
}

/// What a request is addressed to.
#[derive(Clone, Copy, Debug, PartialEq, Eq, Structural)]
pub enum Recipient {
    Device,
    Interface,
}

/// The `bmRequestType` byte of a setup packet: the direction in bit 7,
/// the type in bits 5 and 6, the recipient in the low bits.
pub open spec fn request_type_byte(
    direction: Direction,
    request_type: RequestType,
    recipient: Recipient,
) -> u8 {
    ((match direction {
        Direction::In => 0x80int,
        Direction::Out => 0x00int,
    }) + (match request_type {
        RequestType::Class => 0x20int,
        RequestType::Vendor => 0x40int,
    }) + (match recipient {
        Recipient::Device => 0int,
        Recipient::Interface => 1int,
    })) as u8
}

/// Calls `rusb::request_type`, which builds the `bmRequestType` byte from
/// its three fields. Its source joins one constant for each field: 0x80
/// for `In` and 0 for `Out`, 0x20 for `Class` and 0x40 for `Vendor`, 0 for
/// `Device` and 1 for `Interface`. No two of them share a bit, and the
/// contract claims their sum.
#[verifier::external_body]
fn request_type(direction: Direction, kind: RequestType, recipient: Recipient) -> (r: u8)
    ensures
        r == request_type_byte(direction, kind, recipient),
{
    let direction = match direction {
        Direction::In => rusb::Direction::In,
        Direction::Out => rusb::Direction::Out,
    };
    let kind = match kind {
        RequestType::Class => rusb::RequestType::Class,
        RequestType::Vendor => rusb::RequestType::Vendor,
    };
    let recipient = match recipient {
        Recipient::Device => rusb::Recipient::Device,
        Recipient::Interface => rusb::Recipient::Interface,
    };
    rusb::request_type(direction, kind, recipient)
}

/// A control transfer that asks the device for `length` bytes.
#[derive(Clone, Copy, Debug, PartialEq, Eq, Structural)]
pub struct ControlRead {
    pub request_type: u8,
    pub request: u8,
    pub value: u16,
    pub index: u16,
    pub length: usize,
    pub timeout_ms: u64,
}

/// A control transfer that sends `payload` to the device.
#[derive(Clone, Debug, PartialEq, Eq)]
pub struct ControlWrite {
    pub request_type: u8,
    pub request: u8,
    pub value: u16,
    pub index: u16,
    pub payload: Vec<u8>,
    pub timeout_ms: u64,
}

/// A `ControlWrite` with its payload as a sequence.
pub struct ControlWriteView {
    pub request_type: u8,
    pub request: u8,
    pub value: u16,
    pub index: u16,
    pub payload: Seq<u8>,
    pub timeout_ms: u64,
}

impl View for ControlWrite {
    type V = ControlWriteView;

    open spec fn view(&self) -> ControlWriteView {
        ControlWriteView {
            request_type: self.request_type,
            request: self.request,
            value: self.value,
            index: self.index,
            payload: self.payload@,
            timeout_ms: self.timeout_ms,
        }
    }
}

/// Why a value cannot be written to a parameter.
#[derive(Clone, Copy, Debug, PartialEq)]
pub enum ValidationError {
    /// An integer for a binary32 parameter, or the reverse.
    TypeMismatch,
    /// The value lies outside the bounds, which are `min` and `max`.
    OutOfRange { min: Value, max: Value, actual: Value },
    /// The parameter is read-only.
    ReadOnlyViolation,
}

/// Why a response cannot be read as a value.
#[derive(Clone, Copy, Debug, PartialEq, Eq, Structural)]
pub enum DecodeError {
    /// The response has `length` bytes, fewer than the two words of a value.
    ShortResponse { length: usize },
}

/// Why no device can be chosen.
#[derive(Clone, Copy, Debug, PartialEq, Eq, Structural)]
pub enum OpenError {
    /// The index asked for is not below the number of devices found.
    IndexOutOfRange { index: usize, found: usize },
    /// No index was given and more than one device was found.
    MultipleDevices,
    NoDevices,
    /// The device has no interface of the control class.
    NoControlInterface,
}

/// What identifies an interface of a device: its class, its subclass and
/// its number.
#[derive(Clone, Copy, Debug, PartialEq, Eq, Structural)]
pub struct InterfaceId {
    pub class_code: u8,
    pub sub_class_code: u8,
    pub interface_number: u8,
}

/// The 32-bit word that holds `v` in two's complement.
pub open spec fn word_of(v: int) -> int {
    if v < 0 {
        v + 0x1_0000_0000
    } else {
        v
    }
}

/// The integer that the word `w` holds in two's complement.
pub open spec fn int_of(w: int) -> int {
    if w >= 0x8000_0000 {
        w - 0x1_0000_0000
    } else {
        w
    }
}

/// The four bytes of the word `w`, lowest first.
pub open spec fn le_bytes(w: int) -> Seq<u8> {
    seq![
        (w % 0x100) as u8,
        (w / 0x100 % 0x100) as u8,
        (w / 0x1_0000 % 0x100) as u8,
        (w / 0x100_0000 % 0x100) as u8,
    ]
}

/// The word whose four bytes, lowest first, begin at `at` in `bytes`.
pub open spec fn le_word(bytes: Seq<u8>, at: int) -> int {
    bytes[at] + 0x100 * bytes[at + 1] + 0x1_0000 * bytes[at + 2] + 0x100_0000 * bytes[at + 3]
}

/// The command of the read of the parameter at `cmd`: the read flag set,
/// and the integer flag for a parameter of integer type.
pub open spec fn spec_read_command(cmd: u16, int_typed: bool) -> u16 {
    if int_typed {
        READ_FLAG | cmd | INT_FLAG
    } else {
        READ_FLAG | cmd
    }
}

/// The transfer that reads the parameter at `cmd` in page `id`.
pub open spec fn spec_read_request(id: u16, cmd: u16, int_typed: bool) -> ControlRead {
    ControlRead {
        request_type: request_type_byte(Direction::In, RequestType::Vendor, Recipient::Device),
        request: 0,
        value: spec_read_command(cmd, int_typed),
        index: id,
        length: RESPONSE_LENGTH,
        timeout_ms: TIMEOUT_MS,
    }
}

/// What a response means for a parameter: its first word is the mantissa,
/// its second the exponent. An integer parameter has the mantissa as its
/// value, a binary32 parameter the number nearest to
/// `mantissa * 2^exponent`.
pub open spec fn decoded(param_type: ParamType, response: Seq<u8>) -> Result<Value, DecodeError> {
    if response.len() < RESPONSE_LENGTH {
        Err(DecodeError::ShortResponse { length: response.len() as usize })
    } else {
        let mantissa = int_of(le_word(response, 0));
        let exponent = int_of(le_word(response, 4));
        if param_type.spec_is_int() {
            Ok(Value::Int(mantissa as i32))
        } else {
            Ok(Value::Float(Binary32::scaled(mantissa, exponent)))
        }
    }
}

/// The first thing that forbids writing `value` to the parameter, if
/// anything does. The sort of the value is looked at first, its range
/// second, the access of the parameter last.
pub open spec fn refusal(param_type: ParamType, access: Access, value: Value) -> Option<
    ValidationError,
> {
    if !param_type.matches_sort(value) {
        Some(ValidationError::TypeMismatch)
    } else if !param_type.admits(value) {
        Some(
            ValidationError::OutOfRange {
                min: param_type.lower(),
                max: param_type.upper(),
                actual: value,
            },
        )
    } else if access == Access::ReadOnly {
        Some(ValidationError::ReadOnlyViolation)
    } else {
        None
    }
}

/// The word that holds a value in the payload of a write: an integer in
/// two's complement, a binary32 number as its pattern.
pub open spec fn value_word(value: Value) -> int {
    match value {
        Value::Int(v) => word_of(v as int),
        Value::Float(f) => f.bits as int,
    }
}

/// The type tag of a value in the payload of a write.
pub open spec fn type_tag(value: Value) -> int {
    match value {
        Value::Int(_) => INT_TAG as int,
        Value::Float(_) => FLOAT_TAG as int,
    }
}

/// The payload of a write: the command, the value and the type tag, each
/// a word with its lowest byte first.
pub open spec fn spec_payload(cmd: u16, value: Value) -> Seq<u8> {
    le_bytes(cmd as int) + le_bytes(value_word(value)) + le_bytes(type_tag(value))
}

/// The transfer that writes `value` to the parameter at `cmd` in page `id`.
pub open spec fn spec_write_request(id: u16, cmd: u16, value: Value) -> ControlWriteView {
    ControlWriteView {
        request_type: request_type_byte(Direction::Out, RequestType::Vendor, Recipient::Device),
        request: 0,
        value: 0,
        index: id,
        payload: spec_payload(cmd, value),
        timeout_ms: TIMEOUT_MS,
    }
}

/// The transfer that resets the device through the interface `interface`:
/// a class request to that interface, without a payload.
pub open spec fn spec_reset_request(interface: u8) -> ControlWriteView {
    ControlWriteView {
        request_type: request_type_byte(Direction::Out, RequestType::Class, Recipient::Interface),
        request: RESET_REQUEST,
        value: 0,
        index: interface as u16,
        payload: Seq::empty(),
        timeout_ms: TIMEOUT_MS,
    }
}

/// Which of the devices found is to be opened. A given index must be below
/// their number; without one there must be exactly one device.
pub open spec fn chosen_device(device_index: Option<usize>, found: usize) -> Result<
    usize,
    OpenError,
> {
    match device_index {
        Some(index) => if index < found {
            Ok(index)
        } else {
            Err(OpenError::IndexOutOfRange { index, found })
        },
        None => if found == 1 {
            Ok(0)
        } else if found > 1 {
            Err(OpenError::MultipleDevices)
        } else {
            Err(OpenError::NoDevices)
        },
    }
}

/// Whether the interface is of the class that takes the reset request.
pub open spec fn is_control_interface(interface: InterfaceId) -> bool {
    interface.class_code == CONTROL_CLASS && interface.sub_class_code == CONTROL_SUB_CLASS
}

/// The first control interface among `interfaces`, if there is one.
pub open spec fn first_control_interface(interfaces: Seq<InterfaceId>) -> Option<u8>
    decreases interfaces.len(),
{
    if interfaces.len() == 0 {
        None
    } else if is_control_interface(interfaces[0]) {
        Some(interfaces[0].interface_number)
    } else {
        first_control_interface(interfaces.skip(1))
    }
}

/// The bytes of a word give the word back.
pub proof fn lemma_le_word_of_bytes(w: int, before: Seq<u8>, after: Seq<u8>)
    requires
        0 <= w < 0x1_0000_0000,
    ensures
        le_bytes(w).len() == 4,
        le_word(before + le_bytes(w) + after, before.len() as int) == w,
{
    let all = before + le_bytes(w) + after;
    let at = before.len() as int;
    assert(all[at] == le_bytes(w)[0]);
    assert(all[at + 1] == le_bytes(w)[1]);
    assert(all[at + 2] == le_bytes(w)[2]);
    assert(all[at + 3] == le_bytes(w)[3]);
}

/// The word of an integer gives the integer back.
pub proof fn lemma_int_of_word(v: int)
    requires
        i32::MIN <= v <= i32::MAX,
    ensures
        0 <= word_of(v) < 0x1_0000_0000,
        int_of(word_of(v)) == v,
{
}

/// With a command below the limit the flags of a read do not touch it:
/// the read command is the command plus the flags.
pub proof fn lemma_read_command_layout(cmd: u16, int_typed: bool)
    requires
        cmd < COMMAND_LIMIT,
    ensures
        spec_read_command(cmd, int_typed) == cmd + READ_FLAG + (if int_typed {
            INT_FLAG as int
        } else {
            0
        }),
{
    assert(cmd < 64 ==> (0x80u16 | cmd | 0x40u16) == cmd + 0xc0 && (0x80u16 | cmd) == cmd + 0x80)
        by (bit_vector);
}

/// An integer written and read back is the same integer: the value word
/// of a write, taken as the mantissa of a response, decodes to the value
/// that was written, whatever the exponent word holds.
pub proof fn lemma_int_round_trip(param_type: ParamType, cmd: u16, v: i32, exponent: Seq<u8>)
    requires
        param_type.spec_is_int(),
        exponent.len() == 4,
    ensures
        spec_payload(cmd, Value::Int(v)).len() == PAYLOAD_LENGTH,
        decoded(param_type, spec_payload(cmd, Value::Int(v)).subrange(4, 8) + exponent) == Ok::<
            Value,
            DecodeError,
        >(Value::Int(v)),
{
    let word = word_of(v as int);
    lemma_int_of_word(v as int);
    let response = spec_payload(cmd, Value::Int(v)).subrange(4, 8) + exponent;
    assert(response =~= Seq::<u8>::empty() + le_bytes(word) + exponent);
    lemma_le_word_of_bytes(word, Seq::empty(), exponent);
}

/// A value of the wrong sort is refused as a mismatch, whatever its
/// number and whatever the access of the parameter.
pub proof fn lemma_mismatch_comes_first(param_type: ParamType, access: Access, value: Value)
    requires
        !param_type.matches_sort(value),
    ensures
        refusal(param_type, access, value) == Some(ValidationError::TypeMismatch),
{
}

/// A value of the right sort outside the bounds is refused as out of
/// range, with the bounds of the parameter and the value itself, whatever
/// the access of the parameter.
pub proof fn lemma_range_comes_second(param_type: ParamType, access: Access, value: Value)
    requires
        param_type.matches_sort(value),
        !param_type.admits(value),
    ensures
        refusal(param_type, access, value) == Some(
            ValidationError::OutOfRange {
                min: param_type.lower(),
                max: param_type.upper(),
                actual: value,
            },
        ),
{
}

/// The bounds of an integer parameter can be written, and their outer
/// neighbours cannot.
pub proof fn lemma_int_bounds(param_type: ParamType, min: i32, max: i32)
    requires
        param_type == (ParamType::IntRange { min, max }) || param_type == (ParamType::IntDiscete {
            min,
            max,
        }),
        min <= max,
    ensures
        refusal(param_type, Access::ReadWrite, Value::Int(min)) is None,
        refusal(param_type, Access::ReadWrite, Value::Int(max)) is None,
        min > i32::MIN ==> refusal(param_type, Access::ReadWrite, Value::Int((min - 1) as i32))
            == Some(
            ValidationError::OutOfRange {
                min: Value::Int(min),
                max: Value::Int(max),
                actual: Value::Int((min - 1) as i32),
            },
        ),
        max < i32::MAX ==> refusal(param_type, Access::ReadWrite, Value::Int((max + 1) as i32))
            == Some(
            ValidationError::OutOfRange {
                min: Value::Int(min),
                max: Value::Int(max),
                actual: Value::Int((max + 1) as i32),
            },
        ),
{
}

/// The bounds of a binary32 parameter can be written, and no number
/// below the lower or above the upper one can, nor a NaN.
pub proof fn lemma_float_bounds(min: Binary32, max: Binary32, v: Binary32)
    requires
        min.at_most(max),
    ensures
        refusal(ParamType::FloatRange { min, max }, Access::ReadWrite, Value::Float(min)) is None,
        refusal(ParamType::FloatRange { min, max }, Access::ReadWrite, Value::Float(max)) is None,
        v.is_nan() || v.key() < min.key() || v.key() > max.key() ==> refusal(
            ParamType::FloatRange { min, max },
            Access::ReadWrite,
            Value::Float(v),
        ) == Some(
            ValidationError::OutOfRange {
                min: Value::Float(min),
                max: Value::Float(max),
                actual: Value::Float(v),
            },
        ),
{
}

/// Nothing can be written to a read-only parameter: every value is
/// refused, and a value that the parameter's type admits is refused for
/// the access.
pub proof fn lemma_read_only_refuses(param_type: ParamType, value: Value)
    ensures
        refusal(param_type, Access::ReadOnly, value) is Some,
        param_type.admits(value) ==> refusal(param_type, Access::ReadOnly, value) == Some(
            ValidationError::ReadOnlyViolation,
        ),
{
}

/// A read goes from the device to the host, a write and a reset from the
/// host to the device.
pub proof fn lemma_transfer_directions(
    id: u16,
    cmd: u16,
    int_typed: bool,
    value: Value,
    interface: u8,
)
    ensures
        spec_read_request(id, cmd, int_typed).request_type == 0xC0,
        spec_write_request(id, cmd, value).request_type == 0x40,
        spec_reset_request(interface).request_type == 0x21,
{
}

/// Whether the product is the microphone array.
pub fn is_mic_array(vendor_id: u16, product_id: u16) -> (r: bool)
    ensures
        r == (vendor_id == VENDOR_ID && product_id == PRODUCT_ID),
{
    vendor_id == VENDOR_ID && product_id == PRODUCT_ID
}

/// Chooses the device to open among the `found` microphone arrays.
pub fn open_device(device_index: Option<usize>, found: usize) -> (r: Result<usize, OpenError>)
    ensures
        r == chosen_device(device_index, found),
{
    match device_index {
        Some(index) => {
            if index < found {
                Ok(index)
            } else {
                Err(OpenError::IndexOutOfRange { index, found })
            }
        },
        None => {
            if found == 1 {
                Ok(0)
            } else if found > 1 {
                Err(OpenError::MultipleDevices)
            } else {
                Err(OpenError::NoDevices)
            }
        },
    }
}

/// The number of the first control interface among `interfaces`.
pub fn control_interface(interfaces: &[InterfaceId]) -> (r: Option<u8>)
    ensures
        r == first_control_interface(interfaces@),
{
    let mut i: usize = 0;
    assert(interfaces@.skip(0) =~= interfaces@);
    while i < interfaces.len()
        invariant
            i <= interfaces@.len(),
            first_control_interface(interfaces@) == first_control_interface(
                interfaces@.skip(i as int),
            ),
        decreases interfaces@.len() - i,
    {
        let interface = interfaces[i];
        proof {
            let rest = interfaces@.skip(i as int);
            assert(rest[0] == interfaces@[i as int]);
            assert(rest.skip(1) =~= interfaces@.skip(i as int + 1));
        }
        if interface.class_code == CONTROL_CLASS && interface.sub_class_code == CONTROL_SUB_CLASS {
            return Some(interface.interface_number);
        }
        i += 1;
    }
    None
}

/// The command of the read of a parameter.
pub fn read_command(def: &ParamDef) -> (r: u16)
    ensures
        r == spec_read_command(def.cmd, def.param_type.spec_is_int()),
{
    let mut cmd: u16 = READ_FLAG | def.cmd;
    if def.param_type.is_int() {
        cmd = cmd | INT_FLAG;
    }
    cmd
}

/// The transfer that reads a parameter.
pub fn read_request(def: &ParamDef) -> (r: ControlRead)
    ensures
        r == spec_read_request(def.id, def.cmd, def.param_type.spec_is_int()),
{
    ControlRead {
        request_type: request_type(Direction::In, RequestType::Vendor, Recipient::Device),
        request: 0,
        value: read_command(def),
        index: def.id,
        length: RESPONSE_LENGTH,
        timeout_ms: TIMEOUT_MS,
    }
}

fn word_at(bytes: &[u8], at: usize) -> (w: u32)
    requires
        at + 4 <= bytes@.len(),
    ensures
        w == le_word(bytes@, at as int),
{
    let b0: u32 = bytes[at] as u32;
    let b1: u32 = bytes[at + 1] as u32;
    let b2: u32 = bytes[at + 2] as u32;
    let b3: u32 = bytes[at + 3] as u32;
    b0 + 0x100 * b1 + 0x1_0000 * b2 + 0x100_0000 * b3
}

fn int_from_word(w: u32) -> (v: i32)
    ensures
        v == int_of(w as int),
{
    if w >= 0x8000_0000 {
        (w as i64 - 0x1_0000_0000) as i32
    } else {
        w as i32
    }
}

fn word_from_int(v: i32) -> (w: u32)
    ensures
        w == word_of(v as int),
{
    if v < 0 {
        (v as i64 + 0x1_0000_0000) as u32
    } else {
        v as u32
    }
}

fn push_word(out: &mut Vec<u8>, w: u32)
    ensures
        final(out)@ == old(out)@ + le_bytes(w as int),
{
    out.push((w % 0x100) as u8);
    out.push((w / 0x100 % 0x100) as u8);
    out.push((w / 0x1_0000 % 0x100) as u8);
    out.push((w / 0x100_0000 % 0x100) as u8);
    assert(out@ =~= old(out)@ + le_bytes(w as int));
}

/// What the response to a read means for the parameter.
pub fn read(def: &ParamDef, response: &[u8]) -> (r: Result<Value, DecodeError>)
    ensures
        r == decoded(def.param_type, response@),
{
    if response.len() < RESPONSE_LENGTH {
        return Err(DecodeError::ShortResponse { length: response.len() });
    }
    let mantissa: i32 = int_from_word(word_at(response, 0));
    let exponent: i32 = int_from_word(word_at(response, 4));
    if def.param_type.is_int() {
        Ok(Value::Int(mantissa))
    } else {
        Ok(Value::Float(Binary32::from_scaled(mantissa, exponent)))
    }
}

/// Whether `value` may be written to the parameter, and if not, why not.
pub fn validate(def: &ParamDef, value: &Value) -> (r: Result<(), ValidationError>)
    ensures
        r == (match refusal(def.param_type, def.access, *value) {
            Some(e) => Err::<(), ValidationError>(e),
            None => Ok(()),
        }),
{
    let in_range: bool = match (def.param_type, *value) {
        (ParamType::IntDiscete { min, max }, Value::Int(v)) => min <= v && v <= max,
        (ParamType::IntRange { min, max }, Value::Int(v)) => min <= v && v <= max,
        (ParamType::FloatRange { min, max }, Value::Float(v)) => v.in_range(&min, &max),
        _ => {
            return Err(ValidationError::TypeMismatch);
        },
    };
    if !in_range {
        return Err(
            ValidationError::OutOfRange { min: def.min(), max: def.max(), actual: *value },
        );
    }
    if def.access == Access::ReadOnly {
        return Err(ValidationError::ReadOnlyViolation);
    }
    Ok(())
}

/// The payload of the write of `value` to the parameter.
pub fn payload(def: &ParamDef, value: &Value) -> (r: Vec<u8>)
    ensures
        r@ == spec_payload(def.cmd, *value),
        r@.len() == PAYLOAD_LENGTH,
{
    let mut out: Vec<u8> = Vec::with_capacity(PAYLOAD_LENGTH);
    push_word(&mut out, def.cmd as u32);
    match value {
        Value::Int(v) => {
            push_word(&mut out, word_from_int(*v));
            push_word(&mut out, INT_TAG);
        },
        Value::Float(f) => {
            push_word(&mut out, f.to_bits());
            push_word(&mut out, FLOAT_TAG);
        },
    }
    out
}

/// The transfer that writes `value` to the parameter, or why there is none.
pub fn write(def: &ParamDef, value: &Value) -> (r: Result<ControlWrite, ValidationError>)
    ensures
        match refusal(def.param_type, def.access, *value) {
            Some(e) => r == Err::<ControlWrite, ValidationError>(e),
            None => r is Ok && r->Ok_0@ == spec_write_request(def.id, def.cmd, *value),
        },
{
    match validate(def, value) {
        Err(e) => Err(e),
        Ok(()) => Ok(
            ControlWrite {
                request_type: request_type(Direction::Out, RequestType::Vendor, Recipient::Device),
                request: 0,
                value: 0,
                index: def.id,
                payload: payload(def, value),
                timeout_ms: TIMEOUT_MS,
            },
        ),
    }
}

/// The transfer that resets the device through the interface `interface`.
pub fn reset(interface: u8) -> (r: ControlWrite)
    ensures
        r@ == spec_reset_request(interface),
{
    ControlWrite {
        request_type: request_type(Direction::Out, RequestType::Class, Recipient::Interface),
        request: RESET_REQUEST,
        value: 0,
        index: interface as u16,
        payload: Vec::new(),
        timeout_ms: TIMEOUT_MS,
    }
}

} // verus!
