//! Remote method calls: selectors, payloads and the dispatch record.

use vstd::prelude::*;

verus! {

/// The address of a deployed unit.
#[verifier::external_type_specification]
#[verifier::external_body]
pub struct ExAccountId(ink::primitives::AccountId);

/// The remote methods of the accumulator.
#[derive(Debug, Copy, Clone, PartialEq, Eq, Structural)]
pub enum Method {
    /// Add a signed amount to the accumulator's value.
    Inc,
    /// Read the accumulator's value.
    Get,
}

impl Method {
    /// The four bytes that open every payload of this method.
    pub open spec fn selector_bytes(self) -> Seq<u8> {
        match self {
            Method::Inc => seq![0xC0u8, 0xDEu8, 0xCAu8, 0xFEu8],
            Method::Get => seq![0xC0u8, 0xDEu8, 0xCAu8, 0xF1u8],
        }
    }

    /// The method's selector on the wire.
    pub fn selector(self) -> (bytes: [u8; 4])
        ensures
            bytes@ == self.selector_bytes(),
    {
        let bytes: [u8; 4] = match self {
            Method::Inc => [0xC0, 0xDE, 0xCA, 0xFE],
            Method::Get => [0xC0, 0xDE, 0xCA, 0xF1],
        };
        assert(bytes@ =~= self.selector_bytes());
        bytes
    }
}

/// The four bytes of a signed 32-bit integer in two's complement, lowest byte
/// first.
pub open spec fn le_bytes(x: i32) -> Seq<u8> {
    let u: int = if x < 0 { x + 0x1_0000_0000 } else { x as int };
    seq![
        (u % 0x100) as u8,
        ((u / 0x100) % 0x100) as u8,
        ((u / 0x1_0000) % 0x100) as u8,
        ((u / 0x100_0000) % 0x100) as u8,
    ]
}

/// The signed integer that four bytes stand for, lowest byte first, in two's
/// complement.
pub open spec fn le_value(bytes: Seq<u8>) -> int
    recommends
        bytes.len() == 4,
{
    let u: int = bytes[0] + 0x100 * bytes[1] + 0x1_0000 * bytes[2] + 0x100_0000 * bytes[3];
    if u >= 0x8000_0000 {
        u - 0x1_0000_0000
    } else {
        u
    }
}

/// The encoding of an argument has four bytes and stands for that argument.
pub proof fn lemma_le_bytes_round_trip(x: i32)
    ensures
        le_bytes(x).len() == 4,
        le_value(le_bytes(x)) == x,
{
}

/// Every four bytes are the encoding of the integer they stand for, so no two
/// arguments share an encoding and no four bytes are left out.
pub proof fn lemma_le_value_round_trip(bytes: Seq<u8>)
    requires
        bytes.len() == 4,
    ensures
        i32::MIN <= le_value(bytes) <= i32::MAX,
        le_bytes(le_value(bytes) as i32) == bytes,
{
    assert(le_bytes(le_value(bytes) as i32) =~= bytes);
}

/// The payload of a call: the method's selector, then the argument if there is
/// one.
pub open spec fn payload_of(method: Method, arg: Option<i32>) -> Seq<u8> {
    match arg {
        Some(by) => method.selector_bytes() + le_bytes(by),
        None => method.selector_bytes(),
    }
}

/// Every payload opens with its method's selector. What follows is empty
/// without an argument, and the argument's four bytes with one.
pub proof fn lemma_payload_shape(method: Method, arg: Option<i32>)
    ensures
        payload_of(method, arg).len() == (if arg is Some { 8nat } else { 4nat }),
        payload_of(method, arg).subrange(0, 4) == method.selector_bytes(),
        payload_of(method, arg).subrange(4, payload_of(method, arg).len() as int) == (match arg {
            Some(by) => le_bytes(by),
            None => Seq::<u8>::empty(),
        }),
{
    let p = payload_of(method, arg);
    assert(p.subrange(0, 4) =~= method.selector_bytes());
    match arg {
        Some(by) => {
            assert(p.subrange(4, 8) =~= le_bytes(by));
        },
        None => {
            assert(p.subrange(4, 4) =~= Seq::<u8>::empty());
        },
    }
}

/// The two methods have different selectors, so a payload names its method.
pub proof fn lemma_selectors_differ(a: Method, b: Method)
    ensures
        a.selector_bytes() == b.selector_bytes() <==> a == b,
{
    if a != b {
        assert(a.selector_bytes()[3] != b.selector_bytes()[3]);
    }
}

/// How the host is to treat a call. All four switches off is the host's default
/// convention.
#[derive(Debug, Copy, Clone, PartialEq, Eq, Structural)]
pub struct Flags {
    pub forward_input: bool,
    pub clone_input: bool,
    pub tail_call: bool,
    pub allow_reentry: bool,
}

impl Flags {
    /// No switch is set.
    pub open spec fn is_plain(self) -> bool {
        !self.forward_input && !self.clone_input && !self.tail_call && !self.allow_reentry
    }
}

/// A remote call that is ready to be sent.
#[derive(Debug, PartialEq, Eq)]
pub struct Dispatch {
    /// The unit that is called.
    pub target: ink::primitives::AccountId,
    /// The call flags.
    pub flags: Flags,
    /// The selector followed by the encoded arguments.
    pub payload: Vec<u8>,
}

impl Dispatch {
    /// This record calls `method` at `target` with `arg` under the default flags.
    pub open spec fn calls(
        self,
        target: ink::primitives::AccountId,
        method: Method,
        arg: Option<i32>,
    ) -> bool {
        &&& self.target == target
        &&& self.flags.is_plain()
        &&& self.payload@ == payload_of(method, arg)
    }
}

/// The one error of a remote call: the target does not exist, it does not know
/// the method, or the method failed.
#[derive(Debug, Copy, Clone, PartialEq, Eq, Structural)]
pub struct RemoteCallError;

/// Trusted: `ink::env::CallFlags::default()`, read through its four getters.
/// Claims that the default leaves every switch off, as the derived `Default` of
/// a struct of four `bool` fields does.
#[verifier::external_body]
fn default_flags() -> (flags: Flags)
    ensures
        flags.is_plain(),
{
    let f = ink::env::CallFlags::default();
    Flags {
        forward_input: f.forward_input(),
        clone_input: f.clone_input(),
        tail_call: f.tail_call(),
        allow_reentry: f.allow_reentry(),
    }
}

/// Trusted: the SCALE encoding of `ink::env::call::ExecutionInput::new` on a
/// `Selector` made of `selector`. Claims that an input without arguments
/// encodes to the four selector bytes alone.
#[verifier::external_body]
fn encode_input(selector: [u8; 4]) -> (bytes: Vec<u8>)
    ensures
        bytes@ == selector@,
{
    let input = ink::env::call::ExecutionInput::new(ink::env::call::Selector::new(selector));
    parity_scale_codec::Encode::encode(&input)
}

/// Trusted: the SCALE encoding of an `ink::env::call::ExecutionInput` after one
/// `push_arg` of an `i32`. Claims that it is the four selector bytes followed
/// by the argument's four bytes, lowest first.
#[verifier::external_body]
fn encode_input_with(selector: [u8; 4], by: i32) -> (bytes: Vec<u8>)
    ensures
        bytes@ == selector@ + le_bytes(by),
{
    let input = ink::env::call::ExecutionInput::new(ink::env::call::Selector::new(selector))
        .push_arg(by);
    parity_scale_codec::Encode::encode(&input)
}

/// Prepares the call of `method` at `target`, with `arg` as its argument list,
/// under the default flags. Nothing is sent and `target` is not examined.
pub fn dispatch(target: ink::primitives::AccountId, method: Method, arg: Option<i32>) -> (call:
    Dispatch)
    ensures
        call.calls(target, method, arg),
{
    let selector = method.selector();
    let payload = match arg {
        Some(by) => encode_input_with(selector, by),
        None => encode_input(selector),
    };
    Dispatch { target, flags: default_flags(), payload }
}

} // verus!
