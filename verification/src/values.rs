use vstd::prelude::*;

use crate::errors::VmError;

verus! {

/// An index into the register file, always between 0 and 7.
#[derive(Clone, Copy, Debug, PartialEq, Eq, Structural)]
pub struct Register(pub u8);

impl Register {
    /// A register reference is well formed when its index names one of the
    /// eight registers.
    pub open spec fn wf(self) -> bool {
        self.0 <= 7
    }

    /// The register index as a `usize`, for indexing the register file.
    pub fn index(self) -> (r: usize)
        ensures
            r == self.0 as usize,
    {
        self.0 as usize
    }
}

/// A decoded operand: either a 15-bit literal or a reference to one of the
/// eight registers.
#[derive(Clone, Copy, Debug, PartialEq, Eq, Structural)]
pub enum Value {
    Literal(u16),
    Register(Register),
}

impl Value {
    /// A value is well formed when a literal fits in 15 bits and a register
    /// reference names a real register. `decode` only ever produces well
    /// formed values.
    pub open spec fn wf(self) -> bool {
        match self {
            Value::Literal(n) => n <= 32767,
            Value::Register(r) => r.wf(),
        }
    }

    /// What decoding a raw word yields: words up to 32767 are literals, the
    /// next eight words name the registers, and anything higher is malformed.
    pub open spec fn decode_spec(raw: u16) -> Result<Value, VmError> {
        if raw <= 32767 {
            Ok(Value::Literal(raw))
        } else if raw <= 32775 {
            Ok(Value::Register(Register((raw - 32768) as u8)))
        } else {
            Err(VmError::InvalidWord)
        }
    }

    /// The raw word a value came from: a literal is its own encoding, and
    /// register `i` is encoded as `32768 + i`.
    pub open spec fn encode_spec(self) -> u16 {
        match self {
            Value::Literal(n) => n,
            Value::Register(r) => (32768 + r.0) as u16,
        }
    }

    /// Decode a raw 16-bit word into a tagged value.
    pub fn decode(raw: u16) -> (r: Result<Value, VmError>)
        ensures
            r == Value::decode_spec(raw),
            r matches Ok(v) ==> v.wf(),
    {
        if raw <= 32767 {
            Ok(Value::Literal(raw))
        } else if raw <= 32775 {
            Ok(Value::Register(Register((raw - 32768) as u8)))
        } else {
            Err(VmError::InvalidWord)
        }
    }

    /// Encode a tagged value back into the raw word it decodes from.
    pub fn encode(self) -> (r: u16)
        ensures
            r == self.encode_spec(),
    {
        match self {
            Value::Literal(n) => n,
            Value::Register(reg) => 32768 + reg.0 as u16,
        }
    }
}

/// Decoding is a bijection between the raw words `0 ..= 32775` and the well
/// formed values: every such word decodes, encoding the decoded value gives
/// the word back, and decoding the encoding of a well formed value gives the
/// value back.
pub proof fn lemma_decode_encode_bijection()
    ensures
        forall|w: u16| w <= 32775 ==> ((#[trigger] Value::decode_spec(w)) matches Ok(v) && v.encode_spec() == w),
        forall|v: Value| #[trigger] v.wf() ==> Value::decode_spec(v.encode_spec()) == Ok::<Value, VmError>(v),
{
}

} // verus!
