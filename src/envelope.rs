//! What crosses the boundary to the confidential-computation cluster:
//! ciphertexts, nonces, typed argument lists and computation outputs.
use vstd::prelude::*;

verus! {

broadcast use vstd::array::group_array_axioms;

/// An opaque fixed-size ciphertext.
pub type Ciphertext = [u8; 32];

/// The identity of a principal (an owner, a validator, a signer).
pub type Pubkey = [u8; 32];

/// The all-zero encoding, which stands for the value zero under every nonce.
pub open spec fn is_zero_encoding(c: Ciphertext) -> bool {
    forall|i: int| 0 <= i < 32 ==> #[trigger] c@[i] == 0u8
}

/// The all-zero ciphertext.
pub fn zero_ciphertext() -> (r: Ciphertext)
    ensures
        is_zero_encoding(r),
{
    let r: Ciphertext = [0u8; 32];
    r
}

/// Whether every byte of `c` is zero.
pub fn is_zero_ciphertext(c: &Ciphertext) -> (r: bool)
    ensures
        r == is_zero_encoding(*c),
{
    let mut i: usize = 0;
    while i < 32
        invariant
            0 <= i <= 32,
            forall|j: int| 0 <= j < i ==> #[trigger] c@[j] == 0u8,
        decreases 32 - i,
    {
        if c[i] != 0 {
            return false;
        }
        i = i + 1;
    }
    true
}

/// Whether two keys are the same.
pub fn keys_equal(a: &Pubkey, b: &Pubkey) -> (r: bool)
    ensures
        r == (*a == *b),
{
    let mut i: usize = 0;
    while i < 32
        invariant
            0 <= i <= 32,
            forall|j: int| 0 <= j < i ==> #[trigger] a@[j] == b@[j],
        decreases 32 - i,
    {
        if a[i] != b[i] {
            return false;
        }
        i = i + 1;
    }
    assert(*a =~= *b);
    true
}

/// One argument handed to the cluster with a request.
#[derive(Clone, Copy, Debug, PartialEq, Eq)]
pub enum Argument {
    ArcisPubkey(Pubkey),
    PlaintextU128(u128),
    PlaintextU64(u64),
    EncryptedU64(Ciphertext),
    EncryptedU8(Ciphertext),
}

/// The type of an argument, without its value.
#[derive(Clone, Copy, Debug, PartialEq, Eq, Structural)]
pub enum ArgumentType {
    ArcisPubkey,
    PlaintextU128,
    PlaintextU64,
    EncryptedU64,
    EncryptedU8,
}

impl Argument {
    pub open spec fn spec_type(&self) -> ArgumentType {
        match self {
            Argument::ArcisPubkey(_) => ArgumentType::ArcisPubkey,
            Argument::PlaintextU128(_) => ArgumentType::PlaintextU128,
            Argument::PlaintextU64(_) => ArgumentType::PlaintextU64,
            Argument::EncryptedU64(_) => ArgumentType::EncryptedU64,
            Argument::EncryptedU8(_) => ArgumentType::EncryptedU8,
        }
    }

    /// The type of this argument.
    #[verifier::when_used_as_spec(spec_type)]
    pub fn arg_type(&self) -> (r: ArgumentType)
        ensures
            r == self.spec_type(),
    {
        match self {
            Argument::ArcisPubkey(_) => ArgumentType::ArcisPubkey,
            Argument::PlaintextU128(_) => ArgumentType::PlaintextU128,
            Argument::PlaintextU64(_) => ArgumentType::PlaintextU64,
            Argument::EncryptedU64(_) => ArgumentType::EncryptedU64,
            Argument::EncryptedU8(_) => ArgumentType::EncryptedU8,
        }
    }
}

/// The types of an argument list, in order.
pub open spec fn shape_of(args: Seq<Argument>) -> Seq<ArgumentType> {
    args.map_values(|a: Argument| a.spec_type())
}

/// The result ciphertexts of a successful computation, all under one nonce.
#[derive(Clone, Debug)]
pub struct EncryptedOutput {
    pub ciphertexts: Vec<Ciphertext>,
    pub nonce: u128,
}

/// What the cluster delivers for a request.
#[derive(Clone, Debug)]
pub enum ComputationOutputs {
    Success(EncryptedOutput),
    Aborted,
}

} // verus!
