//! Values that the hosting ledger hands to the registry: account keys and the
//! clock. Both are held as plain data so that every rule that reads them can
//! be stated and proved.

use vstd::prelude::*;

verus! {

/// A 32-byte account key.
///
/// Two keys are the same key exactly when their bytes agree.
#[derive(Clone, Copy, Debug, PartialEq, Eq, Hash)]
pub struct Pubkey {
    pub bytes: [u8; 32],
}

/// The ledger's notion of time at the moment an instruction runs.
#[derive(Clone, Copy, Debug, PartialEq, Eq)]
pub struct Clock {
    /// The current slot.
    pub slot: u64,
    /// Timestamp of the first slot of the current epoch.
    pub epoch_start_timestamp: i64,
    /// The current epoch.
    pub epoch: u64,
    /// The latest epoch for which a leader schedule exists.
    pub leader_schedule_epoch: u64,
    /// Approximate wall-clock time of the current slot, in Unix seconds.
    pub unix_timestamp: i64,
}

/// The bytes of the key that stands for "no key": thirty-two zeros.
pub open spec fn zero_key_bytes() -> Seq<u8> {
    Seq::new(32, |i: int| 0u8)
}

/// The default key of the ledger, as plain bytes.
///
/// Trusted: the body calls `Pubkey::default` of `anchor_lang` and copies the
/// bytes out with `Pubkey::to_bytes`. The contract claims that the default key
/// consists of thirty-two zero bytes, which is what the derived `Default` of a
/// wrapper around `[u8; 32]` yields.
#[verifier::external_body]
fn default_key_bytes() -> (r: [u8; 32])
    ensures
        r@ == zero_key_bytes(),
{
    anchor_lang::prelude::Pubkey::default().to_bytes()
}

impl Pubkey {
    /// Builds a key from its bytes.
    pub fn new_from_array(bytes: [u8; 32]) -> (r: Pubkey)
        ensures
            r.bytes == bytes,
    {
        Pubkey { bytes }
    }

    /// The bytes of this key.
    pub fn to_bytes(&self) -> (r: [u8; 32])
        ensures
            r == self.bytes,
    {
        self.bytes
    }

    /// The default key, which stands for "none": every byte zero.
    pub open spec fn zero() -> Pubkey {
        Pubkey { bytes: vstd::array::spec_array_fill_for_copy_type::<u8, 32>(0u8) }
    }

    /// Whether this is the default key.
    pub open spec fn is_default(&self) -> bool {
        self.bytes@ == zero_key_bytes()
    }

    /// Whether two keys are the same key.
    pub fn same_as(&self, other: &Pubkey) -> (r: bool)
        ensures
            r == (*self == *other),
    {
        let mut i: usize = 0;
        while i < 32
            invariant
                i <= 32,
                forall|j: int| 0 <= j < i ==> self.bytes@[j] == other.bytes@[j],
            decreases 32 - i,
        {
            if self.bytes[i] != other.bytes[i] {
                return false;
            }
            i += 1;
        }
        assert(self.bytes =~= other.bytes);
        true
    }
}

/// The default key is the one key whose bytes are all zero.
pub proof fn lemma_default_key_is_zero(key: Pubkey)
    ensures
        key.is_default() <==> key == Pubkey::zero(),
{
    if key.is_default() {
        assert(key.bytes =~= Pubkey::zero().bytes);
    }
    assert(Pubkey::zero().bytes@ =~= zero_key_bytes());
}

impl Default for Pubkey {
    /// The default key: every byte zero.
    fn default() -> (r: Pubkey)
        ensures
            r == Pubkey::zero(),
            r.is_default(),
    {
        let r = Pubkey { bytes: default_key_bytes() };
        assert(r.bytes =~= Pubkey::zero().bytes);
        r
    }
}

} // verus!
