//! Size-handling policy: reconciling retrieved file bytes with the expected
//! ROM size.

use vstd::prelude::*;

verus! {

/// How retrieved bytes are reconciled against a file's expected ROM size.
#[derive(Clone, Copy, PartialEq, Eq, Structural, Debug)]
pub enum SizeHandling {
    /// The input must be exactly the expected size.
    Exact,
    /// Shorter input is zero-padded up to the expected size; longer input is
    /// rejected.
    PadToSize,
    /// Longer input is truncated down to the expected size; shorter input is
    /// rejected.
    TruncateToSize,
}

impl SizeHandling {
    /// The stable one-byte tag used for this policy in the binary metadata
    /// record.
    pub open spec fn spec_code(self) -> u8 {
        match self {
            SizeHandling::Exact => 0u8,
            SizeHandling::PadToSize => 1u8,
            SizeHandling::TruncateToSize => 2u8,
        }
    }

    pub fn code(self) -> (r: u8)
        ensures
            r == self.spec_code(),
    {
        match self {
            SizeHandling::Exact => 0,
            SizeHandling::PadToSize => 1,
            SizeHandling::TruncateToSize => 2,
        }
    }
}

/// What [`apply_size_handling`] returns: the normalized bytes, all three
/// policies yielding exactly `rom_size` bytes on success, or `None` where the
/// policy rejects the input length.
pub open spec fn spec_apply_size_handling(
    policy: SizeHandling,
    data: Seq<u8>,
    rom_size: nat,
) -> Option<Seq<u8>> {
    match policy {
        SizeHandling::Exact => if data.len() == rom_size {
            Some(data)
        } else {
            None
        },
        SizeHandling::PadToSize => if data.len() <= rom_size {
            Some(data + Seq::new((rom_size - data.len()) as nat, |i: int| 0u8))
        } else {
            None
        },
        SizeHandling::TruncateToSize => if data.len() >= rom_size {
            Some(data.take(rom_size as int))
        } else {
            None
        },
    }
}

/// Apply a size-handling policy to retrieved bytes, consuming the input.
///
/// Returns the normalized bytes (always exactly `rom_size` long) or `None`
/// where the input length violates the policy.
pub fn apply_size_handling(policy: SizeHandling, data: Vec<u8>, rom_size: usize) -> (r: Option<
    Vec<u8>,
>)
    ensures
        match r {
            Some(norm) => spec_apply_size_handling(policy, data@, rom_size as nat) == Some(norm@),
            None => spec_apply_size_handling(policy, data@, rom_size as nat) is None,
        },
{
    let mut data = data;
    match policy {
        SizeHandling::Exact => {
            if data.len() == rom_size {
                assert(data@ + Seq::new(0, |i: int| 0u8) =~= data@);
                Some(data)
            } else {
                None
            }
        },
        SizeHandling::PadToSize => {
            if data.len() <= rom_size {
                let pad = rom_size - data.len();
                let ghost orig = data@;
                let mut k: usize = 0;
                while k < pad
                    invariant
                        k <= pad,
                        pad == rom_size - orig.len(),
                        data@ =~= orig + Seq::new(k as nat, |i: int| 0u8),
                    decreases pad - k,
                {
                    data.push(0u8);
                    k = k + 1;
                    assert(data@ =~= orig + Seq::new(k as nat, |i: int| 0u8));
                }
                Some(data)
            } else {
                None
            }
        },
        SizeHandling::TruncateToSize => {
            if data.len() >= rom_size {
                data.truncate(rom_size);
                Some(data)
            } else {
                None
            }
        },
    }
}

} // verus!
