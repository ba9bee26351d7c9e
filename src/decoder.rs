use vstd::prelude::*;
use crate::error::VaultError;

verus! {

/// The two seeds and the bump of a request, read from its payload. Once
/// validated, the same triple is the proof of derivation authority handed to
/// the account creation.
#[derive(Debug)]
pub struct VaultSeeds {
    pub seed1: Vec<u8>,
    pub seed2: Vec<u8>,
    pub bump: u8,
}

/// The seeds and the claimed bump of the payload
/// `[len1][seed1][len2][seed2][bump]`; none when the payload ends early.
/// Bytes after the bump are not read.
pub open spec fn parse_seeds(d: Seq<u8>) -> Option<(Seq<u8>, Seq<u8>, u8)> {
    if d.len() < 1 {
        None
    } else {
        let l1 = d[0] as int;
        if d.len() < l1 + 2 {
            None
        } else {
            let l2 = d[l1 + 1] as int;
            if d.len() < l1 + l2 + 3 {
                None
            } else {
                Some((d.subrange(1, l1 + 1), d.subrange(l1 + 2, l1 + l2 + 2), d[l1 + l2 + 2]))
            }
        }
    }
}

/// Reads the seeds and the claimed bump from an instruction payload, with
/// every length checked against what remains.
pub fn decode_seeds(data: &[u8]) -> (r: Result<VaultSeeds, VaultError>)
    ensures
        parse_seeds(data@) is None <==> r == Err::<VaultSeeds, VaultError>(
            VaultError::MalformedInstructionError,
        ),
        parse_seeds(data@) is Some <==> r is Ok,
        r is Ok ==> ({
            let (s1, s2, b) = parse_seeds(data@)->0;
            &&& r->Ok_0.seed1@ == s1
            &&& r->Ok_0.seed2@ == s2
            &&& r->Ok_0.bump == b
        }),
{
    let n = data.len();
    if n < 1 {
        return Err(VaultError::MalformedInstructionError);
    }
    let l1 = data[0] as usize;
    if n - 1 < l1 + 1 {
        return Err(VaultError::MalformedInstructionError);
    }
    let seed1 = vstd::slice::slice_to_vec(vstd::slice::slice_subrange(data, 1, l1 + 1));
    let l2 = data[l1 + 1] as usize;
    if n - (l1 + 2) < l2 + 1 {
        return Err(VaultError::MalformedInstructionError);
    }
    let seed2 = vstd::slice::slice_to_vec(vstd::slice::slice_subrange(data, l1 + 2, l1 + l2 + 2));
    let bump = data[l1 + l2 + 2];
    Ok(VaultSeeds { seed1, seed2, bump })
}

} // verus!
