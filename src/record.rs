use vstd::prelude::*;
use crate::address::{Address, ADDRESS_LEN};

verus! {

/// The eight little-endian bytes of `v`.
pub open spec fn le_bytes(v: u64) -> Seq<u8> {
    seq![
        v as u8,
        (v >> 8u64) as u8,
        (v >> 16u64) as u8,
        (v >> 24u64) as u8,
        (v >> 32u64) as u8,
        (v >> 40u64) as u8,
        (v >> 48u64) as u8,
        (v >> 56u64) as u8,
    ]
}

/// The integer that eight little-endian bytes stand for.
pub open spec fn le_value(s: Seq<u8>) -> u64 {
    (s[0] as u64) | ((s[1] as u64) << 8u64) | ((s[2] as u64) << 16u64) | ((s[3] as u64) << 24u64)
        | ((s[4] as u64) << 32u64) | ((s[5] as u64) << 40u64) | ((s[6] as u64) << 48u64) | ((
    s[7] as u64) << 56u64)
}

/// Relies on borsh::to_vec for u64: it writes `to_le_bytes` into a `Vec`,
/// a writer that does not fail.
#[verifier::external_body]
fn encode_u64(v: u64) -> (r: Vec<u8>)
    ensures
        r@ == le_bytes(v),
{
    borsh::to_vec(&v).unwrap_or_default()
}

/// Relies on borsh::from_slice for u64: it reads eight little-endian bytes
/// and fails when the slice is shorter or longer.
#[verifier::external_body]
fn decode_u64(b: &[u8]) -> (r: Option<u64>)
    ensures
        r is Some <==> b@.len() == 8,
        r is Some ==> r->0 == le_value(b@),
{
    borsh::from_slice::<u64>(b).ok()
}

/// The record stored in a vault account.
#[derive(Clone, Copy, Debug)]
pub struct VaultRecord {
    pub version: u8,
    pub depositor: Address,
    pub receiver: Address,
    pub amount: u64,
}

/// What a vault record holds, with addresses as byte sequences.
pub ghost struct RecordView {
    pub version: u8,
    pub depositor: Seq<u8>,
    pub receiver: Seq<u8>,
    pub amount: u64,
}

impl View for VaultRecord {
    type V = RecordView;

    open spec fn view(&self) -> RecordView {
        RecordView {
            version: self.version,
            depositor: self.depositor@,
            receiver: self.receiver@,
            amount: self.amount,
        }
    }
}

/// The stored layout: version, depositor, receiver, then the amount in
/// little-endian order.
pub open spec fn encode_record(r: RecordView) -> Seq<u8> {
    seq![r.version] + r.depositor + r.receiver + le_bytes(r.amount)
}

/// The record that a stored layout holds; none unless it is exactly
/// `VaultRecord::LEN` bytes long.
pub open spec fn decode_record(s: Seq<u8>) -> Option<RecordView> {
    if s.len() != 73 {
        None
    } else {
        Some(
            RecordView {
                version: s[0],
                depositor: s.subrange(1, 33),
                receiver: s.subrange(33, 65),
                amount: le_value(s.subrange(65, 73)),
            },
        )
    }
}

/// Decoding an encoded record gives the record back, field for field.
pub proof fn lemma_record_round_trip(r: RecordView)
    requires
        r.depositor.len() == 32,
        r.receiver.len() == 32,
    ensures
        decode_record(encode_record(r)) == Some(r),
{
    let s = encode_record(r);
    assert(s.subrange(1, 33) =~= r.depositor);
    assert(s.subrange(33, 65) =~= r.receiver);
    assert(s.subrange(65, 73) =~= le_bytes(r.amount));
    let v = r.amount;
    assert(le_value(le_bytes(v)) == v) by {
        assert((v as u8 as u64) | (((v >> 8u64) as u8 as u64) << 8u64) | (((v >> 16u64) as u8
            as u64) << 16u64) | (((v >> 24u64) as u8 as u64) << 24u64) | (((v >> 32u64) as u8
            as u64) << 32u64) | (((v >> 40u64) as u8 as u64) << 40u64) | (((v >> 48u64) as u8
            as u64) << 48u64) | (((v >> 56u64) as u8 as u64) << 56u64) == v) by (bit_vector);
    }
}

/// Appends the bytes of `s` to `out`.
fn push_all(out: &mut Vec<u8>, s: &[u8])
    ensures
        final(out)@ == old(out)@ + s@,
{
    let mut i: usize = 0;
    while i < s.len()
        invariant
            i <= s@.len(),
            out@ == old(out)@ + s@.subrange(0, i as int),
        decreases s@.len() - i,
    {
        out.push(s[i]);
        i = i + 1;
        assert(s@.subrange(0, i as int) =~= s@.subrange(0, i - 1) + seq![s@[i - 1]]);
    }
    assert(s@.subrange(0, i as int) =~= s@);
}

/// The address held in `s[start..start + 32]`.
fn address_at(s: &[u8], start: usize) -> (r: Address)
    requires
        start + 32 <= s@.len(),
    ensures
        r@ == s@.subrange(start as int, start + 32),
{
    let mut bytes = [0u8; 32];
    let mut i: usize = 0;
    while i < ADDRESS_LEN
        invariant
            start + 32 <= s.len(),
            i <= ADDRESS_LEN,
            bytes@.len() == 32,
            forall|j: int| 0 <= j < i ==> bytes@[j] == s@[start + j],
        decreases ADDRESS_LEN - i,
    {
        bytes[i] = s[start + i];
        i = i + 1;
    }
    let r = Address { bytes };
    assert(r@ =~= s@.subrange(start as int, start + 32));
    r
}

impl VaultRecord {
    /// Length in bytes of a stored record.
    pub const LEN: usize = 1 + 32 + 32 + 8;

    /// The version tag of the current layout.
    pub const VERSION: u8 = 1;

    /// The record of a vault just created by `wallet`: the current version,
    /// `wallet` as depositor and receiver, and nothing deposited.
    pub fn new(wallet: &Address) -> (r: VaultRecord)
        ensures
            r.version == 1,
            r.depositor@ == wallet@,
            r.receiver@ == wallet@,
            r.amount == 0,
    {
        VaultRecord { version: Self::VERSION, depositor: *wallet, receiver: *wallet, amount: 0 }
    }

    /// The stored layout of the record, `VaultRecord::LEN` bytes.
    pub fn serialize(&self) -> (r: Vec<u8>)
        ensures
            r@ == encode_record(self@),
            r@.len() == 73,
    {
        let mut out: Vec<u8> = Vec::new();
        out.push(self.version);
        push_all(&mut out, self.depositor.bytes.as_slice());
        push_all(&mut out, self.receiver.bytes.as_slice());
        let amount = encode_u64(self.amount);
        push_all(&mut out, amount.as_slice());
        assert(out@ =~= encode_record(self@));
        out
    }

    /// The record held in a stored layout; none unless `bytes` is exactly
    /// `VaultRecord::LEN` bytes long.
    pub fn deserialize(bytes: &[u8]) -> (r: Option<VaultRecord>)
        ensures
            r is Some <==> decode_record(bytes@) is Some,
            r is Some ==> decode_record(bytes@) == Some(r->0@),
    {
        if bytes.len() != Self::LEN {
            return None;
        }
        let depositor = address_at(bytes, 1);
        let receiver = address_at(bytes, 33);
        let amount = match decode_u64(vstd::slice::slice_subrange(bytes, 65, 73)) {
            Some(v) => v,
            None => return None,
        };
        Some(VaultRecord { version: bytes[0], depositor, receiver, amount })
    }
}

} // verus!
