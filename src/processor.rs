use vstd::prelude::*;
use crate::address::{system_program_address, system_program_id, Address};
use crate::decoder::{decode_seeds, parse_seeds, VaultSeeds};
use crate::derivation::{check_claim, claim_matches, derivation_of, derive_address};
use crate::error::VaultError;
use crate::record::{encode_record, RecordView, VaultRecord};

verus! {

/// What a request says of the three accounts that come with it.
#[derive(Clone, Copy, Debug)]
pub struct RequestAccounts {
    /// The vault account at the derived address.
    pub vault: Address,
    /// The vault account's balance.
    pub vault_lamports: u64,
    /// The length of the vault account's data.
    pub vault_data_len: u64,
    /// The wallet that initiates and funds the request.
    pub wallet: Address,
    /// Whether the wallet signed the request.
    pub wallet_is_signer: bool,
    /// The account given as the system authority.
    pub system_program: Address,
}

/// The account creation that a request asks of the host.
#[derive(Debug)]
pub struct CreateAccount {
    /// The account that funds the new one.
    pub payer: Address,
    /// The address of the new account.
    pub new_account: Address,
    /// The length of the new account's data.
    pub space: u64,
    /// The owner of the new account.
    pub owner: Address,
    /// The seeds and bump that authorize the creation at the derived address.
    pub signer_seeds: VaultSeeds,
}

/// What the host is to do once a request is accepted.
#[derive(Debug)]
pub enum Action {
    /// The vault exists already: nothing is to be done.
    AlreadyProvisioned,
    /// The vault is to be created, then initialized.
    Create(CreateAccount),
}

/// Whether the vault account exists: it holds a balance or data.
pub open spec fn is_provisioned(a: RequestAccounts) -> bool {
    a.vault_lamports > 0 || a.vault_data_len > 0
}

/// The error with which a request is rejected, in the order of the checks:
/// signer, system authority, payload, derivation, claimed address and bump.
/// None when the request is accepted.
pub open spec fn rejection_of(program_id: Seq<u8>, a: RequestAccounts, data: Seq<u8>) -> Option<VaultError> {
    if !a.wallet_is_signer {
        Some(VaultError::AuthenticationError)
    } else if a.system_program@ != system_program_address() {
        Some(VaultError::IdentityMismatchError)
    } else {
        match parse_seeds(data) {
            None => Some(VaultError::MalformedInstructionError),
            Some((s1, s2, bump)) => match derivation_of(program_id, s1, s2) {
                Err(e) => Some(e),
                Ok(derived) => if claim_matches(derived, a.vault@, bump) {
                    None
                } else {
                    Some(VaultError::AddressMismatchError)
                },
            },
        }
    }
}

/// Whether `c` is the creation that an accepted request asks for: the vault
/// at the claimed address, `VaultRecord::LEN` bytes, owned by the program,
/// funded by the wallet, authorized by the payload's seeds and bump.
pub open spec fn creation_for(c: CreateAccount, program_id: Seq<u8>, a: RequestAccounts, data: Seq<u8>) -> bool {
    let (s1, s2, bump) = parse_seeds(data)->0;
    &&& c.payer@ == a.wallet@
    &&& c.new_account@ == a.vault@
    &&& c.space == 73
    &&& c.owner@ == program_id
    &&& c.signer_seeds.seed1@ == s1
    &&& c.signer_seeds.seed2@ == s2
    &&& c.signer_seeds.bump == bump
}

/// Checks a provisioning request and decides what the host is to do: nothing
/// when the vault exists, else create it.
pub fn process_instruction(program_id: &Address, accounts: &RequestAccounts, data: &[u8]) -> (r: Result<Action, VaultError>)
    ensures
        rejection_of(program_id@, *accounts, data@) is Some ==> r == Err::<Action, VaultError>(
            rejection_of(program_id@, *accounts, data@)->0,
        ),
        rejection_of(program_id@, *accounts, data@) is None ==> r is Ok,
        r is Ok ==> (r->Ok_0 is AlreadyProvisioned <==> is_provisioned(*accounts)),
        r is Ok && r->Ok_0 is Create ==> creation_for(r->Ok_0->Create_0, program_id@, *accounts, data@),
{
    if !accounts.wallet_is_signer {
        return Err(VaultError::AuthenticationError);
    }
    let system = system_program_id();
    if !accounts.system_program.same_as(&system) {
        return Err(VaultError::IdentityMismatchError);
    }
    let seeds = decode_seeds(data)?;
    let derived = derive_address(program_id, seeds.seed1.as_slice(), seeds.seed2.as_slice())?;
    check_claim(&derived, &accounts.vault, seeds.bump)?;
    if accounts.vault_lamports > 0 || accounts.vault_data_len > 0 {
        return Ok(Action::AlreadyProvisioned);
    }
    Ok(
        Action::Create(
            CreateAccount {
                payer: accounts.wallet,
                new_account: accounts.vault,
                space: VaultRecord::LEN as u64,
                owner: *program_id,
                signer_seeds: seeds,
            },
        ),
    )
}

/// The record that a new vault of `wallet` starts with.
pub open spec fn initial_record(wallet: Seq<u8>) -> RecordView {
    RecordView { version: 1, depositor: wallet, receiver: wallet, amount: 0 }
}

/// Decides what follows the host's account creation: the bytes to write into
/// the new vault when it was created and is owned by the program, else the
/// error.
pub fn finish_provisioning(program_id: &Address, wallet: &Address, created: bool, owner: &Address) -> (r: Result<Vec<u8>, VaultError>)
    ensures
        !created ==> r == Err::<Vec<u8>, VaultError>(VaultError::ProvisioningError),
        created && owner@ != program_id@ ==> r == Err::<Vec<u8>, VaultError>(
            VaultError::IdentityMismatchError,
        ),
        created && owner@ == program_id@ ==> r is Ok && r->Ok_0@ == encode_record(initial_record(wallet@)),
{
    if !created {
        return Err(VaultError::ProvisioningError);
    }
    if !owner.same_as(program_id) {
        return Err(VaultError::IdentityMismatchError);
    }
    Ok(VaultRecord::new(wallet).serialize())
}

/// Once an accepted request has created its vault, with the space it asked
/// for, the same request again is accepted and finds the vault provisioned:
/// it is a success that creates and writes nothing.
pub proof fn lemma_resubmission_is_noop(
    program_id: Seq<u8>,
    before: RequestAccounts,
    data: Seq<u8>,
    after: RequestAccounts,
)
    requires
        rejection_of(program_id, before, data) is None,
        !is_provisioned(before),
        after.vault == before.vault,
        after.wallet == before.wallet,
        after.wallet_is_signer == before.wallet_is_signer,
        after.system_program == before.system_program,
        after.vault_data_len == VaultRecord::LEN,
    ensures
        rejection_of(program_id, after, data) is None,
        is_provisioned(after),
{
}

/// A claimed address other than the derived one is rejected with
/// `AddressMismatchError`, so nothing is created.
pub proof fn lemma_forged_address_rejected(
    program_id: Seq<u8>,
    a: RequestAccounts,
    data: Seq<u8>,
    seed1: Seq<u8>,
    seed2: Seq<u8>,
    claimed_bump: u8,
    derived: Seq<u8>,
    canonical_bump: u8,
)
    requires
        a.wallet_is_signer,
        a.system_program@ == system_program_address(),
        parse_seeds(data) == Some((seed1, seed2, claimed_bump)),
        derivation_of(program_id, seed1, seed2) == Ok::<(Seq<u8>, u8), VaultError>(
            (derived, canonical_bump),
        ),
        a.vault@ != derived,
    ensures
        rejection_of(program_id, a, data) == Some(VaultError::AddressMismatchError),
{
}

/// A claimed bump other than the canonical one is rejected with
/// `AddressMismatchError`, whatever address is claimed.
pub proof fn lemma_forged_bump_rejected(
    program_id: Seq<u8>,
    a: RequestAccounts,
    data: Seq<u8>,
    seed1: Seq<u8>,
    seed2: Seq<u8>,
    claimed_bump: u8,
    derived: Seq<u8>,
    canonical_bump: u8,
)
    requires
        a.wallet_is_signer,
        a.system_program@ == system_program_address(),
        parse_seeds(data) == Some((seed1, seed2, claimed_bump)),
        derivation_of(program_id, seed1, seed2) == Ok::<(Seq<u8>, u8), VaultError>(
            (derived, canonical_bump),
        ),
        claimed_bump != canonical_bump,
    ensures
        rejection_of(program_id, a, data) == Some(VaultError::AddressMismatchError),
{
}

/// A payload whose first length declares more bytes than follow it is
/// rejected with `MalformedInstructionError` once the accounts pass, so no
/// account is touched.
pub proof fn lemma_truncated_payload_rejected(program_id: Seq<u8>, a: RequestAccounts, data: Seq<u8>)
    requires
        a.wallet_is_signer,
        a.system_program@ == system_program_address(),
        data.len() >= 1,
        data[0] as int > data.len() - 1,
    ensures
        rejection_of(program_id, a, data) == Some(VaultError::MalformedInstructionError),
{
}

} // verus!
