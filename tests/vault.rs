use pda_vault::address::Address;
use pda_vault::decoder::decode_seeds;
use pda_vault::derivation::{check_claim, derive_address};
use pda_vault::error::VaultError;
use pda_vault::processor::{finish_provisioning, process_instruction, Action, RequestAccounts};
use pda_vault::record::VaultRecord;
use solana_program::pubkey::Pubkey;

fn program() -> Address {
    Address::new([7u8; 32])
}

fn wallet() -> Address {
    Address::new([42u8; 32])
}

fn payload(seed1: &[u8], seed2: &[u8], bump: u8) -> Vec<u8> {
    let mut d = vec![seed1.len() as u8];
    d.extend_from_slice(seed1);
    d.push(seed2.len() as u8);
    d.extend_from_slice(seed2);
    d.push(bump);
    d
}

fn accounts(vault: Address) -> RequestAccounts {
    RequestAccounts {
        vault,
        vault_lamports: 0,
        vault_data_len: 0,
        wallet: wallet(),
        wallet_is_signer: true,
        system_program: Address::new([0u8; 32]),
    }
}

#[test]
fn decode_reads_both_seeds_and_bump() {
    let s = decode_seeds(&[2, 1, 2, 3, 9, 8, 7, 254]).unwrap();
    assert_eq!(s.seed1, vec![1, 2]);
    assert_eq!(s.seed2, vec![9, 8, 7]);
    assert_eq!(s.bump, 254);
}

#[test]
fn decode_accepts_empty_seeds_and_ignores_trailing_bytes() {
    let s = decode_seeds(&[0, 0, 5, 99, 100]).unwrap();
    assert!(s.seed1.is_empty());
    assert!(s.seed2.is_empty());
    assert_eq!(s.bump, 5);
}

#[test]
fn decode_rejects_empty_payload() {
    assert_eq!(decode_seeds(&[]).unwrap_err(), VaultError::MalformedInstructionError);
}

#[test]
fn decode_rejects_truncated_first_seed() {
    assert_eq!(decode_seeds(&[5, 1, 2]).unwrap_err(), VaultError::MalformedInstructionError);
}

#[test]
fn decode_rejects_missing_second_length() {
    assert_eq!(decode_seeds(&[2, 1, 2]).unwrap_err(), VaultError::MalformedInstructionError);
}

#[test]
fn decode_rejects_truncated_second_seed() {
    assert_eq!(decode_seeds(&[1, 1, 4, 1, 2]).unwrap_err(), VaultError::MalformedInstructionError);
}

#[test]
fn decode_rejects_missing_bump() {
    assert_eq!(decode_seeds(&[1, 1, 1, 2]).unwrap_err(), VaultError::MalformedInstructionError);
}

#[test]
fn derive_matches_solana_derivation() {
    let (a, b) = derive_address(&program(), b"user", b"vault").unwrap();
    let (expected, bump) =
        Pubkey::find_program_address(&[b"user", b"vault"], &Pubkey::new_from_array([7u8; 32]));
    assert_eq!(a.bytes, expected.to_bytes());
    assert_eq!(b, bump);
    assert_ne!(a.bytes, program().bytes);
}

#[test]
fn derive_is_deterministic() {
    let first = derive_address(&program(), b"user", b"vault").unwrap();
    let second = derive_address(&program(), b"user", b"vault").unwrap();
    assert_eq!(first.0.bytes, second.0.bytes);
    assert_eq!(first.1, second.1);
}

#[test]
fn derive_depends_on_program() {
    let first = derive_address(&program(), b"user", b"vault").unwrap();
    let other = derive_address(&Address::new([8u8; 32]), b"user", b"vault").unwrap();
    assert_ne!(first.0.bytes, other.0.bytes);
}

#[test]
fn derive_rejects_long_seed() {
    let long = [1u8; 33];
    assert_eq!(derive_address(&program(), &long, b"vault").unwrap_err(), VaultError::SeedTooLongError);
    assert_eq!(derive_address(&program(), b"user", &long).unwrap_err(), VaultError::SeedTooLongError);
    assert!(derive_address(&program(), &[1u8; 32], &[2u8; 32]).is_ok());
}

#[test]
fn check_claim_requires_address_and_bump() {
    let a = Address::new([3u8; 32]);
    let b = Address::new([4u8; 32]);
    assert!(check_claim(&(a, 250), &a, 250).is_ok());
    assert_eq!(check_claim(&(a, 250), &b, 250).unwrap_err(), VaultError::AddressMismatchError);
    assert_eq!(check_claim(&(a, 250), &a, 249).unwrap_err(), VaultError::AddressMismatchError);
}

#[test]
fn record_serializes_to_fixed_layout() {
    let r = VaultRecord {
        version: 1,
        depositor: Address::new([2u8; 32]),
        receiver: Address::new([3u8; 32]),
        amount: 0x0102030405060708,
    };
    let bytes = r.serialize();
    assert_eq!(bytes.len(), VaultRecord::LEN);
    assert_eq!(VaultRecord::LEN, 73);
    assert_eq!(bytes[0], 1);
    assert!(bytes[1..33].iter().all(|b| *b == 2));
    assert!(bytes[33..65].iter().all(|b| *b == 3));
    assert_eq!(&bytes[65..73], &[8, 7, 6, 5, 4, 3, 2, 1]);
}

#[test]
fn record_round_trip() {
    let r = VaultRecord {
        version: 1,
        depositor: Address::new([9u8; 32]),
        receiver: Address::new([10u8; 32]),
        amount: u64::MAX - 5,
    };
    let back = VaultRecord::deserialize(&r.serialize()).unwrap();
    assert_eq!(back.version, r.version);
    assert_eq!(back.depositor.bytes, r.depositor.bytes);
    assert_eq!(back.receiver.bytes, r.receiver.bytes);
    assert_eq!(back.amount, r.amount);
}

#[test]
fn record_deserialize_rejects_wrong_length() {
    assert!(VaultRecord::deserialize(&[0u8; 72]).is_none());
    assert!(VaultRecord::deserialize(&[0u8; 74]).is_none());
    let r = VaultRecord::deserialize(&[0u8; 73]).unwrap();
    assert_eq!(r.amount, 0);
}

#[test]
fn new_record_starts_empty() {
    let r = VaultRecord::new(&wallet());
    assert_eq!(r.version, 1);
    assert_eq!(r.depositor.bytes, wallet().bytes);
    assert_eq!(r.receiver.bytes, wallet().bytes);
    assert_eq!(r.amount, 0);
}

#[test]
fn process_rejects_unsigned_wallet() {
    let mut a = accounts(Address::new([1u8; 32]));
    a.wallet_is_signer = false;
    let r = process_instruction(&program(), &a, &payload(b"user", b"vault", 255));
    assert_eq!(r.unwrap_err(), VaultError::AuthenticationError);
}

#[test]
fn process_rejects_wrong_system_authority() {
    let mut a = accounts(Address::new([1u8; 32]));
    a.system_program = Address::new([1u8; 32]);
    let r = process_instruction(&program(), &a, &payload(b"user", b"vault", 255));
    assert_eq!(r.unwrap_err(), VaultError::IdentityMismatchError);
}

#[test]
fn process_rejects_truncated_payload() {
    let (vault, _) = derive_address(&program(), b"user", b"vault").unwrap();
    let r = process_instruction(&program(), &accounts(vault), &[10, 1, 2, 3]);
    assert_eq!(r.unwrap_err(), VaultError::MalformedInstructionError);
}

#[test]
fn process_rejects_long_seed() {
    let long = [5u8; 40];
    let r = process_instruction(&program(), &accounts(Address::new([1u8; 32])), &payload(&long, b"v", 255));
    assert_eq!(r.unwrap_err(), VaultError::SeedTooLongError);
}

#[test]
fn process_rejects_forged_address() {
    let (_, bump) = derive_address(&program(), b"user", b"vault").unwrap();
    let forged = Address::new([1u8; 32]);
    let r = process_instruction(&program(), &accounts(forged), &payload(b"user", b"vault", bump));
    assert_eq!(r.unwrap_err(), VaultError::AddressMismatchError);
}

#[test]
fn process_rejects_forged_bump() {
    let (vault, bump) = derive_address(&program(), b"user", b"vault").unwrap();
    let r = process_instruction(&program(), &accounts(vault), &payload(b"user", b"vault", bump.wrapping_sub(1)));
    assert_eq!(r.unwrap_err(), VaultError::AddressMismatchError);
}

#[test]
fn process_plans_creation_for_empty_vault() {
    let (vault, bump) = derive_address(&program(), b"user", b"vault").unwrap();
    let r = process_instruction(&program(), &accounts(vault), &payload(b"user", b"vault", bump));
    match r.unwrap() {
        Action::Create(c) => {
            assert_eq!(c.payer.bytes, wallet().bytes);
            assert_eq!(c.new_account.bytes, vault.bytes);
            assert_eq!(c.space, 73);
            assert_eq!(c.owner.bytes, program().bytes);
            assert_eq!(c.signer_seeds.seed1, b"user".to_vec());
            assert_eq!(c.signer_seeds.seed2, b"vault".to_vec());
            assert_eq!(c.signer_seeds.bump, bump);
        }
        Action::AlreadyProvisioned => panic!("expected a creation"),
    }
}

#[test]
fn process_treats_funded_or_sized_vault_as_provisioned() {
    let (vault, bump) = derive_address(&program(), b"user", b"vault").unwrap();
    let d = payload(b"user", b"vault", bump);
    let mut funded = accounts(vault);
    funded.vault_lamports = 1;
    assert!(matches!(process_instruction(&program(), &funded, &d).unwrap(), Action::AlreadyProvisioned));
    let mut sized = accounts(vault);
    sized.vault_data_len = 1;
    assert!(matches!(process_instruction(&program(), &sized, &d).unwrap(), Action::AlreadyProvisioned));
}

#[test]
fn finish_reports_failed_creation() {
    let r = finish_provisioning(&program(), &wallet(), false, &program());
    assert_eq!(r.unwrap_err(), VaultError::ProvisioningError);
}

#[test]
fn finish_rejects_foreign_owner() {
    let r = finish_provisioning(&program(), &wallet(), true, &Address::new([0u8; 32]));
    assert_eq!(r.unwrap_err(), VaultError::IdentityMismatchError);
}

#[test]
fn user_vault_scenario() {
    let (a, b) = derive_address(&program(), b"user", b"vault").unwrap();
    let d = payload(b"user", b"vault", b);
    let first = process_instruction(&program(), &accounts(a), &d).unwrap();
    let create = match first {
        Action::Create(c) => c,
        Action::AlreadyProvisioned => panic!("expected a creation"),
    };
    let data = finish_provisioning(&program(), &wallet(), true, &create.owner).unwrap();
    assert_eq!(data.len(), 73);
    let record = VaultRecord::deserialize(&data).unwrap();
    assert_eq!(record.version, 1);
    assert_eq!(record.depositor.bytes, wallet().bytes);
    assert_eq!(record.receiver.bytes, wallet().bytes);
    assert_eq!(record.amount, 0);

    let mut after = accounts(a);
    after.vault_lamports = 1_000_000;
    after.vault_data_len = create.space;
    let second = process_instruction(&program(), &after, &d).unwrap();
    assert!(matches!(second, Action::AlreadyProvisioned));
}
