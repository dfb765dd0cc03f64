use counter_program::account::{verify_account_owner, Account};
use counter_program::codec::{read_counter, write_counter, Counter, COUNTER_SIZE};
use counter_program::derivation::{counter_seed, derive_counter_address};
use counter_program::error::CounterError;
use counter_program::identity::Identity;
use counter_program::instruction::{decode_instruction, Instruction};
use counter_program::processor::{
    check_initialize, complete_initialize, increment_counter, process_instruction, Action,
    CreateAccountRequest,
};

fn id(b: u8) -> Identity {
    Identity::new([b; 32])
}

fn program() -> Identity {
    id(7)
}

fn signer(key: Identity, is_signer: bool) -> Account {
    Account { key, owner: Identity::zero(), is_signer, data: Vec::new() }
}

fn record(owner: Identity, count: u8) -> Vec<u8> {
    let mut data = owner.to_bytes().to_vec();
    data.push(count);
    data
}

fn counter_account(owner: Identity, count: u8) -> Account {
    Account { key: id(9), owner: program(), is_signer: false, data: record(owner, count) }
}

fn initialized_accounts(owner: Identity) -> Vec<Account> {
    let (address, _) = derive_counter_address(&owner, &program()).unwrap();
    let empty = Account { key: address, owner: Identity::zero(), is_signer: false, data: Vec::new() };
    let system = Account { key: Identity::zero(), owner: Identity::zero(), is_signer: false, data: Vec::new() };
    let mut accounts = vec![signer(owner, true), empty, system];
    let req = match process_instruction(&program(), &mut accounts, &[0]) {
        Ok(Action::CreateAccount(req)) => req,
        other => panic!("unexpected result {:?}", other),
    };
    accounts[1].owner = req.owner;
    accounts[1].data = vec![0u8; req.space as usize];
    complete_initialize(&req, &mut accounts[1]).unwrap();
    accounts
}

#[test]
fn decode_reads_first_byte() {
    assert_eq!(decode_instruction(&[0]), Ok(Instruction::InitializeCounter));
    assert_eq!(decode_instruction(&[1, 200, 3]), Ok(Instruction::IncrementCounter));
}

#[test]
fn decode_rejects_unknown_and_empty() {
    assert_eq!(decode_instruction(&[]), Err(CounterError::UnknownInstruction));
    assert_eq!(decode_instruction(&[2]), Err(CounterError::UnknownInstruction));
    assert_eq!(decode_instruction(&[255, 0]), Err(CounterError::UnknownInstruction));
}

#[test]
fn unknown_instruction_leaves_accounts() {
    let mut accounts = vec![signer(id(1), true), counter_account(id(1), 4)];
    let r = process_instruction(&program(), &mut accounts, &[9]);
    assert!(matches!(r, Err(CounterError::UnknownInstruction)));
    assert_eq!(accounts[1].data, record(id(1), 4));
}

#[test]
fn codec_round_trip() {
    let mut data = vec![0u8; 40];
    let c = Counter { owner: id(3), count: 42 };
    write_counter(&mut data, &c).unwrap();
    assert_eq!(&data[..32], &[3u8; 32][..]);
    assert_eq!(data[32], 42);
    assert_eq!(&data[33..], &[0u8; 7][..]);
    let back = read_counter(&data).unwrap();
    assert_eq!(back.owner, id(3));
    assert_eq!(back.count, 42);
}

#[test]
fn codec_rejects_short_buffers() {
    for len in 0..COUNTER_SIZE {
        let data = vec![5u8; len];
        assert!(matches!(read_counter(&data), Err(CounterError::MalformedAccountData)));
        let mut buf = data.clone();
        let c = Counter { owner: id(3), count: 1 };
        assert_eq!(write_counter(&mut buf, &c), Err(CounterError::MalformedAccountData));
        assert_eq!(buf, data);
    }
    assert!(read_counter(&[5u8; 33]).is_ok());
}

#[test]
fn owner_check_passes_and_fails() {
    let acct = counter_account(id(1), 1);
    let ok = verify_account_owner(&acct, &program()).unwrap();
    assert_eq!(ok.key, acct.key);
    assert!(matches!(verify_account_owner(&acct, &id(8)), Err(CounterError::Unauthorized)));
}

#[test]
fn identity_equality_and_zero() {
    assert_eq!(id(4), id(4));
    assert_ne!(id(4), id(5));
    let mut bytes = [4u8; 32];
    bytes[31] = 0;
    assert!(!id(4).same_as(&Identity::new(bytes)));
    assert!(Identity::zero().is_zero());
    assert!(!Identity::new(bytes).is_zero());
    assert_eq!(id(6).to_vec(), vec![6u8; 32]);
}

#[test]
fn error_codes() {
    assert_eq!(CounterError::Unauthorized.custom_code(), Some(0));
    assert_eq!(CounterError::UnauthorizedAccount.custom_code(), Some(1));
    assert_eq!(CounterError::CounterIsAlreadyInitialized.custom_code(), Some(2));
    assert_eq!(CounterError::InvalidPda.custom_code(), Some(3));
    assert_eq!(CounterError::UnknownInstruction.custom_code(), Some(4));
    assert_eq!(CounterError::MalformedAccountData.custom_code(), Some(5));
    assert_eq!(CounterError::CounterOverflow.custom_code(), Some(6));
    assert_eq!(CounterError::DerivationExhausted.custom_code(), Some(7));
    assert_eq!(CounterError::NotEnoughAccountKeys.custom_code(), None);
}

#[test]
fn derivation_is_deterministic_and_matches_platform() {
    let owner = id(1);
    let first = derive_counter_address(&owner, &program()).unwrap();
    let second = derive_counter_address(&owner, &program()).unwrap();
    assert_eq!(first.0, second.0);
    assert_eq!(first.1, second.1);
    assert_ne!(first.0, owner);
    assert_ne!(first.0, program());
    let (pda, bump) = solana_program::pubkey::Pubkey::find_program_address(
        &[&owner.to_bytes(), b"counter"],
        &solana_program::pubkey::Pubkey::new_from_array(program().to_bytes()),
    );
    assert_eq!(first.0.to_bytes(), pda.to_bytes());
    assert_eq!(first.1, bump);
    let other = derive_counter_address(&id(2), &program()).unwrap();
    assert_ne!(other.0, first.0);
}

#[test]
fn counter_seed_is_the_tag() {
    assert_eq!(counter_seed(), b"counter".to_vec());
}

#[test]
fn initialize_asks_for_creation_then_writes_record() {
    let owner = id(1);
    let (address, bump) = derive_counter_address(&owner, &program()).unwrap();
    let empty = Account { key: address, owner: Identity::zero(), is_signer: false, data: Vec::new() };
    let system = signer(Identity::zero(), false);
    let mut accounts = vec![signer(owner, true), empty, system];
    let req: CreateAccountRequest = match process_instruction(&program(), &mut accounts, &[0]) {
        Ok(Action::CreateAccount(req)) => req,
        other => panic!("unexpected result {:?}", other),
    };
    assert_eq!(req.funder, owner);
    assert_eq!(req.address, address);
    assert_eq!(req.space, 33);
    assert_eq!(req.owner, program());
    assert_eq!(req.signer_seeds, vec![vec![1u8; 32], b"counter".to_vec(), vec![bump]]);
    assert!(accounts[1].data.is_empty());

    let accounts = initialized_accounts(owner);
    assert_eq!(accounts[1].data, record(owner, 1));
}

#[test]
fn complete_initialize_needs_room() {
    let req = CreateAccountRequest {
        funder: id(1),
        address: id(9),
        space: 33,
        owner: program(),
        signer_seeds: Vec::new(),
    };
    let mut acct = Account { key: id(9), owner: program(), is_signer: false, data: vec![0u8; 32] };
    assert_eq!(complete_initialize(&req, &mut acct), Err(CounterError::MalformedAccountData));
    assert_eq!(acct.data, vec![0u8; 32]);
}

#[test]
fn initialize_twice_fails_and_keeps_record() {
    let owner = id(1);
    let mut accounts = initialized_accounts(owner);
    let r = process_instruction(&program(), &mut accounts, &[0]);
    assert!(matches!(r, Err(CounterError::CounterIsAlreadyInitialized)));
    assert_eq!(accounts[1].data, record(owner, 1));
    assert_eq!(accounts[1].owner, program());
}

#[test]
fn initialize_rejects_wrong_address() {
    let owner = id(1);
    let empty = Account { key: id(9), owner: Identity::zero(), is_signer: false, data: Vec::new() };
    let mut accounts = vec![signer(owner, true), empty, signer(Identity::zero(), false)];
    let r = process_instruction(&program(), &mut accounts, &[0]);
    assert!(matches!(r, Err(CounterError::InvalidPda)));
}

#[test]
fn check_initialize_on_given_derivation() {
    let s = signer(id(1), true);
    let empty = Account { key: id(9), owner: Identity::zero(), is_signer: false, data: Vec::new() };
    let req = check_initialize(&program(), &s, &empty, (id(9), 250)).unwrap();
    assert_eq!(req.address, id(9));
    assert_eq!(req.signer_seeds[2], vec![250u8]);
    assert!(matches!(check_initialize(&program(), &s, &empty, (id(8), 250)), Err(CounterError::InvalidPda)));
    let taken = Account { key: id(9), owner: id(3), is_signer: false, data: Vec::new() };
    assert!(matches!(
        check_initialize(&program(), &s, &taken, (id(8), 250)),
        Err(CounterError::CounterIsAlreadyInitialized)
    ));
}

#[test]
fn initialize_needs_three_accounts() {
    let mut one = vec![signer(id(1), true)];
    assert!(matches!(process_instruction(&program(), &mut one, &[0]), Err(CounterError::NotEnoughAccountKeys)));
    let (address, _) = derive_counter_address(&id(1), &program()).unwrap();
    let empty = Account { key: address, owner: Identity::zero(), is_signer: false, data: Vec::new() };
    let mut two = vec![signer(id(1), true), empty];
    assert!(matches!(process_instruction(&program(), &mut two, &[0]), Err(CounterError::NotEnoughAccountKeys)));
}

#[test]
fn five_increments_from_one_reach_six() {
    let owner = id(1);
    let mut accounts = initialized_accounts(owner);
    for _ in 0..5 {
        let r = process_instruction(&program(), &mut accounts, &[1]);
        assert!(matches!(r, Ok(Action::Done)));
    }
    assert_eq!(read_counter(&accounts[1].data).unwrap().count, 6);
    assert_eq!(read_counter(&accounts[1].data).unwrap().owner, owner);
}

#[test]
fn increment_by_other_signer_is_rejected() {
    let mut accounts = vec![signer(id(2), true), counter_account(id(1), 3)];
    let r = process_instruction(&program(), &mut accounts, &[1]);
    assert!(matches!(r, Err(CounterError::UnauthorizedAccount)));
    assert_eq!(accounts[1].data, record(id(1), 3));
}

#[test]
fn increment_by_non_signer_is_rejected() {
    let mut accounts = vec![signer(id(1), false), counter_account(id(1), 3)];
    let r = process_instruction(&program(), &mut accounts, &[1]);
    assert!(matches!(r, Err(CounterError::UnauthorizedAccount)));
    assert_eq!(accounts[1].data, record(id(1), 3));
}

#[test]
fn increment_at_255_overflows() {
    let mut accounts = vec![signer(id(1), true), counter_account(id(1), 255)];
    let r = process_instruction(&program(), &mut accounts, &[1]);
    assert!(matches!(r, Err(CounterError::CounterOverflow)));
    assert_eq!(accounts[1].data, record(id(1), 255));
    let mut below = vec![signer(id(1), true), counter_account(id(1), 254)];
    assert!(process_instruction(&program(), &mut below, &[1]).is_ok());
    assert_eq!(below[1].data, record(id(1), 255));
}

#[test]
fn increment_checks_program_ownership() {
    let mut foreign = counter_account(id(1), 3);
    foreign.owner = id(8);
    let r = increment_counter(&program(), &signer(id(1), true), &mut foreign);
    assert_eq!(r, Err(CounterError::Unauthorized));
    assert_eq!(foreign.data, record(id(1), 3));
}

#[test]
fn increment_on_short_buffer_is_malformed() {
    let mut short = counter_account(id(1), 3);
    short.data.truncate(32);
    let r = increment_counter(&program(), &signer(id(1), true), &mut short);
    assert_eq!(r, Err(CounterError::MalformedAccountData));
}

#[test]
fn increment_keeps_trailing_bytes() {
    let mut acct = counter_account(id(1), 3);
    acct.data.push(77);
    increment_counter(&program(), &signer(id(1), true), &mut acct).unwrap();
    let mut expected = record(id(1), 4);
    expected.push(77);
    assert_eq!(acct.data, expected);
}

#[test]
fn increment_needs_two_accounts() {
    let mut one = vec![signer(id(1), true)];
    assert!(matches!(process_instruction(&program(), &mut one, &[1]), Err(CounterError::NotEnoughAccountKeys)));
}
