use solana_program::pubkey::Pubkey;
use vote_program::account::{Account, Address};
use vote_program::rent::rent_sysvar;
use vote_program::error::VoteError;
use vote_program::program::{cast_vote, has_room_for, record_vote};
use vote_program::{process_instruction, VoteCandidate, VoteCount, VoteDedupe};

fn program_id() -> Address {
    Address::new([7u8; 32])
}

fn voter_key(tag: u8) -> Address {
    let mut bytes = [0u8; 32];
    bytes[0] = tag;
    bytes[31] = 0xA5;
    Address::new(bytes)
}

fn dedupe_key(voter: &Address, program: &Address) -> Address {
    let derived = Pubkey::create_with_seed(
        &Pubkey::new_from_array(voter.bytes),
        "vote_dedupe",
        &Pubkey::new_from_array(program.bytes),
    )
    .unwrap();
    Address::new(derived.to_bytes())
}

fn rent_data() -> Vec<u8> {
    let mut data = Vec::new();
    data.extend_from_slice(&6960u64.to_le_bytes());
    data.extend_from_slice(&[0, 0, 0, 0, 0, 0, 240, 63]);
    data.push(50);
    data
}

fn voter_account(tag: u8) -> Account {
    Account {
        key: voter_key(tag),
        owner: Address::new([0u8; 32]),
        is_signer: true,
        lamports: 10,
        data: Vec::new(),
    }
}

fn tally_account(candidate1: u32, candidate2: u32) -> Account {
    Account {
        key: Address::new([9u8; 32]),
        owner: program_id(),
        is_signer: false,
        lamports: 5,
        data: VoteCount { candidate1, candidate2 }.to_vec(),
    }
}

fn dedupe_account(tag: u8) -> Account {
    Account {
        key: dedupe_key(&voter_key(tag), &program_id()),
        owner: program_id(),
        is_signer: false,
        lamports: 1000000,
        data: vec![0u8; 1],
    }
}

fn sysvar_account() -> Account {
    Account {
        key: rent_sysvar(),
        owner: Address::new([0u8; 32]),
        is_signer: false,
        lamports: 1,
        data: rent_data(),
    }
}

fn accounts_of(tag: u8, tally: Account) -> Vec<Account> {
    vec![voter_account(tag), tally, dedupe_account(tag), sysvar_account()]
}

fn tally_of(accounts: &[Account]) -> VoteCount {
    VoteCount::try_from_slice(&accounts[1].data).unwrap()
}

#[test]
fn test_transaction() {
    let program_id = program_id();
    let mut accounts = vec![
        voter_account(1),
        Account {
            key: Address::new([9u8; 32]),
            owner: program_id,
            is_signer: false,
            lamports: 5,
            data: vec![0u8; 2 * std::mem::size_of::<u32>()],
        },
        Account {
            key: dedupe_key(&voter_key(1), &program_id),
            owner: program_id,
            is_signer: false,
            lamports: 1000000,
            data: vec![0u8; std::mem::size_of::<bool>()],
        },
        sysvar_account(),
    ];

    let vote_count = VoteCount::try_from_slice(&accounts[1].data).unwrap();
    assert_eq!(vote_count.candidate1, 0);
    assert_eq!(vote_count.candidate2, 0);

    let candidate = VoteCandidate { candidate: 2 };
    let payload = candidate.to_vec();
    assert!(has_room_for(&program_id, &accounts, &payload));
    process_instruction(&program_id, &mut accounts, &payload).unwrap();

    let vote_count = VoteCount::try_from_slice(&accounts[1].data).unwrap();
    assert_eq!(vote_count.candidate1, 0);
    assert_eq!(vote_count.candidate2, 1);

    // This should fail, due to dedupe:
    let result = process_instruction(&program_id, &mut accounts, &payload);
    assert_eq!(result.is_err(), true);
}

#[test]
fn scenario_two_voters() {
    let program_id = program_id();
    let mut for_a = accounts_of(1, tally_account(0, 0));
    assert_eq!(process_instruction(&program_id, &mut for_a, &[2]), Ok(()));
    assert_eq!(tally_of(&for_a), VoteCount { candidate1: 0, candidate2: 1 });
    assert_eq!(VoteDedupe::try_from_slice(&for_a[2].data), Ok(VoteDedupe { voted: true }));

    let before = for_a.clone();
    assert_eq!(process_instruction(&program_id, &mut for_a, &[1]), Err(VoteError::AlreadyVoted));
    assert_eq!(for_a, before);
    assert_eq!(tally_of(&for_a), VoteCount { candidate1: 0, candidate2: 1 });

    let mut for_b = accounts_of(2, for_a[1].clone());
    assert_eq!(process_instruction(&program_id, &mut for_b, &[1]), Ok(()));
    assert_eq!(tally_of(&for_b), VoteCount { candidate1: 1, candidate2: 1 });
    assert_eq!(VoteDedupe::try_from_slice(&for_b[2].data), Ok(VoteDedupe { voted: true }));
}

#[test]
fn first_vote_raises_only_the_chosen_counter() {
    let program_id = program_id();
    let mut accounts = accounts_of(1, tally_account(41, 1000));
    let before = accounts.clone();
    assert_eq!(process_instruction(&program_id, &mut accounts, &[1]), Ok(()));
    assert_eq!(tally_of(&accounts), VoteCount { candidate1: 42, candidate2: 1000 });
    assert_eq!(accounts[1].data, vec![42, 0, 0, 0, 0xE8, 3, 0, 0]);
    assert_eq!(accounts[2].data, vec![1]);
    assert_eq!(accounts[0], before[0]);
    assert_eq!(accounts[3], before[3]);
    assert_eq!(accounts[1].key, before[1].key);
    assert_eq!(accounts[1].lamports, before[1].lamports);
    assert_eq!(accounts[2].key, before[2].key);
    assert_eq!(accounts[2].lamports, before[2].lamports);
    assert_eq!(accounts.len(), 4);
}

#[test]
fn each_success_adds_one_to_the_total() {
    let program_id = program_id();
    let mut tally = tally_account(0, 0);
    let mut successes: u32 = 0;
    for tag in 1..=6u8 {
        let mut accounts = accounts_of(tag, tally.clone());
        let candidate = if tag % 3 == 0 { 3 } else { 1 + tag % 2 };
        if process_instruction(&program_id, &mut accounts, &[candidate]).is_ok() {
            successes += 1;
        }
        tally = accounts[1].clone();
        let count = VoteCount::try_from_slice(&tally.data).unwrap();
        assert_eq!(count.candidate1 + count.candidate2, successes);
    }
    assert_eq!(successes, 4);
    assert_eq!(VoteCount::try_from_slice(&tally.data), Ok(VoteCount { candidate1: 2, candidate2: 2 }));
}

#[test]
fn invalid_candidate_changes_nothing() {
    let program_id = program_id();
    for candidate in [0u8, 3, 255] {
        let mut accounts = accounts_of(1, tally_account(4, 5));
        let before = accounts.clone();
        assert_eq!(
            process_instruction(&program_id, &mut accounts, &[candidate]),
            Err(VoteError::InvalidCandidate)
        );
        assert_eq!(accounts, before);
    }
}

#[test]
fn spoofed_dedupe_account_is_rejected() {
    let program_id = program_id();
    // the record of another voter, which says "not voted"
    let mut accounts = accounts_of(1, tally_account(0, 0));
    accounts[2] = dedupe_account(2);
    let before = accounts.clone();
    assert_eq!(process_instruction(&program_id, &mut accounts, &[1]), Err(VoteError::AddressMismatch));
    assert_eq!(accounts, before);
    // a record under the voter's own address
    let mut accounts = accounts_of(1, tally_account(0, 0));
    accounts[2].key = voter_key(1);
    assert_eq!(process_instruction(&program_id, &mut accounts, &[1]), Err(VoteError::AddressMismatch));
    // a record derived for another program
    let mut accounts = accounts_of(1, tally_account(0, 0));
    accounts[2].key = dedupe_key(&voter_key(1), &Address::new([8u8; 32]));
    assert_eq!(process_instruction(&program_id, &mut accounts, &[1]), Err(VoteError::AddressMismatch));
}

#[test]
fn program_that_derives_no_address_is_rejected() {
    let mut bytes = [0u8; 32];
    bytes[11..].copy_from_slice(b"ProgramDerivedAddress");
    let program_id = Address::new(bytes);
    let mut accounts = accounts_of(1, tally_account(0, 0));
    accounts[1].owner = program_id;
    accounts[2].owner = program_id;
    assert_eq!(process_instruction(&program_id, &mut accounts, &[1]), Err(VoteError::AddressMismatch));
}

#[test]
fn missing_signature_is_rejected() {
    let program_id = program_id();
    let mut accounts = accounts_of(1, tally_account(0, 0));
    accounts[0].is_signer = false;
    let before = accounts.clone();
    assert_eq!(process_instruction(&program_id, &mut accounts, &[1]), Err(VoteError::Unauthorized));
    assert_eq!(accounts, before);
}

#[test]
fn wrong_owner_is_rejected() {
    let program_id = program_id();
    let mut accounts = accounts_of(1, tally_account(0, 0));
    accounts[1].owner = Address::new([1u8; 32]);
    assert_eq!(process_instruction(&program_id, &mut accounts, &[1]), Err(VoteError::WrongOwner));
    let mut accounts = accounts_of(1, tally_account(0, 0));
    accounts[2].owner = Address::new([1u8; 32]);
    assert_eq!(process_instruction(&program_id, &mut accounts, &[1]), Err(VoteError::WrongOwner));
}

#[test]
fn dedupe_account_below_the_rent_minimum_is_rejected() {
    let program_id = program_id();
    // (128 + 1) bytes at 6960 lamports each
    let mut accounts = accounts_of(1, tally_account(0, 0));
    accounts[2].lamports = 897_839;
    let before = accounts.clone();
    assert_eq!(process_instruction(&program_id, &mut accounts, &[1]), Err(VoteError::NotRentExempt));
    assert_eq!(accounts, before);
    let mut accounts = accounts_of(1, tally_account(0, 0));
    accounts[2].lamports = 897_840;
    assert_eq!(process_instruction(&program_id, &mut accounts, &[1]), Ok(()));
}

#[test]
fn malformed_payload_is_rejected() {
    let program_id = program_id();
    for payload in [&[][..], &[1, 2][..], &[1, 0, 0, 0][..]] {
        let mut accounts = accounts_of(1, tally_account(0, 0));
        let before = accounts.clone();
        assert_eq!(process_instruction(&program_id, &mut accounts, payload), Err(VoteError::DecodeError));
        assert_eq!(accounts, before);
    }
}

#[test]
fn missing_accounts_are_rejected() {
    let program_id = program_id();
    for keep in 0..4usize {
        let mut accounts = accounts_of(1, tally_account(0, 0));
        accounts.truncate(keep);
        assert_eq!(process_instruction(&program_id, &mut accounts, &[1]), Err(VoteError::DecodeError));
        assert_eq!(accounts.len(), keep);
    }
}

#[test]
fn extra_accounts_are_ignored() {
    let program_id = program_id();
    let mut accounts = accounts_of(1, tally_account(0, 0));
    accounts.push(voter_account(9));
    assert_eq!(process_instruction(&program_id, &mut accounts, &[2]), Ok(()));
    assert_eq!(accounts[4], voter_account(9));
    assert_eq!(tally_of(&accounts), VoteCount { candidate1: 0, candidate2: 1 });
}

#[test]
fn malformed_records_are_rejected() {
    let program_id = program_id();
    let mut accounts = accounts_of(1, tally_account(0, 0));
    accounts[1].data = vec![0u8; 7];
    assert_eq!(process_instruction(&program_id, &mut accounts, &[1]), Err(VoteError::DecodeError));
    let mut accounts = accounts_of(1, tally_account(0, 0));
    accounts[1].data = vec![0u8; 16];
    assert_eq!(process_instruction(&program_id, &mut accounts, &[1]), Err(VoteError::DecodeError));
    let mut accounts = accounts_of(1, tally_account(0, 0));
    accounts[2].data = vec![0u8; 2];
    accounts[2].lamports = 10_000_000;
    assert_eq!(process_instruction(&program_id, &mut accounts, &[1]), Err(VoteError::DecodeError));
    let mut accounts = accounts_of(1, tally_account(0, 0));
    accounts[2].data = Vec::new();
    assert_eq!(process_instruction(&program_id, &mut accounts, &[1]), Err(VoteError::DecodeError));
}

#[test]
fn the_first_failing_check_decides() {
    let program_id = program_id();
    // payload before everything else
    let mut accounts = accounts_of(1, tally_account(0, 0));
    accounts[0].is_signer = false;
    assert_eq!(process_instruction(&program_id, &mut accounts, &[]), Err(VoteError::DecodeError));
    // signer before owner
    let mut accounts = accounts_of(1, tally_account(0, 0));
    accounts[0].is_signer = false;
    accounts[1].owner = Address::new([1u8; 32]);
    assert_eq!(process_instruction(&program_id, &mut accounts, &[1]), Err(VoteError::Unauthorized));
    // owner before address
    let mut accounts = accounts_of(1, tally_account(0, 0));
    accounts[2] = dedupe_account(2);
    accounts[2].owner = Address::new([1u8; 32]);
    assert_eq!(process_instruction(&program_id, &mut accounts, &[1]), Err(VoteError::WrongOwner));
    // address before rent
    let mut accounts = accounts_of(1, tally_account(0, 0));
    accounts[2] = dedupe_account(2);
    accounts[2].lamports = 0;
    assert_eq!(process_instruction(&program_id, &mut accounts, &[1]), Err(VoteError::AddressMismatch));
    // rent before the record
    let mut accounts = accounts_of(1, tally_account(0, 0));
    accounts[2].lamports = 0;
    accounts[2].data = vec![1];
    assert_eq!(process_instruction(&program_id, &mut accounts, &[1]), Err(VoteError::NotRentExempt));
    // "already voted" before the tally and the candidate
    let mut accounts = accounts_of(1, tally_account(0, 0));
    accounts[2].data = vec![1];
    accounts[1].data = vec![0u8; 3];
    assert_eq!(process_instruction(&program_id, &mut accounts, &[9]), Err(VoteError::AlreadyVoted));
    // the tally before the candidate
    let mut accounts = accounts_of(1, tally_account(0, 0));
    accounts[1].data = vec![0u8; 3];
    assert_eq!(process_instruction(&program_id, &mut accounts, &[9]), Err(VoteError::DecodeError));
}

#[test]
fn any_nonzero_dedupe_byte_means_voted() {
    let program_id = program_id();
    let mut accounts = accounts_of(1, tally_account(0, 0));
    accounts[2].data = vec![2];
    let before = accounts.clone();
    assert_eq!(process_instruction(&program_id, &mut accounts, &[1]), Err(VoteError::AlreadyVoted));
    assert_eq!(accounts, before);
}

#[test]
fn cast_vote_follows_the_given_answers() {
    let program_id = program_id();
    let expected = Address::new([0x33; 32]);
    let mut accounts = accounts_of(1, tally_account(7, 8));
    accounts[2].key = expected;
    accounts[3].data = Vec::new();
    let before = accounts.clone();
    assert_eq!(
        cast_vote(&program_id, &mut accounts, &[2], &Some(expected), false),
        Err(VoteError::NotRentExempt)
    );
    assert_eq!(
        cast_vote(&program_id, &mut accounts, &[2], &None, true),
        Err(VoteError::AddressMismatch)
    );
    assert_eq!(
        cast_vote(&program_id, &mut accounts, &[2], &Some(Address::new([0x34; 32])), true),
        Err(VoteError::AddressMismatch)
    );
    assert_eq!(accounts, before);
    assert_eq!(cast_vote(&program_id, &mut accounts, &[2], &Some(expected), true), Ok(()));
    assert_eq!(tally_of(&accounts), VoteCount { candidate1: 7, candidate2: 9 });
    assert_eq!(accounts[2].data, vec![1]);
    assert_eq!(
        cast_vote(&program_id, &mut accounts, &[1], &Some(expected), true),
        Err(VoteError::AlreadyVoted)
    );
    assert_eq!(tally_of(&accounts), VoteCount { candidate1: 7, candidate2: 9 });
}

#[test]
fn record_vote_updates_both_accounts_or_neither() {
    let mut accounts = accounts_of(1, tally_account(1, 1));
    assert_eq!(record_vote(&mut accounts, 1), Ok(()));
    assert_eq!(accounts[1].data, vec![2, 0, 0, 0, 1, 0, 0, 0]);
    assert_eq!(accounts[2].data, vec![1]);
    let before = accounts.clone();
    assert_eq!(record_vote(&mut accounts, 2), Err(VoteError::AlreadyVoted));
    assert_eq!(accounts, before);
    let mut accounts = accounts_of(1, tally_account(1, 1));
    let before = accounts.clone();
    assert_eq!(record_vote(&mut accounts, 3), Err(VoteError::InvalidCandidate));
    assert_eq!(accounts, before);
}

#[test]
fn room_is_tested_on_the_named_counter() {
    let program_id = program_id();
    let full = accounts_of(1, tally_account(u32::MAX, 3));
    assert!(!has_room_for(&program_id, &full, &[1]));
    assert!(has_room_for(&program_id, &full, &[2]));
    assert!(has_room_for(&program_id, &full, &[3]));
    assert!(has_room_for(&program_id, &full, &[]));
    assert!(has_room_for(&program_id, &full[..3].to_vec(), &[1]));
    let other = accounts_of(1, tally_account(3, u32::MAX));
    assert!(has_room_for(&program_id, &other, &[1]));
    assert!(!has_room_for(&program_id, &other, &[2]));
    let mut accounts = other.clone();
    assert_eq!(process_instruction(&program_id, &mut accounts, &[1]), Ok(()));
    assert_eq!(tally_of(&accounts), VoteCount { candidate1: 4, candidate2: u32::MAX });
}

#[test]
fn room_matters_only_where_the_vote_may_count() {
    let program_id = program_id();
    let full = accounts_of(1, tally_account(u32::MAX, u32::MAX));
    assert!(!has_room_for(&program_id, &full, &[1]));
    // a vote that is turned down before the count needs no room
    let mut unsigned = full.clone();
    unsigned[0].is_signer = false;
    assert!(has_room_for(&program_id, &unsigned, &[1]));
    assert_eq!(process_instruction(&program_id, &mut unsigned, &[1]), Err(VoteError::Unauthorized));
    let mut foreign = full.clone();
    foreign[2].owner = Address::new([1u8; 32]);
    assert!(has_room_for(&program_id, &foreign, &[1]));
    assert_eq!(process_instruction(&program_id, &mut foreign, &[1]), Err(VoteError::WrongOwner));
    let mut voted = full.clone();
    voted[2].data = vec![1];
    assert!(has_room_for(&program_id, &voted, &[2]));
    assert_eq!(process_instruction(&program_id, &mut voted, &[2]), Err(VoteError::AlreadyVoted));
    let mut unreadable = full.clone();
    unreadable[2].data = Vec::new();
    assert!(has_room_for(&program_id, &unreadable, &[2]));
}
