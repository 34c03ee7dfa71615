use devrupt::errors::IssueError;
use devrupt::ledger::{HoldingRecord, Ledger, MetadataRecord, MintRecord};
use devrupt::state::{apply_reward, ContributorRecord};

fn contributor(owner: [u8; 32], contributions: u64, rewards: u64) -> ContributorRecord {
    ContributorRecord {
        owner,
        total_contributions: contributions,
        total_rewards: rewards,
        bump: 255,
    }
}

fn ledger_with(records: Vec<ContributorRecord>) -> Ledger {
    Ledger {
        contributors: records,
        mints: Vec::new(),
        holdings: Vec::new(),
        metadata: Vec::new(),
    }
}

const PAYER: [u8; 32] = [7u8; 32];
const MINT: [u8; 32] = [11u8; 32];
const HOLDING: [u8; 32] = [13u8; 32];
const METADATA: [u8; 32] = [17u8; 32];

#[test]
fn example_issuance_succeeds() {
    let mut ledger = ledger_with(vec![contributor(PAYER, 3, 0)]);
    let r = devrupt::ledger::issue(
        &mut ledger,
        &PAYER,
        &MINT,
        &HOLDING,
        &METADATA,
        "Qm123abc",
        true,
    );
    assert_eq!(r, Ok(()));
    assert_eq!(ledger.contributors[0].total_rewards, 1);
    assert_eq!(ledger.contributors[0].total_contributions, 3);
    assert_eq!(ledger.mints.len(), 1);
    let mint = &ledger.mints[0];
    assert_eq!(mint.address, MINT);
    assert_eq!(mint.decimals, 0);
    assert_eq!(mint.mint_authority, PAYER);
    assert_eq!(mint.freeze_authority, PAYER);
    assert!(mint.non_transferable);
    assert_eq!(mint.supply, 1);
    assert_eq!(ledger.holdings.len(), 1);
    let holding = &ledger.holdings[0];
    assert_eq!(holding.address, HOLDING);
    assert_eq!(holding.mint, MINT);
    assert_eq!(holding.owner, PAYER);
    assert_eq!(holding.balance, 1);
    assert_eq!(ledger.metadata.len(), 1);
    let record = &ledger.metadata[0];
    assert_eq!(record.address, METADATA);
    assert_eq!(record.mint, MINT);
    assert_eq!(record.name, "Soulbound Cert Qm123abc");
    assert_eq!(record.symbol, "SBT");
    assert_eq!(record.uri, "https://gateway.pinata.cloud/ipfs/Qm123abc");
    assert_eq!(record.update_authority, PAYER);
    assert!(!record.is_mutable);
}

#[test]
fn threshold_gate_rejects_zero_contributions() {
    let mut ledger = ledger_with(vec![contributor(PAYER, 0, 0)]);
    let r = devrupt::ledger::issue(
        &mut ledger,
        &PAYER,
        &MINT,
        &HOLDING,
        &METADATA,
        "Qm123abc",
        true,
    );
    assert_eq!(r, Err(IssueError::InsufficientContributions));
    assert_eq!(ledger.contributors[0].total_rewards, 0);
    assert!(ledger.mints.is_empty());
    assert!(ledger.holdings.is_empty());
    assert!(ledger.metadata.is_empty());
}

#[test]
fn missing_record_rejected() {
    let mut ledger = ledger_with(vec![contributor([9u8; 32], 5, 0)]);
    let r = devrupt::ledger::issue(
        &mut ledger,
        &PAYER,
        &MINT,
        &HOLDING,
        &METADATA,
        "Qm123abc",
        true,
    );
    assert_eq!(r, Err(IssueError::ContributorStateMissing));
    assert!(ledger.mints.is_empty());
}

#[test]
fn second_issuance_collides_and_changes_nothing() {
    let mut ledger = ledger_with(vec![contributor(PAYER, 3, 0)]);
    let first = devrupt::ledger::issue(
        &mut ledger,
        &PAYER,
        &MINT,
        &HOLDING,
        &METADATA,
        "Qm123abc",
        true,
    );
    assert_eq!(first, Ok(()));
    let second = devrupt::ledger::issue(
        &mut ledger,
        &PAYER,
        &MINT,
        &HOLDING,
        &METADATA,
        "Qm123abc",
        true,
    );
    assert_eq!(second, Err(IssueError::AccountAlreadyExists));
    assert_eq!(ledger.contributors[0].total_rewards, 1);
    assert_eq!(ledger.mints.len(), 1);
    assert_eq!(ledger.holdings.len(), 1);
    assert_eq!(ledger.metadata.len(), 1);
    assert_eq!(ledger.holdings[0].balance, 1);
}

#[test]
fn attestation_rejection_rolls_back_everything() {
    let mut ledger = ledger_with(vec![contributor(PAYER, 3, 0)]);
    let r = devrupt::ledger::issue(
        &mut ledger,
        &PAYER,
        &MINT,
        &HOLDING,
        &METADATA,
        "Qm123abc",
        false,
    );
    assert_eq!(r, Err(IssueError::AttestationRejected));
    assert_eq!(ledger.contributors[0].total_rewards, 0);
    assert!(ledger.mints.is_empty());
    assert!(ledger.holdings.is_empty());
    assert!(ledger.metadata.is_empty());
}

#[test]
fn transfer_out_of_soulbound_holding_fails() {
    let mut ledger = ledger_with(vec![contributor(PAYER, 1, 0)]);
    let r = devrupt::ledger::issue(
        &mut ledger,
        &PAYER,
        &MINT,
        &HOLDING,
        &METADATA,
        "QmX",
        true,
    );
    assert_eq!(r, Ok(()));
    let mint = ledger.mints[0];
    let mut from = ledger.holdings[0];
    let mut to = HoldingRecord {
        address: [23u8; 32],
        mint: MINT,
        owner: [9u8; 32],
        balance: 0,
    };
    assert_eq!(from.balance, 1);
    let attempt = devrupt::ledger::transfer_out(&mint, &mut from, &mut to, 1);
    assert_eq!(attempt, Err(IssueError::NonTransferable));
    assert_eq!(from.balance, 1);
    assert_eq!(to.balance, 0);
}

#[test]
fn transfer_on_ordinary_mint_moves_units() {
    let mint = MintRecord {
        address: MINT,
        decimals: 0,
        mint_authority: PAYER,
        freeze_authority: PAYER,
        non_transferable: false,
        supply: 5,
    };
    let mut from = HoldingRecord {
        address: HOLDING,
        mint: MINT,
        owner: PAYER,
        balance: 5,
    };
    let mut to = HoldingRecord {
        address: [23u8; 32],
        mint: MINT,
        owner: [9u8; 32],
        balance: 1,
    };
    assert_eq!(devrupt::ledger::transfer_out(&mint, &mut from, &mut to, 2), Ok(()));
    assert_eq!(from.balance, 3);
    assert_eq!(to.balance, 3);
    assert_eq!(
        devrupt::ledger::transfer_out(&mint, &mut from, &mut to, 4),
        Err(IssueError::InsufficientFunds)
    );
    let mut rich = HoldingRecord {
        address: [29u8; 32],
        mint: MINT,
        owner: [9u8; 32],
        balance: u64::MAX,
    };
    assert_eq!(
        devrupt::ledger::transfer_out(&mint, &mut from, &mut rich, 1),
        Err(IssueError::BalanceOverflow)
    );
    assert_eq!(from.balance, 3);
    assert_eq!(rich.balance, u64::MAX);
}

#[test]
fn immutable_record_rejects_update_even_by_its_authority() {
    let mut record = MetadataRecord {
        address: METADATA,
        mint: MINT,
        name: String::from("Soulbound Cert QmX"),
        symbol: String::from("SBT"),
        uri: String::from("https://gateway.pinata.cloud/ipfs/QmX"),
        update_authority: PAYER,
        is_mutable: false,
    };
    let attempt = devrupt::ledger::update_metadata(
        &mut record,
        &PAYER,
        String::from("other"),
        String::from("OTH"),
        String::from("https://example.invalid/x"),
    );
    assert_eq!(attempt, Err(IssueError::ImmutableMetadata));
    assert_eq!(record.name, "Soulbound Cert QmX");
    assert_eq!(record.symbol, "SBT");
    assert_eq!(record.uri, "https://gateway.pinata.cloud/ipfs/QmX");
}

#[test]
fn mutable_record_guards_its_authority() {
    let mut record = MetadataRecord {
        address: METADATA,
        mint: MINT,
        name: String::from("a"),
        symbol: String::from("b"),
        uri: String::from("c"),
        update_authority: PAYER,
        is_mutable: true,
    };
    let wrong = [9u8; 32];
    assert_eq!(
        devrupt::ledger::update_metadata(
            &mut record,
            &wrong,
            String::from("x"),
            String::from("y"),
            String::from("z"),
        ),
        Err(IssueError::UnauthorizedUpdate)
    );
    assert_eq!(record.name, "a");
    assert_eq!(
        devrupt::ledger::update_metadata(
            &mut record,
            &PAYER,
            String::from("x"),
            String::from("y"),
            String::from("z"),
        ),
        Ok(())
    );
    assert_eq!(record.name, "x");
    assert_eq!(record.symbol, "y");
    assert_eq!(record.uri, "z");
}

#[test]
fn reward_guard_bumps_counter_once() {
    let mut record = contributor(PAYER, 3, 0);
    assert_eq!(apply_reward(&mut record), Ok(()));
    assert_eq!(record.total_rewards, 1);
    assert_eq!(record.total_contributions, 3);

    let mut empty = contributor(PAYER, 0, 0);
    assert_eq!(apply_reward(&mut empty), Err(IssueError::InsufficientContributions));
    assert_eq!(empty.total_rewards, 0);
}

#[test]
fn rewards_stay_within_contributions_across_a_run() {
    let mut ledger = ledger_with(vec![contributor(PAYER, 2, 0)]);
    let mut successes = 0u64;
    for attempt in 0..4 {
        let r = devrupt::ledger::issue(
            &mut ledger,
            &PAYER,
            &MINT,
            &HOLDING,
            &METADATA,
            "QmSeq",
            attempt != 1,
        );
        if r == Ok(()) {
            successes += 1;
        }
        let c = &ledger.contributors[0];
        assert!(c.total_rewards <= c.total_contributions);
        assert_eq!(c.total_rewards, successes);
    }
    assert_eq!(successes, 1);
}
