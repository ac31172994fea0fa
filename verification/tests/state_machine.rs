//! End-to-end scenarios of the state machine: the daily quota, the
//! complete-then-mint lifecycle, the marketplace fee split and the rating
//! aggregates, together with one input for every error kind.

use contract_generator::types::{
    Achievement, ContractError, EsdtPayment, Event, GenerationStatus, Holder, Transfer,
};
use contract_generator::ContractGenerator;

const OWNER: u64 = 1;
const ALICE: u64 = 2;
const BOB: u64 = 3;
const CAROL: u64 = 4;
const TOKEN_ID: u64 = 77;
const MINT_FEE: u128 = 50000000000000000;

/// A contract with one token minted by `ALICE` (nonce 1) from generation 0.
fn contract_with_minted_token() -> ContractGenerator {
    let mut c = ContractGenerator::init(OWNER);
    c.set_template_nft_token_id(OWNER, TOKEN_ID).unwrap();
    let id = c
        .generate_contract(ALICE, 86400, b"a counter".to_vec(), b"defi".to_vec())
        .unwrap();
    assert_eq!(id, 0);
    c.complete_generation(OWNER, 0, b"abc".to_vec(), true).unwrap();
    let nonce = c.mint_template_nft(ALICE, 0, b"Name".to_vec(), MINT_FEE).unwrap();
    assert_eq!(nonce, 1);
    c
}

#[test]
fn daily_quota_three_then_reset() {
    let mut c = ContractGenerator::init(OWNER);
    let day_d: u64 = 10 * 86400;
    for expected_id in 0..3u64 {
        let id = c
            .generate_contract(ALICE, day_d, b"desc".to_vec(), b"cat".to_vec())
            .unwrap();
        assert_eq!(id, expected_id);
    }
    assert_eq!(c.get_user_generations_today(ALICE, day_d), 3);
    let fourth = c.generate_contract(ALICE, day_d + 100, b"desc".to_vec(), b"cat".to_vec());
    assert_eq!(fourth, Err(ContractError::QuotaExceeded));
    assert_eq!(c.get_user_generation_count(ALICE), 3);

    let day_after: u64 = day_d + 86400;
    assert_eq!(c.get_user_generations_today(ALICE, day_after), 0);
    let id = c
        .generate_contract(ALICE, day_after, b"desc".to_vec(), b"cat".to_vec())
        .unwrap();
    assert_eq!(id, 3);
    assert_eq!(c.get_user_generations_today(ALICE, day_after), 1);
    assert_eq!(c.get_user_generation_count(ALICE), 4);
}

#[test]
fn quota_is_per_account() {
    let mut c = ContractGenerator::init(OWNER);
    for _ in 0..3 {
        c.generate_contract(ALICE, 500, b"d".to_vec(), b"c".to_vec()).unwrap();
    }
    assert_eq!(
        c.generate_contract(ALICE, 600, b"d".to_vec(), b"c".to_vec()),
        Err(ContractError::QuotaExceeded)
    );
    // A different account still has its full quota on the same day.
    assert_eq!(c.generate_contract(BOB, 600, b"d".to_vec(), b"c".to_vec()), Ok(3));
}

#[test]
fn request_records_generation_and_payload() {
    let mut c = ContractGenerator::init(OWNER);
    c.generate_contract(ALICE, 1234, b"a counter".to_vec(), b"defi".to_vec())
        .unwrap();
    let g = c.get_generation(0).unwrap();
    assert_eq!(g.id, 0);
    assert_eq!(g.creator, ALICE);
    assert_eq!(g.description, b"a counter".to_vec());
    assert_eq!(g.category, b"defi".to_vec());
    assert_eq!(g.timestamp, 1234);
    assert_eq!(g.status, GenerationStatus::Pending);
    assert!(g.code_hash.is_empty());
    assert_eq!(g.nft_nonce, 0);
    match &c.events[0] {
        Event::GenerationRequested { generation_id, creator, payload } => {
            assert_eq!(*generation_id, 0);
            assert_eq!(*creator, ALICE);
            assert_eq!(payload, &b"a counter|||defi".to_vec());
        }
        _ => panic!("wrong event"),
    }
}

#[test]
fn complete_then_mint_then_mint_again() {
    let mut c = ContractGenerator::init(OWNER);
    c.set_template_nft_token_id(OWNER, TOKEN_ID).unwrap();
    c.generate_contract(ALICE, 86400, b"d".to_vec(), b"c".to_vec()).unwrap();

    c.complete_generation(OWNER, 0, b"abc".to_vec(), true).unwrap();
    {
        let g = c.get_generation(0).unwrap();
        assert_eq!(g.status, GenerationStatus::Completed);
        assert_eq!(g.code_hash, b"abc".to_vec());
    }

    let nonce = c.mint_template_nft(ALICE, 0, b"Name".to_vec(), MINT_FEE).unwrap();
    assert_eq!(nonce, 1);
    assert_eq!(c.get_generation(0).unwrap().nft_nonce, 1);
    assert_eq!(c.get_contract_balance(), MINT_FEE);

    let again = c.mint_template_nft(ALICE, 0, b"Name".to_vec(), MINT_FEE);
    assert_eq!(again, Err(ContractError::AlreadyDone));
}

#[test]
fn mint_records_token_and_transfer() {
    let c = contract_with_minted_token();
    let t = &c.tokens[0];
    assert_eq!(t.nonce, 1);
    assert_eq!(t.name, b"Name".to_vec());
    assert_eq!(t.royalties_bps, 250);
    assert_eq!(t.holder, Holder::Account(ALICE));
    assert_eq!(t.uses, 0);
    assert_eq!(t.attributes.generation_id, 0);
    assert_eq!(t.attributes.category, b"defi".to_vec());
    assert_eq!(t.attributes.code_hash, b"abc".to_vec());
    assert_eq!(t.attributes.creation_date, 86400);
    assert_eq!(t.attributes.uses, 0);
    assert_eq!(t.attributes.total_rating, 0);
    assert_eq!(t.attributes.rating_count, 0);
    assert_eq!(
        c.transfers.last(),
        Some(&Transfer::Token { to: ALICE, token_id: TOKEN_ID, nonce: 1, amount: 1 })
    );
    // The first generation achievement fires: the lifetime count is one.
    assert!(c.events.iter().any(|e| matches!(
        e,
        Event::AchievementEarned { account: ALICE, achievement: Achievement::FirstGeneration }
    )));
}

#[test]
fn mint_overpayment_is_kept() {
    let mut c = ContractGenerator::init(OWNER);
    c.set_template_nft_token_id(OWNER, TOKEN_ID).unwrap();
    c.generate_contract(ALICE, 0, b"d".to_vec(), b"c".to_vec()).unwrap();
    c.complete_generation(OWNER, 0, b"h".to_vec(), true).unwrap();
    c.mint_template_nft(ALICE, 0, b"N".to_vec(), MINT_FEE + 7).unwrap();
    assert_eq!(c.get_contract_balance(), MINT_FEE + 7);
}

#[test]
fn mint_error_cases() {
    let mut c = ContractGenerator::init(OWNER);
    c.generate_contract(ALICE, 0, b"d".to_vec(), b"c".to_vec()).unwrap();
    // Below the fee.
    assert_eq!(
        c.mint_template_nft(ALICE, 0, b"N".to_vec(), MINT_FEE - 1),
        Err(ContractError::InsufficientFunds)
    );
    // Unknown generation and unresolved generation are the wrong state.
    assert_eq!(
        c.mint_template_nft(ALICE, 9, b"N".to_vec(), MINT_FEE),
        Err(ContractError::InvalidState)
    );
    assert_eq!(
        c.mint_template_nft(ALICE, 0, b"N".to_vec(), MINT_FEE),
        Err(ContractError::InvalidState)
    );
    // A failed generation cannot be minted either.
    c.complete_generation(OWNER, 0, b"h".to_vec(), false).unwrap();
    assert_eq!(c.get_generation(0).unwrap().status, GenerationStatus::Failed);
    assert_eq!(
        c.mint_template_nft(ALICE, 0, b"N".to_vec(), MINT_FEE),
        Err(ContractError::InvalidState)
    );
    // Only the creator may mint.
    c.generate_contract(ALICE, 0, b"d".to_vec(), b"c".to_vec()).unwrap();
    c.complete_generation(OWNER, 1, b"h".to_vec(), true).unwrap();
    assert_eq!(
        c.mint_template_nft(BOB, 1, b"N".to_vec(), MINT_FEE),
        Err(ContractError::Unauthorized)
    );
}

#[test]
fn complete_generation_guards() {
    let mut c = ContractGenerator::init(OWNER);
    c.generate_contract(ALICE, 0, b"d".to_vec(), b"c".to_vec()).unwrap();
    assert_eq!(
        c.complete_generation(ALICE, 0, b"h".to_vec(), true),
        Err(ContractError::Unauthorized)
    );
    assert_eq!(
        c.complete_generation(OWNER, 5, b"h".to_vec(), true),
        Err(ContractError::NotFound)
    );
    // A second report overwrites the first.
    c.complete_generation(OWNER, 0, b"h1".to_vec(), true).unwrap();
    c.complete_generation(OWNER, 0, b"h2".to_vec(), false).unwrap();
    let g = c.get_generation(0).unwrap();
    assert_eq!(g.status, GenerationStatus::Failed);
    assert_eq!(g.code_hash, b"h2".to_vec());
}

#[test]
fn purchase_fee_split() {
    let mut c = contract_with_minted_token();
    let escrow = EsdtPayment { token_id: TOKEN_ID, nonce: 1, amount: 1 };
    let listing_id = c.list_template(ALICE, 1, escrow, 1000).unwrap();
    assert_eq!(listing_id, 0);
    assert_eq!(c.tokens[0].holder, Holder::Contract);

    let balance_before = c.get_contract_balance();
    c.purchase_template(BOB, 0, 1000).unwrap();

    // With a platform fee of 250 basis points, 1000 splits into 25 for the
    // platform and 975 for the seller.
    let n = c.transfers.len();
    assert_eq!(c.transfers[n - 2], Transfer::Native { to: ALICE, amount: 975 });
    assert_eq!(
        c.transfers[n - 1],
        Transfer::Token { to: BOB, token_id: TOKEN_ID, nonce: 1, amount: 1 }
    );
    assert!(!c.get_listing(0).unwrap().active);
    assert_eq!(c.tokens[0].holder, Holder::Account(BOB));
    assert_eq!(c.get_template_uses(1), 1);
    assert_eq!(c.get_contract_balance(), balance_before + 25);
    assert!(c.events.iter().any(|e| matches!(
        e,
        Event::AchievementEarned { account: ALICE, achievement: Achievement::FirstSale }
    )));
    assert!(c.events.iter().any(|e| matches!(
        e,
        Event::TemplatePurchased { listing_id: 0, buyer: BOB, seller: ALICE, price: 1000 }
    )));
}

#[test]
fn purchase_guards() {
    let mut c = contract_with_minted_token();
    let escrow = EsdtPayment { token_id: TOKEN_ID, nonce: 1, amount: 1 };
    c.list_template(ALICE, 1, escrow, 1000).unwrap();

    assert_eq!(c.purchase_template(BOB, 9, 1000), Err(ContractError::NotFound));
    assert_eq!(c.purchase_template(BOB, 0, 999), Err(ContractError::InsufficientFunds));
    assert_eq!(c.purchase_template(ALICE, 0, 1000), Err(ContractError::NoSelfTrade));
    c.purchase_template(BOB, 0, 1000).unwrap();
    // The listing is spent: a second purchase finds it inactive.
    assert_eq!(c.purchase_template(CAROL, 0, 1000), Err(ContractError::InvalidState));
}

#[test]
fn list_validation() {
    let mut c = contract_with_minted_token();
    let wrong_token = EsdtPayment { token_id: TOKEN_ID + 1, nonce: 1, amount: 1 };
    assert_eq!(
        c.list_template(ALICE, 1, wrong_token, 1000),
        Err(ContractError::ValidationError)
    );
    let wrong_nonce = EsdtPayment { token_id: TOKEN_ID, nonce: 2, amount: 1 };
    assert_eq!(
        c.list_template(ALICE, 1, wrong_nonce, 1000),
        Err(ContractError::ValidationError)
    );
    let wrong_amount = EsdtPayment { token_id: TOKEN_ID, nonce: 1, amount: 2 };
    assert_eq!(
        c.list_template(ALICE, 1, wrong_amount, 1000),
        Err(ContractError::ValidationError)
    );
    let escrow = EsdtPayment { token_id: TOKEN_ID, nonce: 1, amount: 1 };
    assert_eq!(c.list_template(ALICE, 1, escrow, 0), Err(ContractError::ValidationError));
    assert_eq!(c.list_template(ALICE, 1, escrow, 1000), Ok(0));
}

#[test]
fn cancel_returns_token_to_seller() {
    let mut c = contract_with_minted_token();
    let escrow = EsdtPayment { token_id: TOKEN_ID, nonce: 1, amount: 1 };
    c.list_template(ALICE, 1, escrow, 1000).unwrap();

    assert_eq!(c.cancel_listing(ALICE, 0), Err(ContractError::Unauthorized));
    assert_eq!(c.cancel_listing(OWNER, 9), Err(ContractError::NotFound));
    c.cancel_listing(OWNER, 0).unwrap();
    assert!(!c.get_listing(0).unwrap().active);
    assert_eq!(c.tokens[0].holder, Holder::Account(ALICE));
    assert_eq!(
        c.transfers.last(),
        Some(&Transfer::Token { to: ALICE, token_id: TOKEN_ID, nonce: 1, amount: 1 })
    );
    assert_eq!(c.cancel_listing(OWNER, 0), Err(ContractError::InvalidState));
}

#[test]
fn rating_aggregates() {
    let mut c = ContractGenerator::init(OWNER);
    c.rate_template(BOB, 1, 4).unwrap();
    let agg = c.get_template_rating(1);
    assert_eq!((agg.total_rating, agg.rating_count), (4, 1));

    assert_eq!(c.rate_template(BOB, 1, 5), Err(ContractError::AlreadyDone));

    c.rate_template(CAROL, 1, 5).unwrap();
    let agg = c.get_template_rating(1);
    assert_eq!((agg.total_rating, agg.rating_count), (9, 2));

    // The same account may still rate a different nonce.
    c.rate_template(BOB, 2, 1).unwrap();
    let agg = c.get_template_rating(2);
    assert_eq!((agg.total_rating, agg.rating_count), (1, 1));
    assert!(c.events.iter().any(|e| matches!(
        e,
        Event::TemplateRated { nft_nonce: 1, rater: CAROL, rating: 5 }
    )));
}

#[test]
fn unrated_nonce_reads_as_default_aggregate() {
    let c = ContractGenerator::init(OWNER);
    let agg = c.get_template_rating(42);
    let empty = contract_generator::types::TemplateRatingInfo::default();
    assert_eq!(agg, empty);
    assert_eq!((empty.total_rating, empty.rating_count), (0, 0));
}

#[test]
fn rating_range_is_checked() {
    let mut c = ContractGenerator::init(OWNER);
    assert_eq!(c.rate_template(BOB, 1, 0), Err(ContractError::ValidationError));
    assert_eq!(c.rate_template(BOB, 1, 6), Err(ContractError::ValidationError));
    assert_eq!(c.rate_template(BOB, 1, 1), Ok(()));
    assert_eq!(c.rate_template(CAROL, 1, 5), Ok(()));
}

#[test]
fn admin_is_owner_only() {
    let mut c = ContractGenerator::init(OWNER);
    assert_eq!(c.set_daily_limit(ALICE, 10), Err(ContractError::Unauthorized));
    assert_eq!(c.set_minting_fee(ALICE, 1), Err(ContractError::Unauthorized));
    assert_eq!(c.set_template_nft_token_id(ALICE, 5), Err(ContractError::Unauthorized));
    assert_eq!(c.withdraw_fees(ALICE), Err(ContractError::Unauthorized));

    c.set_daily_limit(OWNER, 10).unwrap();
    assert_eq!(c.get_daily_limit(), 10);
    c.set_minting_fee(OWNER, 123).unwrap();
    assert_eq!(c.get_minting_fee(), 123);
}

#[test]
fn withdraw_fees_empties_the_balance() {
    let mut c = contract_with_minted_token();
    let held = c.get_contract_balance();
    assert_eq!(held, MINT_FEE);
    c.withdraw_fees(OWNER).unwrap();
    assert_eq!(c.get_contract_balance(), 0);
    assert_eq!(c.transfers.last(), Some(&Transfer::Native { to: OWNER, amount: held }));
}

#[test]
fn popular_template_achievement_at_ten_uses() {
    let mut c = contract_with_minted_token();
    // Trade the token ten times: Alice sells it, the buyer lists it again...
    let mut seller = ALICE;
    for round in 0..10u64 {
        let buyer = 100 + round;
        let escrow = EsdtPayment { token_id: TOKEN_ID, nonce: 1, amount: 1 };
        let listing_id = c.list_template(seller, 1, escrow, 1000).unwrap();
        c.purchase_template(buyer, listing_id, 1000).unwrap();
        seller = buyer;
    }
    assert_eq!(c.get_template_uses(1), 10);
    assert_eq!(
        c.events
            .iter()
            .filter(|e| matches!(
                e,
                Event::AchievementEarned { account: 0, achievement: Achievement::PopularTemplate }
            ))
            .count(),
        1
    );
}

#[test]
fn refused_operations_change_nothing() {
    let mut c = contract_with_minted_token();
    let events_before = c.events.len();
    let transfers_before = c.transfers.len();
    let balance_before = c.get_contract_balance();

    assert!(c.mint_template_nft(ALICE, 0, b"N".to_vec(), MINT_FEE).is_err());
    assert!(c.purchase_template(BOB, 0, 1000).is_err());
    assert!(c.rate_template(BOB, 1, 9).is_err());
    assert!(c.complete_generation(BOB, 0, b"h".to_vec(), true).is_err());

    assert_eq!(c.events.len(), events_before);
    assert_eq!(c.transfers.len(), transfers_before);
    assert_eq!(c.get_contract_balance(), balance_before);
    assert_eq!(c.get_generation(0).unwrap().nft_nonce, 1);
}
