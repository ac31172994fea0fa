//! The transition functions: one specification function per operation, each
//! mapping the pre-state and the call's inputs to the post-state and the
//! result. A refused operation returns the pre-state unchanged together with
//! its error. The executable layer is verified against these functions.

use vstd::prelude::*;

use crate::fees::spec_platform_fee;
use crate::state::{
    account_of, has_rating, is_minted, rating_of, spec_day_of, token_of, uses_of, StateView,
};
use crate::types::{
    AccountInfo, Achievement, AttributesView, ContractError, EsdtPayment, EventView,
    GenerationStatus, GenerationView, Holder, Listing, RatingEntry, TemplateRatingInfo, TokenView,
    Transfer,
};

verus! {

/// Royalty embedded in every minted template token, in basis points.
pub const ROYALTY_BPS: u64 = 250;

/// Generation requests allowed per account and day at initialisation.
pub const DEFAULT_DAILY_LIMIT: u64 = 3;

/// Minting fee at initialisation, in the native coin's smallest unit.
pub const DEFAULT_MINT_FEE: u128 = 50000000000000000;

/// Platform fee at initialisation, in basis points.
pub const DEFAULT_PLATFORM_FEE_BPS: u64 = 250;

/// The notification payload of a generation request: description and
/// category, joined by the three-byte separator `|||`.
pub open spec fn request_payload(description: Seq<u8>, category: Seq<u8>) -> Seq<u8> {
    description + seq![124u8, 124u8, 124u8] + category
}

/// The state after initialisation by `owner`.
pub open spec fn init_state(owner: u64) -> StateView {
    StateView {
        owner,
        template_token_id: 0,
        daily_limit: DEFAULT_DAILY_LIMIT,
        mint_fee: DEFAULT_MINT_FEE,
        platform_fee_bps: DEFAULT_PLATFORM_FEE_BPS,
        generations: Seq::empty(),
        listings: Seq::empty(),
        accounts: Map::empty(),
        tokens: Seq::empty(),
        template_ratings: Map::empty(),
        user_ratings: Seq::empty(),
        balance: 0,
        transfers: Seq::empty(),
        events: Seq::empty(),
    }
}

/// The account's daily counter as the rate limiter sees it at `now`: zero if
/// a new quota day has begun since the counter was last written.
pub open spec fn effective_today(s: StateView, account: u64, now: u64) -> u64 {
    crate::state::effective_count(account_of(s, account), now)
}

/// A generation request by `caller` at time `now`: consumes one unit of the
/// day's quota, appends a `Pending` generation under the next id, counts it
/// towards the caller's lifetime total and notifies the off-ledger worker.
pub open spec fn request_outcome(
    s: StateView,
    caller: u64,
    now: u64,
    description: Seq<u8>,
    category: Seq<u8>,
) -> (StateView, Result<u64, ContractError>) {
    let day = spec_day_of(now);
    let a = account_of(s, caller);
    let today = effective_today(s, caller, now);
    if today >= s.daily_limit {
        (s, Err(ContractError::QuotaExceeded))
    } else {
        let id = s.generations.len() as u64;
        let g = GenerationView {
            id,
            creator: caller,
            description,
            category,
            timestamp: now,
            status: GenerationStatus::Pending,
            code_hash: Seq::empty(),
            nft_nonce: 0,
        };
        let info = AccountInfo {
            generations_today: (today + 1) as u64,
            last_generation_day: if day > a.last_generation_day {
                day
            } else {
                a.last_generation_day
            },
            generation_count: (a.generation_count + 1) as u64,
        };
        let ev = EventView::GenerationRequested {
            generation_id: id,
            creator: caller,
            payload: request_payload(description, category),
        };
        (
            StateView {
                generations: s.generations.push(g),
                accounts: s.accounts.insert(caller, info),
                events: s.events.push(ev),
                ..s
            },
            Ok(id),
        )
    }
}

/// The privileged operator reports the outcome of a generation: the status
/// becomes `Completed` or `Failed` and the reported code hash is stored. A
/// second report on the same generation overwrites the first.
pub open spec fn complete_outcome(
    s: StateView,
    caller: u64,
    generation_id: u64,
    code_hash: Seq<u8>,
    success: bool,
) -> (StateView, Result<(), ContractError>) {
    if caller != s.owner {
        (s, Err(ContractError::Unauthorized))
    } else if generation_id >= s.generations.len() {
        (s, Err(ContractError::NotFound))
    } else {
        let g = s.generations[generation_id as int];
        let g2 = GenerationView {
            status: if success {
                GenerationStatus::Completed
            } else {
                GenerationStatus::Failed
            },
            code_hash,
            ..g
        };
        let ev = EventView::GenerationCompleted {
            generation_id,
            creator: g.creator,
            success,
            code_hash,
        };
        (
            StateView {
                generations: s.generations.update(generation_id as int, g2),
                events: s.events.push(ev),
                ..s
            },
            Ok(()),
        )
    }
}

/// The attributes embedded in a token minted from generation `g`.
pub open spec fn minted_attributes(g: GenerationView) -> AttributesView {
    AttributesView {
        generation_id: g.id,
        category: g.category,
        code_hash: g.code_hash,
        creation_date: g.timestamp,
        uses: 0,
        total_rating: 0,
        rating_count: 0,
    }
}

/// The generation's creator mints the one-of-a-kind template token: a fresh
/// nonce is allocated, the token (holding the generation's metadata) goes to
/// the creator, and the generation records the nonce so that no second mint
/// can succeed. The fee payment, overpayment included, stays with the
/// contract.
pub open spec fn mint_outcome(
    s: StateView,
    caller: u64,
    generation_id: u64,
    name: Seq<u8>,
    payment: u128,
) -> (StateView, Result<u64, ContractError>) {
    if payment < s.mint_fee {
        (s, Err(ContractError::InsufficientFunds))
    } else if generation_id >= s.generations.len() || !(s.generations[generation_id as int].status
        is Completed) {
        (s, Err(ContractError::InvalidState))
    } else if s.generations[generation_id as int].creator != caller {
        (s, Err(ContractError::Unauthorized))
    } else if s.generations[generation_id as int].nft_nonce != 0 {
        (s, Err(ContractError::AlreadyDone))
    } else {
        let g = s.generations[generation_id as int];
        let nonce = (s.tokens.len() + 1) as u64;
        let token = TokenView {
            nonce,
            name,
            royalties_bps: ROYALTY_BPS,
            attributes: minted_attributes(g),
            holder: Holder::Account(caller),
            uses: 0,
        };
        let milestone: Seq<EventView> = if account_of(s, caller).generation_count == 1 {
            seq![
                EventView::AchievementEarned {
                    account: caller,
                    achievement: Achievement::FirstGeneration,
                },
            ]
        } else {
            Seq::empty()
        };
        let minted = EventView::TemplateMinted { generation_id, nft_nonce: nonce, creator: caller };
        (
            StateView {
                generations: s.generations.update(
                    generation_id as int,
                    GenerationView { nft_nonce: nonce, ..g },
                ),
                tokens: s.tokens.push(token),
                balance: (s.balance + payment) as u128,
                transfers: s.transfers.push(
                    Transfer::Token {
                        to: caller,
                        token_id: s.template_token_id,
                        nonce,
                        amount: 1,
                    },
                ),
                events: s.events + milestone + seq![minted],
                ..s
            },
            Ok(nonce),
        )
    }
}

/// A token holder lists the token for sale: the escrowed unit attached to the
/// call must be exactly one unit of the template token at the listed nonce,
/// and the asking price must be positive. The unit stays with the contract
/// for the lifetime of the listing.
pub open spec fn list_outcome(
    s: StateView,
    caller: u64,
    nft_nonce: u64,
    payment: EsdtPayment,
    price: u128,
) -> (StateView, Result<u64, ContractError>) {
    if payment.token_id != s.template_token_id || payment.nonce != nft_nonce || payment.amount != 1
        || price == 0 {
        (s, Err(ContractError::ValidationError))
    } else {
        let id = s.listings.len() as u64;
        let listing = Listing { id, seller: caller, nft_nonce, price, active: true };
        let ev = EventView::TemplateListed { listing_id: id, nft_nonce, seller: caller, price };
        (
            StateView {
                listings: s.listings.push(listing),
                tokens: s.tokens.update(
                    nft_nonce - 1,
                    TokenView { holder: Holder::Contract, ..token_of(s, nft_nonce) },
                ),
                events: s.events.push(ev),
                ..s
            },
            Ok(id),
        )
    }
}

/// A buyer purchases a listing: the listing is deactivated and the counters
/// are updated before any value moves; then the seller's payout (the price
/// less the platform fee, which stays with the contract) and the token's
/// escrowed unit are released.
pub open spec fn purchase_outcome(s: StateView, caller: u64, listing_id: u64, payment: u128) -> (
    StateView,
    Result<(), ContractError>,
) {
    if listing_id >= s.listings.len() {
        (s, Err(ContractError::NotFound))
    } else if !s.listings[listing_id as int].active {
        (s, Err(ContractError::InvalidState))
    } else if payment < s.listings[listing_id as int].price {
        (s, Err(ContractError::InsufficientFunds))
    } else if caller == s.listings[listing_id as int].seller {
        (s, Err(ContractError::NoSelfTrade))
    } else {
        let l = s.listings[listing_id as int];
        let fee = spec_platform_fee(l.price, s.platform_fee_bps);
        let seller_amount = l.price - fee;
        let token = token_of(s, l.nft_nonce);
        let new_uses = (token.uses + 1) as u64;
        let popular: Seq<EventView> = if new_uses == 10 {
            seq![
                EventView::AchievementEarned {
                    account: 0,
                    achievement: Achievement::PopularTemplate,
                },
            ]
        } else {
            Seq::empty()
        };
        let events = s.events + seq![
            EventView::AchievementEarned { account: l.seller, achievement: Achievement::FirstSale },
        ] + popular + seq![
            EventView::TemplatePurchased {
                listing_id,
                buyer: caller,
                seller: l.seller,
                price: l.price,
            },
        ];
        (
            StateView {
                listings: s.listings.update(listing_id as int, Listing { active: false, ..l }),
                tokens: s.tokens.update(
                    l.nft_nonce - 1,
                    TokenView { holder: Holder::Account(caller), uses: new_uses, ..token },
                ),
                balance: (s.balance + payment - seller_amount) as u128,
                transfers: s.transfers + seq![
                    Transfer::Native { to: l.seller, amount: seller_amount as u128 },
                    Transfer::Token {
                        to: caller,
                        token_id: s.template_token_id,
                        nonce: l.nft_nonce,
                        amount: 1,
                    },
                ],
                events,
                ..s
            },
            Ok(()),
        )
    }
}

/// The contract owner cancels a listing: the escrowed unit returns to the
/// seller and the listing is deactivated.
pub open spec fn cancel_outcome(s: StateView, caller: u64, listing_id: u64) -> (
    StateView,
    Result<(), ContractError>,
) {
    if caller != s.owner {
        (s, Err(ContractError::Unauthorized))
    } else if listing_id >= s.listings.len() {
        (s, Err(ContractError::NotFound))
    } else if !s.listings[listing_id as int].active {
        (s, Err(ContractError::InvalidState))
    } else {
        let l = s.listings[listing_id as int];
        (
            StateView {
                listings: s.listings.update(listing_id as int, Listing { active: false, ..l }),
                tokens: s.tokens.update(
                    l.nft_nonce - 1,
                    TokenView { holder: Holder::Account(l.seller), ..token_of(s, l.nft_nonce) },
                ),
                transfers: s.transfers.push(
                    Transfer::Token {
                        to: l.seller,
                        token_id: s.template_token_id,
                        nonce: l.nft_nonce,
                        amount: 1,
                    },
                ),
                ..s
            },
            Ok(()),
        )
    }
}

/// Any account rates any token nonce once, with a value from one to five;
/// the nonce's aggregate accumulates the rating.
pub open spec fn rate_outcome(s: StateView, caller: u64, nft_nonce: u64, rating: u8) -> (
    StateView,
    Result<(), ContractError>,
) {
    if rating < 1 || rating > 5 {
        (s, Err(ContractError::ValidationError))
    } else if has_rating(s.user_ratings, caller, nft_nonce) {
        (s, Err(ContractError::AlreadyDone))
    } else {
        let agg = rating_of(s, nft_nonce);
        let agg2 = TemplateRatingInfo {
            total_rating: (agg.total_rating + rating) as u64,
            rating_count: (agg.rating_count + 1) as u64,
        };
        let ev = EventView::TemplateRated { nft_nonce, rater: caller, rating };
        (
            StateView {
                template_ratings: s.template_ratings.insert(nft_nonce, agg2),
                user_ratings: s.user_ratings.push(
                    RatingEntry { account: caller, nonce: nft_nonce, rating },
                ),
                events: s.events.push(ev),
                ..s
            },
            Ok(()),
        )
    }
}

/// The owner sets the daily generation quota.
pub open spec fn set_daily_limit_outcome(s: StateView, caller: u64, new_limit: u64) -> (
    StateView,
    Result<(), ContractError>,
) {
    if caller != s.owner {
        (s, Err(ContractError::Unauthorized))
    } else {
        (StateView { daily_limit: new_limit, ..s }, Ok(()))
    }
}

/// The owner sets the minting fee.
pub open spec fn set_minting_fee_outcome(s: StateView, caller: u64, new_fee: u128) -> (
    StateView,
    Result<(), ContractError>,
) {
    if caller != s.owner {
        (s, Err(ContractError::Unauthorized))
    } else {
        (StateView { mint_fee: new_fee, ..s }, Ok(()))
    }
}

/// The owner sets the template token identifier.
pub open spec fn set_template_token_id_outcome(s: StateView, caller: u64, token_id: u64) -> (
    StateView,
    Result<(), ContractError>,
) {
    if caller != s.owner {
        (s, Err(ContractError::Unauthorized))
    } else {
        (StateView { template_token_id: token_id, ..s }, Ok(()))
    }
}

/// The owner withdraws the contract's whole native-coin balance (the
/// accumulated minting and platform fees).
pub open spec fn withdraw_fees_outcome(s: StateView, caller: u64) -> (
    StateView,
    Result<(), ContractError>,
) {
    if caller != s.owner {
        (s, Err(ContractError::Unauthorized))
    } else {
        (
            StateView {
                balance: 0,
                transfers: s.transfers.push(
                    Transfer::Native { to: s.owner, amount: s.balance },
                ),
                ..s
            },
            Ok(()),
        )
    }
}

/// One operation of the machine, with the inputs the environment hands it.
pub enum Op {
    Request { caller: u64, now: u64, description: Seq<u8>, category: Seq<u8> },
    Complete { caller: u64, generation_id: u64, code_hash: Seq<u8>, success: bool },
    Mint { caller: u64, generation_id: u64, name: Seq<u8>, payment: u128 },
    List { caller: u64, nft_nonce: u64, escrow: EsdtPayment, price: u128 },
    Purchase { caller: u64, listing_id: u64, payment: u128 },
    Cancel { caller: u64, listing_id: u64 },
    Rate { caller: u64, nft_nonce: u64, rating: u8 },
    SetDailyLimit { caller: u64, new_limit: u64 },
    SetMintingFee { caller: u64, new_fee: u128 },
    SetTemplateTokenId { caller: u64, token_id: u64 },
    WithdrawFees { caller: u64 },
}

/// What the environment guarantees about an operation before it runs: the
/// machine limits of the counters, and the ledger's own accounting (an
/// attached escrow payment really was the caller's, and the balance fits).
pub open spec fn op_allowed(s: StateView, op: Op) -> bool {
    match op {
        Op::Request { .. } => s.generations.len() < u64::MAX,
        Op::Mint { payment, .. } => {
            &&& s.tokens.len() + 1 < u64::MAX
            &&& s.balance + payment <= u128::MAX
        },
        Op::List { caller, nft_nonce, escrow, .. } => {
            &&& s.listings.len() < u64::MAX
            &&& escrow.token_id == s.template_token_id && escrow.nonce == nft_nonce
                && escrow.amount == 1 ==> is_minted(s, nft_nonce) && token_of(s, nft_nonce).holder
                == Holder::Account(caller)
        },
        Op::Purchase { listing_id, payment, .. } => {
            &&& s.balance + payment <= u128::MAX
            &&& listing_id < s.listings.len() ==> uses_of(
                s,
                s.listings[listing_id as int].nft_nonce,
            ) < u64::MAX
        },
        Op::Rate { nft_nonce, .. } => {
            &&& rating_of(s, nft_nonce).total_rating + 5 <= u64::MAX
            &&& rating_of(s, nft_nonce).rating_count + 1 <= u64::MAX
        },
        _ => true,
    }
}

/// The next state under `op`, whether or not the operation succeeds.
pub open spec fn step(s: StateView, op: Op) -> StateView {
    match op {
        Op::Request { caller, now, description, category } => request_outcome(
            s,
            caller,
            now,
            description,
            category,
        ).0,
        Op::Complete { caller, generation_id, code_hash, success } => complete_outcome(
            s,
            caller,
            generation_id,
            code_hash,
            success,
        ).0,
        Op::Mint { caller, generation_id, name, payment } => mint_outcome(
            s,
            caller,
            generation_id,
            name,
            payment,
        ).0,
        Op::List { caller, nft_nonce, escrow, price } => list_outcome(
            s,
            caller,
            nft_nonce,
            escrow,
            price,
        ).0,
        Op::Purchase { caller, listing_id, payment } => purchase_outcome(
            s,
            caller,
            listing_id,
            payment,
        ).0,
        Op::Cancel { caller, listing_id } => cancel_outcome(s, caller, listing_id).0,
        Op::Rate { caller, nft_nonce, rating } => rate_outcome(s, caller, nft_nonce, rating).0,
        Op::SetDailyLimit { caller, new_limit } => set_daily_limit_outcome(s, caller, new_limit).0,
        Op::SetMintingFee { caller, new_fee } => set_minting_fee_outcome(s, caller, new_fee).0,
        Op::SetTemplateTokenId { caller, token_id } => set_template_token_id_outcome(
            s,
            caller,
            token_id,
        ).0,
        Op::WithdrawFees { caller } => withdraw_fees_outcome(s, caller).0,
    }
}

} // verus!
