//! Data model of the state machine: entities, payments, outbound actions,
//! notifications and errors, together with the spec-level views of the types
//! that carry byte buffers.
//!
//! Account identities and token identifiers are plain `u64` values standing
//! for ledger addresses and token tickers; the surrounding runtime keeps the
//! mapping. Native-coin amounts are `u128` values in the coin's smallest
//! denomination. The identity `0` stands for the ledger's zero address.

use vstd::prelude::*;

verus! {

/// Lifecycle of a generation request: created `Pending`, resolved to
/// `Completed` or `Failed` by the privileged operator.
#[derive(Clone, Copy, PartialEq, Eq, Structural, Debug)]
pub enum GenerationStatus {
    Pending,
    Completed,
    Failed,
}

/// One code-generation request and its resolved outcome.
///
/// `nft_nonce` is `0` until a template token is minted from this generation;
/// it is set exactly once, by a successful mint.
pub struct Generation {
    pub id: u64,
    pub creator: u64,
    pub description: Vec<u8>,
    pub category: Vec<u8>,
    pub timestamp: u64,
    pub status: GenerationStatus,
    pub code_hash: Vec<u8>,
    pub nft_nonce: u64,
}

/// Spec-level view of a [`Generation`]: byte buffers become sequences.
#[verifier::ext_equal]
pub struct GenerationView {
    pub id: u64,
    pub creator: u64,
    pub description: Seq<u8>,
    pub category: Seq<u8>,
    pub timestamp: u64,
    pub status: GenerationStatus,
    pub code_hash: Seq<u8>,
    pub nft_nonce: u64,
}

impl View for Generation {
    type V = GenerationView;

    open spec fn view(&self) -> GenerationView {
        GenerationView {
            id: self.id,
            creator: self.creator,
            description: self.description@,
            category: self.category@,
            timestamp: self.timestamp,
            status: self.status,
            code_hash: self.code_hash@,
            nft_nonce: self.nft_nonce,
        }
    }
}

/// Metadata embedded in a template token at mint time. The counters are the
/// token's accumulators frozen at creation (always zero for a fresh token).
pub struct TemplateAttributes {
    pub generation_id: u64,
    pub category: Vec<u8>,
    pub code_hash: Vec<u8>,
    pub creation_date: u64,
    pub uses: u64,
    pub total_rating: u64,
    pub rating_count: u64,
}

/// Spec-level view of [`TemplateAttributes`].
#[verifier::ext_equal]
pub struct AttributesView {
    pub generation_id: u64,
    pub category: Seq<u8>,
    pub code_hash: Seq<u8>,
    pub creation_date: u64,
    pub uses: u64,
    pub total_rating: u64,
    pub rating_count: u64,
}

impl View for TemplateAttributes {
    type V = AttributesView;

    open spec fn view(&self) -> AttributesView {
        AttributesView {
            generation_id: self.generation_id,
            category: self.category@,
            code_hash: self.code_hash@,
            creation_date: self.creation_date,
            uses: self.uses,
            total_rating: self.total_rating,
            rating_count: self.rating_count,
        }
    }
}

/// Who currently holds the single unit of a minted template token: the
/// contract itself (escrow) or an external account.
#[derive(Clone, Copy, PartialEq, Eq, Structural, Debug)]
pub enum Holder {
    Contract,
    Account(u64),
}

/// A minted template token: the model of the ledger's record for one
/// non-fungible unit. Token nonce `n` lives at index `n - 1` of the mint
/// registry; `uses` counts completed purchases of the token.
pub struct MintedToken {
    pub nonce: u64,
    pub name: Vec<u8>,
    pub royalties_bps: u64,
    pub attributes: TemplateAttributes,
    pub holder: Holder,
    pub uses: u64,
}

/// Spec-level view of a [`MintedToken`].
#[verifier::ext_equal]
pub struct TokenView {
    pub nonce: u64,
    pub name: Seq<u8>,
    pub royalties_bps: u64,
    pub attributes: AttributesView,
    pub holder: Holder,
    pub uses: u64,
}

impl View for MintedToken {
    type V = TokenView;

    open spec fn view(&self) -> TokenView {
        TokenView {
            nonce: self.nonce,
            name: self.name@,
            royalties_bps: self.royalties_bps,
            attributes: self.attributes@,
            holder: self.holder,
            uses: self.uses,
        }
    }
}

/// An offer to sell the escrowed unit of token `nft_nonce` at `price`.
/// Deactivated exactly once, by a purchase or a cancellation.
#[derive(Clone, Copy, PartialEq, Eq, Structural, Debug)]
pub struct Listing {
    pub id: u64,
    pub seller: u64,
    pub nft_nonce: u64,
    pub price: u128,
    pub active: bool,
}

/// Aggregate rating of one token: the sum and the number of all ratings
/// recorded for its nonce.
#[derive(Clone, Copy, PartialEq, Eq, Structural, Debug)]
pub struct TemplateRatingInfo {
    pub total_rating: u64,
    pub rating_count: u64,
}

impl Default for TemplateRatingInfo {
    /// An empty aggregate: no ratings recorded.
    fn default() -> (r: Self)
        ensures
            r.total_rating == 0,
            r.rating_count == 0,
    {
        TemplateRatingInfo { total_rating: 0, rating_count: 0 }
    }
}

/// Per-account counters of the rate limiter and the lifetime statistics.
#[derive(Clone, Copy, PartialEq, Eq, Structural, Debug)]
pub struct AccountInfo {
    /// Successful generation requests on the account's last active day.
    pub generations_today: u64,
    /// The quota day (`timestamp / 86400`) the daily counter belongs to.
    pub last_generation_day: u64,
    /// Successful generation requests over the account's lifetime.
    pub generation_count: u64,
}

/// One recorded rating: `account` rated token `nonce` with `rating`.
/// Write-once: a pair appears at most once in the rating log.
#[derive(Clone, Copy, PartialEq, Eq, Structural, Debug)]
pub struct RatingEntry {
    pub account: u64,
    pub nonce: u64,
    pub rating: u8,
}

/// A payment of a ledger token attached to a call: `amount` units of token
/// `token_id` at nonce `nonce`, already transferred to the contract when the
/// operation begins and returned to the caller if the operation fails.
#[derive(Clone, Copy, PartialEq, Eq, Structural, Debug)]
pub struct EsdtPayment {
    pub token_id: u64,
    pub nonce: u64,
    pub amount: u128,
}

/// An outbound value movement the runtime must perform. Entries are appended
/// only after the state change that justifies them has been committed.
#[derive(Clone, Copy, PartialEq, Eq, Structural, Debug)]
pub enum Transfer {
    /// Send `amount` of the native coin to account `to`.
    Native { to: u64, amount: u128 },
    /// Send `amount` units of token `token_id` at nonce `nonce` to `to`.
    Token { to: u64, token_id: u64, nonce: u64, amount: u128 },
}

/// A milestone notification derived from the counters.
#[derive(Clone, Copy, PartialEq, Eq, Structural, Debug)]
pub enum Achievement {
    FirstGeneration,
    FirstSale,
    PopularTemplate,
}

/// A structured notification record, appended as operations commit (a
/// cancellation records none). Write-only for the core: no operation ever
/// reads the log back.
pub enum Event {
    GenerationRequested { generation_id: u64, creator: u64, payload: Vec<u8> },
    GenerationCompleted { generation_id: u64, creator: u64, success: bool, code_hash: Vec<u8> },
    TemplateMinted { generation_id: u64, nft_nonce: u64, creator: u64 },
    TemplateListed { listing_id: u64, nft_nonce: u64, seller: u64, price: u128 },
    TemplatePurchased { listing_id: u64, buyer: u64, seller: u64, price: u128 },
    TemplateRated { nft_nonce: u64, rater: u64, rating: u8 },
    AchievementEarned { account: u64, achievement: Achievement },
}

/// Spec-level view of an [`Event`].
#[verifier::ext_equal]
pub enum EventView {
    GenerationRequested { generation_id: u64, creator: u64, payload: Seq<u8> },
    GenerationCompleted { generation_id: u64, creator: u64, success: bool, code_hash: Seq<u8> },
    TemplateMinted { generation_id: u64, nft_nonce: u64, creator: u64 },
    TemplateListed { listing_id: u64, nft_nonce: u64, seller: u64, price: u128 },
    TemplatePurchased { listing_id: u64, buyer: u64, seller: u64, price: u128 },
    TemplateRated { nft_nonce: u64, rater: u64, rating: u8 },
    AchievementEarned { account: u64, achievement: Achievement },
}

impl View for Event {
    type V = EventView;

    open spec fn view(&self) -> EventView {
        match self {
            Event::GenerationRequested { generation_id, creator, payload } => {
                EventView::GenerationRequested {
                    generation_id: *generation_id,
                    creator: *creator,
                    payload: payload@,
                }
            },
            Event::GenerationCompleted { generation_id, creator, success, code_hash } => {
                EventView::GenerationCompleted {
                    generation_id: *generation_id,
                    creator: *creator,
                    success: *success,
                    code_hash: code_hash@,
                }
            },
            Event::TemplateMinted { generation_id, nft_nonce, creator } => {
                EventView::TemplateMinted {
                    generation_id: *generation_id,
                    nft_nonce: *nft_nonce,
                    creator: *creator,
                }
            },
            Event::TemplateListed { listing_id, nft_nonce, seller, price } => {
                EventView::TemplateListed {
                    listing_id: *listing_id,
                    nft_nonce: *nft_nonce,
                    seller: *seller,
                    price: *price,
                }
            },
            Event::TemplatePurchased { listing_id, buyer, seller, price } => {
                EventView::TemplatePurchased {
                    listing_id: *listing_id,
                    buyer: *buyer,
                    seller: *seller,
                    price: *price,
                }
            },
            Event::TemplateRated { nft_nonce, rater, rating } => {
                EventView::TemplateRated {
                    nft_nonce: *nft_nonce,
                    rater: *rater,
                    rating: *rating,
                }
            },
            Event::AchievementEarned { account, achievement } => {
                EventView::AchievementEarned { account: *account, achievement: *achievement }
            },
        }
    }
}

/// Why an operation was refused. Every refusal is total: the state is exactly
/// as it was before the call.
#[derive(Clone, Copy, PartialEq, Eq, Structural, Debug)]
pub enum ContractError {
    /// The caller lacks the required role or identity.
    Unauthorized,
    /// The referenced generation or listing id is unknown.
    NotFound,
    /// The entity is in the wrong lifecycle state for the operation.
    InvalidState,
    /// A one-time action (mint, rating) was attempted a second time.
    AlreadyDone,
    /// An out-of-range value or a wrong token or amount in a payment.
    ValidationError,
    /// The account's daily generation quota is exhausted.
    QuotaExceeded,
    /// The attached payment is below the required amount.
    InsufficientFunds,
    /// The buyer of a listing is its seller.
    NoSelfTrade,
}

} // verus!
