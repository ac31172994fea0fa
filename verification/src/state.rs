//! The mathematical state of the machine and its well-formedness invariant.
//!
//! Every contract of the executable layer speaks of this view: the executable
//! state maps onto a [`StateView`], each operation onto a transition function
//! over it.

use vstd::prelude::*;

use crate::types::{
    AccountInfo, EventView, GenerationStatus, GenerationView, Holder, Listing, RatingEntry,
    TemplateRatingInfo, TokenView, Transfer,
};

verus! {

/// Seconds in a quota day.
pub open spec fn spec_day_of(timestamp: u64) -> u64 {
    (timestamp / 86400) as u64
}

/// The complete state of the machine, as specifications see it.
///
/// Token nonce `n` is minted exactly when `1 <= n <= tokens.len()`, and its
/// record is `tokens[n - 1]`. Generation and listing ids are the indices of
/// their sequences. `transfers` and `events` are append-only logs of the
/// outbound value movements and notifications the runtime performs.
#[verifier::ext_equal]
pub struct StateView {
    pub owner: u64,
    pub template_token_id: u64,
    pub daily_limit: u64,
    pub mint_fee: u128,
    pub platform_fee_bps: u64,
    pub generations: Seq<GenerationView>,
    pub listings: Seq<Listing>,
    pub accounts: Map<u64, AccountInfo>,
    pub tokens: Seq<TokenView>,
    pub template_ratings: Map<u64, TemplateRatingInfo>,
    pub user_ratings: Seq<RatingEntry>,
    pub balance: u128,
    pub transfers: Seq<Transfer>,
    pub events: Seq<EventView>,
}

/// The counters of `account`; an account never seen reads as all zeroes.
pub open spec fn account_of(s: StateView, account: u64) -> AccountInfo {
    if s.accounts.contains_key(account) {
        s.accounts[account]
    } else {
        AccountInfo { generations_today: 0, last_generation_day: 0, generation_count: 0 }
    }
}

/// The daily counter of `info` as the rate limiter sees it on quota day
/// `day`: zero if the counter was last written on an earlier day.
pub open spec fn effective_on_day(info: AccountInfo, day: u64) -> u64 {
    if day > info.last_generation_day {
        0
    } else {
        info.generations_today
    }
}

/// The daily counter of `info` as the rate limiter sees it at `now`: zero if
/// a new quota day has begun since the counter was last written.
pub open spec fn effective_count(info: AccountInfo, now: u64) -> u64 {
    effective_on_day(info, spec_day_of(now))
}

/// The rating aggregate of token nonce `nonce`; an unrated nonce reads as an
/// empty aggregate.
pub open spec fn rating_of(s: StateView, nonce: u64) -> TemplateRatingInfo {
    if s.template_ratings.contains_key(nonce) {
        s.template_ratings[nonce]
    } else {
        TemplateRatingInfo { total_rating: 0, rating_count: 0 }
    }
}

/// Token nonce `nonce` has been minted.
pub open spec fn is_minted(s: StateView, nonce: u64) -> bool {
    1 <= nonce <= s.tokens.len()
}

/// The record of minted token `nonce`.
pub open spec fn token_of(s: StateView, nonce: u64) -> TokenView {
    s.tokens[nonce - 1]
}

/// How many completed purchases token `nonce` has seen; an unminted nonce
/// reads as zero.
pub open spec fn uses_of(s: StateView, nonce: u64) -> u64 {
    if is_minted(s, nonce) {
        token_of(s, nonce).uses
    } else {
        0
    }
}

/// `account` has already recorded a rating for token `nonce`.
pub open spec fn has_rating(log: Seq<RatingEntry>, account: u64, nonce: u64) -> bool {
    exists|i: int| 0 <= i < log.len() && log[i].account == account && log[i].nonce == nonce
}

/// The sum of all ratings recorded for token `nonce`.
pub open spec fn rating_sum_for(log: Seq<RatingEntry>, nonce: u64) -> int
    decreases log.len(),
{
    if log.len() == 0 {
        0
    } else {
        rating_sum_for(log.drop_last(), nonce) + if log.last().nonce == nonce {
            log.last().rating as int
        } else {
            0
        }
    }
}

/// The number of ratings recorded for token `nonce`.
pub open spec fn rating_count_for(log: Seq<RatingEntry>, nonce: u64) -> int
    decreases log.len(),
{
    if log.len() == 0 {
        0
    } else {
        rating_count_for(log.drop_last(), nonce) + if log.last().nonce == nonce {
            1int
        } else {
            0
        }
    }
}

/// Appending an entry grows the sum and the count of its own nonce by the
/// entry's value and one, and leaves every other nonce unchanged.
pub proof fn lemma_rating_log_push(log: Seq<RatingEntry>, e: RatingEntry, nonce: u64)
    ensures
        rating_sum_for(log.push(e), nonce) == rating_sum_for(log, nonce) + if e.nonce == nonce {
            e.rating as int
        } else {
            0
        },
        rating_count_for(log.push(e), nonce) == rating_count_for(log, nonce) + if e.nonce
            == nonce {
            1int
        } else {
            0
        },
{
    assert(log.push(e).drop_last() =~= log);
}

impl StateView {
    /// One generation record is well formed at its position.
    pub open spec fn generation_wf(self, i: int) -> bool {
        let g = self.generations[i];
        &&& g.id == i
        &&& g.nft_nonce != 0 ==> {
            &&& !(g.status is Pending)
            &&& is_minted(self, g.nft_nonce)
        }
        &&& g.status is Pending ==> g.nft_nonce == 0 && g.code_hash.len() == 0
    }

    /// One listing record is well formed at its position. An active listing
    /// escrows the one unit of its token with the contract.
    pub open spec fn listing_wf(self, i: int) -> bool {
        let l = self.listings[i];
        &&& l.id == i
        &&& l.price > 0
        &&& is_minted(self, l.nft_nonce)
        &&& l.active ==> token_of(self, l.nft_nonce).holder is Contract
    }

    /// The well-formedness invariant: established by initialisation and
    /// preserved by every operation.
    pub open spec fn wf(self) -> bool {
        &&& self.platform_fee_bps <= 10000
        // Generations are keyed by their position; a token is minted from a
        // resolved generation only.
        &&& forall|i: int| 0 <= i < self.generations.len() ==> self.generation_wf(i)
        // Minted nonces are distinct across generations: a token belongs to
        // one generation.
        &&& forall|i: int, j: int|
            0 <= i < j < self.generations.len() && (#[trigger] self.generations[i]).nft_nonce != 0
                ==> self.generations[i].nft_nonce != (#[trigger] self.generations[j]).nft_nonce
        // Listings are keyed by their position and refer to minted tokens.
        &&& forall|i: int| 0 <= i < self.listings.len() ==> self.listing_wf(i)
        // At most one active listing per token: the single unit can sit in
        // only one escrow.
        &&& forall|i: int, j: int|
            0 <= i < j < self.listings.len() && (#[trigger] self.listings[i]).active && (
            #[trigger] self.listings[j]).active ==> self.listings[i].nft_nonce
                != self.listings[j].nft_nonce
        // The mint registry is keyed by nonce, starting at one.
        &&& forall|i: int|
            0 <= i < self.tokens.len() ==> (#[trigger] self.tokens[i]).nonce == i + 1
        // Lifetime counters never exceed the number of generations ever made.
        &&& forall|a: u64|
            self.accounts.contains_key(a) ==> {
                let info = #[trigger] self.accounts[a];
                info.generations_today <= info.generation_count <= self.generations.len()
            }
        // A rating is recorded once per (account, nonce) pair, with a value
        // in 1..=5.
        &&& forall|i: int, j: int|
            0 <= i < j < self.user_ratings.len() ==> !((#[trigger] self.user_ratings[i]).account
                == (#[trigger] self.user_ratings[j]).account && self.user_ratings[i].nonce
                == self.user_ratings[j].nonce)
        &&& forall|i: int|
            0 <= i < self.user_ratings.len() ==> 1 <= (#[trigger] self.user_ratings[i]).rating
                <= 5
        // Each aggregate is exactly the sum and the count of the ratings
        // recorded for its nonce.
        &&& forall|n: u64|
            #![trigger rating_of(self, n)]
            rating_of(self, n).total_rating == rating_sum_for(self.user_ratings, n) && rating_of(
                self,
                n,
            ).rating_count == rating_count_for(self.user_ratings, n)
    }
}

} // verus!
