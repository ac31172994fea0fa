//! The executable state machine. Each operation is verified against its
//! transition function in [`crate::transitions`]: the post-state is exactly
//! the transition's post-state and the result its result, so every law
//! proved over the transitions holds of this code.
//!
//! The environment's inputs — the caller's identity, the block timestamp and
//! any attached payment — are plain arguments; the surrounding runtime reads
//! them from the call context, performs the transfers appended to
//! `transfers`, and publishes the notifications appended to `events`.

use vstd::prelude::*;

use crate::state::{account_of, effective_count, has_rating, rating_of, uses_of, StateView};
use crate::table::Table;
use crate::transitions::{
    cancel_outcome, complete_outcome, init_state, list_outcome, mint_outcome, purchase_outcome,
    rate_outcome, request_outcome, set_daily_limit_outcome, set_minting_fee_outcome,
    set_template_token_id_outcome, withdraw_fees_outcome, DEFAULT_DAILY_LIMIT, DEFAULT_MINT_FEE,
    DEFAULT_PLATFORM_FEE_BPS, ROYALTY_BPS,
};
use crate::types::{
    AccountInfo, Achievement, ContractError, EsdtPayment, Event, Generation, GenerationStatus,
    Holder, Listing, MintedToken, RatingEntry, TemplateAttributes, TemplateRatingInfo, Transfer,
};

verus! {

/// The generate/mint/trade/rate state machine.
///
/// Construct it with [`ContractGenerator::init`]; every mutating operation
/// requires and preserves [`ContractGenerator::wf`].
pub struct ContractGenerator {
    /// The privileged account: the operator of the off-ledger worker.
    pub owner: u64,
    /// Identifier of the template token collection; zero until configured.
    pub template_token_id: u64,
    /// Generation requests allowed per account and quota day.
    pub daily_limit: u64,
    /// Fee, in native coin, a mint must at least pay.
    pub mint_fee: u128,
    /// The platform's cut of each sale, in basis points.
    pub platform_fee_bps: u64,
    /// All generation requests ever made, keyed by id.
    pub generations: Vec<Generation>,
    /// All listings ever made, keyed by id.
    pub listings: Vec<Listing>,
    /// Per-account rate-limiter counters and lifetime statistics.
    pub accounts: Table<AccountInfo>,
    /// All minted template tokens; nonce `n` lives at index `n - 1`.
    pub tokens: Vec<MintedToken>,
    /// Per-nonce rating aggregates.
    pub template_ratings: Table<TemplateRatingInfo>,
    /// The write-once rating log, one entry per (account, nonce) pair.
    pub user_ratings: Vec<RatingEntry>,
    /// The native coin held by the contract: collected fees and escrow.
    pub balance: u128,
    /// Outbound value movements for the runtime to perform, in order.
    pub transfers: Vec<Transfer>,
    /// The append-only notification log.
    pub events: Vec<Event>,
}

impl View for ContractGenerator {
    type V = StateView;

    open spec fn view(&self) -> StateView {
        StateView {
            owner: self.owner,
            template_token_id: self.template_token_id,
            daily_limit: self.daily_limit,
            mint_fee: self.mint_fee,
            platform_fee_bps: self.platform_fee_bps,
            generations: self.generations@.map_values(|g: Generation| g@),
            listings: self.listings@,
            accounts: self.accounts@,
            tokens: self.tokens@.map_values(|t: MintedToken| t@),
            template_ratings: self.template_ratings@,
            user_ratings: self.user_ratings@,
            balance: self.balance,
            transfers: self.transfers@,
            events: self.events@.map_values(|e: Event| e@),
        }
    }
}

/// A fresh copy of a byte buffer.
fn copy_bytes(src: &Vec<u8>) -> (r: Vec<u8>)
    ensures
        r@ == src@,
{
    let mut r: Vec<u8> = Vec::new();
    let n = src.len();
    for i in 0..n
        invariant
            n == src@.len(),
            r@ == src@.subrange(0, i as int),
    {
        r.push(src[i]);
        proof {
            assert(r@ =~= src@.subrange(0, i + 1));
        }
    }
    proof {
        assert(r@ =~= src@);
    }
    r
}

/// The rate limiter on one account's counters: a new quota day resets the
/// counter; a request is allowed while the counter is below `limit`, and
/// consumes one unit when it is.
pub fn check_and_update_rate_limit(info: AccountInfo, now: u64, limit: u64) -> (r: (
    bool,
    AccountInfo,
))
    ensures
        r.0 <==> effective_count(info, now) < limit,
        r.0 ==> r.1 == (AccountInfo {
            generations_today: (effective_count(info, now) + 1) as u64,
            last_generation_day: if crate::state::spec_day_of(now) > info.last_generation_day {
                crate::state::spec_day_of(now)
            } else {
                info.last_generation_day
            },
            generation_count: info.generation_count,
        }),
        !r.0 ==> r.1 == info,
{
    let day = now / 86400;
    let (today, last_day) = if day > info.last_generation_day {
        (0u64, day)
    } else {
        (info.generations_today, info.last_generation_day)
    };
    if today >= limit {
        (false, info)
    } else {
        (
            true,
            AccountInfo {
                generations_today: today + 1,
                last_generation_day: last_day,
                generation_count: info.generation_count,
            },
        )
    }
}

impl ContractGenerator {
    /// The state is well formed: the view's invariant holds and the tables'
    /// representations are sound.
    pub open spec fn wf(&self) -> bool {
        &&& self@.wf()
        &&& self.accounts.wf()
        &&& self.template_ratings.wf()
    }

    /// A fresh contract owned by `owner`, with the default daily limit,
    /// minting fee and platform fee.
    pub fn init(owner: u64) -> (c: Self)
        ensures
            c.wf(),
            c@ == init_state(owner),
    {
        let c = ContractGenerator {
            owner,
            template_token_id: 0,
            daily_limit: DEFAULT_DAILY_LIMIT,
            mint_fee: DEFAULT_MINT_FEE,
            platform_fee_bps: DEFAULT_PLATFORM_FEE_BPS,
            generations: Vec::new(),
            listings: Vec::new(),
            accounts: Table::new(),
            tokens: Vec::new(),
            template_ratings: Table::new(),
            user_ratings: Vec::new(),
            balance: 0,
            transfers: Vec::new(),
            events: Vec::new(),
        };
        proof {
            assert(c@ =~~= init_state(owner));
        }
        c
    }

    /// The counters of `account`, reading absent accounts as all zeroes.
    fn account_info(&self, account: u64) -> (info: AccountInfo)
        requires
            self.accounts.wf(),
        ensures
            info == account_of(self@, account),
    {
        match self.accounts.get(account) {
            Some(info) => info,
            None => AccountInfo {
                generations_today: 0,
                last_generation_day: 0,
                generation_count: 0,
            },
        }
    }

    /// A generation request by `caller` at block timestamp `now`: consumes
    /// one unit of the day's quota or fails with `QuotaExceeded`, appends a
    /// `Pending` generation under the returned id, and notifies the
    /// off-ledger worker with the description and category joined by `|||`.
    pub fn generate_contract(
        &mut self,
        caller: u64,
        now: u64,
        description: Vec<u8>,
        category: Vec<u8>,
    ) -> (r: Result<u64, ContractError>)
        requires
            old(self).wf(),
            old(self)@.generations.len() < u64::MAX,
        ensures
            final(self).wf(),
            final(self)@ == request_outcome(old(self)@, caller, now, description@, category@).0,
            r == request_outcome(old(self)@, caller, now, description@, category@).1,
    {
        let info = self.account_info(caller);
        let (allowed, new_info) = check_and_update_rate_limit(info, now, self.daily_limit);
        if !allowed {
            return Err(ContractError::QuotaExceeded);
        }
        proof {
            // The lifetime counter stays below the number of generations,
            // which the caller bounds below u64::MAX.
            if self@.accounts.contains_key(caller) {
                assert(self@.accounts[caller].generation_count <= self@.generations.len());
            }
        }
        let id = self.generations.len() as u64;
        let mut payload = copy_bytes(&description);
        payload.push(124u8);
        payload.push(124u8);
        payload.push(124u8);
        let mut category_copy = copy_bytes(&category);
        payload.append(&mut category_copy);
        let generation = Generation {
            id,
            creator: caller,
            description,
            category,
            timestamp: now,
            status: GenerationStatus::Pending,
            code_hash: Vec::new(),
            nft_nonce: 0,
        };
        self.generations.push(generation);
        self.accounts.set(
            caller,
            AccountInfo { generation_count: info.generation_count + 1, ..new_info },
        );
        self.events.push(
            Event::GenerationRequested { generation_id: id, creator: caller, payload },
        );
        proof {
            let expected = request_outcome(old(self)@, caller, now, description@, category@).0;
            assert(self@.generations =~~= expected.generations);
            assert(self@.events =~~= expected.events);
            assert(self@ =~~= expected);
            crate::laws::lemma_step_preserves_wf(
                old(self)@,
                crate::transitions::Op::Request {
                    caller,
                    now,
                    description: description@,
                    category: category@,
                },
            );
        }
        Ok(id)
    }

    /// The privileged operator reports a generation's outcome: the status
    /// becomes `Completed` or `Failed` and the reported code hash is stored.
    /// A second report on the same generation overwrites the first.
    pub fn complete_generation(
        &mut self,
        caller: u64,
        generation_id: u64,
        code_hash: Vec<u8>,
        success: bool,
    ) -> (r: Result<(), ContractError>)
        requires
            old(self).wf(),
        ensures
            final(self).wf(),
            final(self)@ == complete_outcome(
                old(self)@,
                caller,
                generation_id,
                code_hash@,
                success,
            ).0,
            r == complete_outcome(old(self)@, caller, generation_id, code_hash@, success).1,
    {
        if caller != self.owner {
            return Err(ContractError::Unauthorized);
        }
        if generation_id >= self.generations.len() as u64 {
            return Err(ContractError::NotFound);
        }
        let gid = generation_id as usize;
        let creator = self.generations[gid].creator;
        let hash_copy = copy_bytes(&code_hash);
        let g = &mut self.generations[gid];
        g.status = if success {
            GenerationStatus::Completed
        } else {
            GenerationStatus::Failed
        };
        g.code_hash = hash_copy;
        self.events.push(
            Event::GenerationCompleted { generation_id, creator, success, code_hash },
        );
        proof {
            let expected = complete_outcome(
                old(self)@,
                caller,
                generation_id,
                code_hash@,
                success,
            ).0;
            assert(self@.generations =~~= expected.generations);
            assert(self@.events =~~= expected.events);
            assert(self@ =~~= expected);
            crate::laws::lemma_step_preserves_wf(
                old(self)@,
                crate::transitions::Op::Complete {
                    caller,
                    generation_id,
                    code_hash: code_hash@,
                    success,
                },
            );
        }
        Ok(())
    }

    /// The generation's creator mints the one-of-a-kind template token
    /// against a payment of at least the minting fee (overpayment is kept).
    /// A fresh nonce is allocated, the token — carrying the generation's
    /// metadata and the fixed royalty — goes to the creator, and the
    /// generation records the nonce so that no second mint can succeed.
    ///
    /// The two bounds in the requires are machine limits: the nonce counter
    /// and the held balance must fit their words.
    pub fn mint_template_nft(
        &mut self,
        caller: u64,
        generation_id: u64,
        name: Vec<u8>,
        payment: u128,
    ) -> (r: Result<u64, ContractError>)
        requires
            old(self).wf(),
            old(self)@.tokens.len() + 1 < u64::MAX,
            old(self)@.balance + payment <= u128::MAX,
        ensures
            final(self).wf(),
            final(self)@ == mint_outcome(old(self)@, caller, generation_id, name@, payment).0,
            r == mint_outcome(old(self)@, caller, generation_id, name@, payment).1,
    {
        if payment < self.mint_fee {
            return Err(ContractError::InsufficientFunds);
        }
        if generation_id >= self.generations.len() as u64 {
            return Err(ContractError::InvalidState);
        }
        let gid = generation_id as usize;
        if self.generations[gid].status != GenerationStatus::Completed {
            return Err(ContractError::InvalidState);
        }
        if self.generations[gid].creator != caller {
            return Err(ContractError::Unauthorized);
        }
        if self.generations[gid].nft_nonce != 0 {
            return Err(ContractError::AlreadyDone);
        }
        let nonce = self.tokens.len() as u64 + 1;
        let attributes = TemplateAttributes {
            generation_id,
            category: copy_bytes(&self.generations[gid].category),
            code_hash: copy_bytes(&self.generations[gid].code_hash),
            creation_date: self.generations[gid].timestamp,
            uses: 0,
            total_rating: 0,
            rating_count: 0,
        };
        self.tokens.push(
            MintedToken {
                nonce,
                name,
                royalties_bps: ROYALTY_BPS,
                attributes,
                holder: Holder::Account(caller),
                uses: 0,
            },
        );
        let g = &mut self.generations[gid];
        g.nft_nonce = nonce;
        self.balance = self.balance + payment;
        self.transfers.push(
            Transfer::Token { to: caller, token_id: self.template_token_id, nonce, amount: 1 },
        );
        let info = self.account_info(caller);
        if info.generation_count == 1 {
            self.events.push(
                Event::AchievementEarned {
                    account: caller,
                    achievement: Achievement::FirstGeneration,
                },
            );
        }
        self.events.push(
            Event::TemplateMinted { generation_id, nft_nonce: nonce, creator: caller },
        );
        proof {
            let expected = mint_outcome(old(self)@, caller, generation_id, name@, payment).0;
            let gid = generation_id as int;
            assert(old(self)@.generation_wf(gid));
            assert(old(self)@.generations[gid] == old(self).generations@[gid]@);
            assert(self@.generations =~~= expected.generations);
            assert(self@.tokens =~~= expected.tokens);
            assert(self@.events =~~= expected.events);
            assert(self@.transfers =~~= expected.transfers);
            assert(self@ =~~= expected);
            crate::laws::lemma_step_preserves_wf(
                old(self)@,
                crate::transitions::Op::Mint { caller, generation_id, name: name@, payment },
            );
        }
        Ok(nonce)
    }

    /// A token holder lists the token for sale at a positive price. The
    /// attached escrow must be exactly one unit of the template token at the
    /// listed nonce; it stays with the contract while the listing is active.
    ///
    /// The implication in the requires is the ledger's own accounting: an
    /// attached unit of a real token was the caller's until this call.
    pub fn list_template(
        &mut self,
        caller: u64,
        nft_nonce: u64,
        payment: EsdtPayment,
        price: u128,
    ) -> (r: Result<u64, ContractError>)
        requires
            old(self).wf(),
            old(self)@.listings.len() < u64::MAX,
            payment.token_id == old(self)@.template_token_id && payment.nonce == nft_nonce
                && payment.amount == 1 ==> crate::state::is_minted(old(self)@, nft_nonce)
                && crate::state::token_of(old(self)@, nft_nonce).holder == Holder::Account(caller),
        ensures
            final(self).wf(),
            final(self)@ == list_outcome(old(self)@, caller, nft_nonce, payment, price).0,
            r == list_outcome(old(self)@, caller, nft_nonce, payment, price).1,
    {
        if payment.token_id != self.template_token_id || payment.nonce != nft_nonce
            || payment.amount != 1 || price == 0 {
            return Err(ContractError::ValidationError);
        }
        let id = self.listings.len() as u64;
        self.listings.push(Listing { id, seller: caller, nft_nonce, price, active: true });
        let ntokens = self.tokens.len();
        let idx = (nft_nonce - 1) as usize;
        proof {
            assert(nft_nonce - 1 < ntokens);
            assert(idx as int == nft_nonce - 1);
        }
        let t = &mut self.tokens[idx];
        t.holder = Holder::Contract;
        self.events.push(
            Event::TemplateListed { listing_id: id, nft_nonce, seller: caller, price },
        );
        proof {
            let expected = list_outcome(old(self)@, caller, nft_nonce, payment, price).0;
            assert(old(self)@.tokens[nft_nonce - 1] == old(self).tokens@[nft_nonce - 1]@);
            assert(self@.listings =~~= expected.listings);
            assert(self@.tokens =~~= expected.tokens);
            assert(self@.events =~~= expected.events);
            assert(self@ =~~= expected);
            crate::laws::lemma_step_preserves_wf(
                old(self)@,
                crate::transitions::Op::List { caller, nft_nonce, escrow: payment, price },
            );
        }
        Ok(id)
    }

    /// A buyer purchases an active listing against a payment of at least its
    /// price. The listing is deactivated and the counters updated before any
    /// value moves; then the seller's payout — the price less the platform
    /// fee, which stays with the contract — and the token's escrowed unit
    /// are released, in that order.
    pub fn purchase_template(&mut self, caller: u64, listing_id: u64, payment: u128) -> (r: Result<
        (),
        ContractError,
    >)
        requires
            old(self).wf(),
            old(self)@.balance + payment <= u128::MAX,
            listing_id < old(self)@.listings.len() ==> uses_of(
                old(self)@,
                old(self)@.listings[listing_id as int].nft_nonce,
            ) < u64::MAX,
        ensures
            final(self).wf(),
            final(self)@ == purchase_outcome(old(self)@, caller, listing_id, payment).0,
            r == purchase_outcome(old(self)@, caller, listing_id, payment).1,
    {
        if listing_id >= self.listings.len() as u64 {
            return Err(ContractError::NotFound);
        }
        let lid = listing_id as usize;
        let l = self.listings[lid];
        if !l.active {
            return Err(ContractError::InvalidState);
        }
        if payment < l.price {
            return Err(ContractError::InsufficientFunds);
        }
        if caller == l.seller {
            return Err(ContractError::NoSelfTrade);
        }
        let ntokens = self.tokens.len();
        proof {
            assert(self@.listing_wf(listing_id as int));
        }
        let idx = (l.nft_nonce - 1) as usize;
        proof {
            assert(l.nft_nonce - 1 < ntokens);
            assert(idx as int == l.nft_nonce - 1);
            assert(self@.tokens[l.nft_nonce - 1] == self.tokens@[l.nft_nonce - 1]@);
        }
        let fee = crate::fees::platform_fee(l.price, self.platform_fee_bps);
        let seller_amount = l.price - fee;
        let lm = &mut self.listings[lid];
        lm.active = false;
        let t = &mut self.tokens[idx];
        t.holder = Holder::Account(caller);
        t.uses = t.uses + 1;
        let new_uses = t.uses;
        self.balance = self.balance + payment - seller_amount;
        self.transfers.push(Transfer::Native { to: l.seller, amount: seller_amount });
        self.transfers.push(
            Transfer::Token {
                to: caller,
                token_id: self.template_token_id,
                nonce: l.nft_nonce,
                amount: 1,
            },
        );
        self.events.push(
            Event::AchievementEarned { account: l.seller, achievement: Achievement::FirstSale },
        );
        if new_uses == 10 {
            self.events.push(
                Event::AchievementEarned { account: 0, achievement: Achievement::PopularTemplate },
            );
        }
        self.events.push(
            Event::TemplatePurchased { listing_id, buyer: caller, seller: l.seller, price: l.price },
        );
        proof {
            let expected = purchase_outcome(old(self)@, caller, listing_id, payment).0;
            assert(old(self)@.tokens[l.nft_nonce - 1] == old(self).tokens@[l.nft_nonce - 1]@);
            assert(self@.listings =~~= expected.listings);
            assert(self@.tokens =~~= expected.tokens);
            assert(self@.events =~~= expected.events);
            assert(self@.transfers =~~= expected.transfers);
            assert(self@ =~~= expected);
            crate::laws::lemma_step_preserves_wf(
                old(self)@,
                crate::transitions::Op::Purchase { caller, listing_id, payment },
            );
        }
        Ok(())
    }

    /// The contract owner cancels an active listing: the escrowed unit
    /// returns to the seller and the listing is deactivated.
    pub fn cancel_listing(&mut self, caller: u64, listing_id: u64) -> (r: Result<
        (),
        ContractError,
    >)
        requires
            old(self).wf(),
        ensures
            final(self).wf(),
            final(self)@ == cancel_outcome(old(self)@, caller, listing_id).0,
            r == cancel_outcome(old(self)@, caller, listing_id).1,
    {
        if caller != self.owner {
            return Err(ContractError::Unauthorized);
        }
        if listing_id >= self.listings.len() as u64 {
            return Err(ContractError::NotFound);
        }
        let lid = listing_id as usize;
        let l = self.listings[lid];
        if !l.active {
            return Err(ContractError::InvalidState);
        }
        let ntokens = self.tokens.len();
        proof {
            assert(self@.listing_wf(listing_id as int));
        }
        let idx = (l.nft_nonce - 1) as usize;
        proof {
            assert(l.nft_nonce - 1 < ntokens);
            assert(idx as int == l.nft_nonce - 1);
            assert(self@.tokens[l.nft_nonce - 1] == self.tokens@[l.nft_nonce - 1]@);
        }
        let lm = &mut self.listings[lid];
        lm.active = false;
        let t = &mut self.tokens[idx];
        t.holder = Holder::Account(l.seller);
        self.transfers.push(
            Transfer::Token {
                to: l.seller,
                token_id: self.template_token_id,
                nonce: l.nft_nonce,
                amount: 1,
            },
        );
        proof {
            let expected = cancel_outcome(old(self)@, caller, listing_id).0;
            assert(old(self)@.tokens[l.nft_nonce - 1] == old(self).tokens@[l.nft_nonce - 1]@);
            assert(self@.listings =~~= expected.listings);
            assert(self@.tokens =~~= expected.tokens);
            assert(self@ =~~= expected);
            crate::laws::lemma_step_preserves_wf(
                old(self)@,
                crate::transitions::Op::Cancel { caller, listing_id },
            );
        }
        Ok(())
    }

    /// `caller` has already recorded a rating for token `nonce`.
    fn has_rated(&self, account: u64, nonce: u64) -> (r: bool)
        ensures
            r == has_rating(self@.user_ratings, account, nonce),
    {
        let n = self.user_ratings.len();
        for i in 0..n
            invariant
                n == self.user_ratings@.len(),
                forall|j: int|
                    0 <= j < i ==> !((#[trigger] self.user_ratings@[j]).account == account
                        && self.user_ratings@[j].nonce == nonce),
        {
            if self.user_ratings[i].account == account && self.user_ratings[i].nonce == nonce {
                return true;
            }
        }
        false
    }

    /// Any account rates any token nonce once, with a value from one to
    /// five; the nonce's aggregate accumulates the rating. Nothing checks
    /// that the rater ever held or used the token.
    ///
    /// The two bounds in the requires are machine limits on the aggregate's
    /// accumulators; both are observable through
    /// [`ContractGenerator::get_template_rating`].
    pub fn rate_template(&mut self, caller: u64, nft_nonce: u64, rating: u8) -> (r: Result<
        (),
        ContractError,
    >)
        requires
            old(self).wf(),
            rating_of(old(self)@, nft_nonce).total_rating + 5 <= u64::MAX,
            rating_of(old(self)@, nft_nonce).rating_count + 1 <= u64::MAX,
        ensures
            final(self).wf(),
            final(self)@ == rate_outcome(old(self)@, caller, nft_nonce, rating).0,
            r == rate_outcome(old(self)@, caller, nft_nonce, rating).1,
    {
        if rating < 1 || rating > 5 {
            return Err(ContractError::ValidationError);
        }
        if self.has_rated(caller, nft_nonce) {
            return Err(ContractError::AlreadyDone);
        }
        let agg = match self.template_ratings.get(nft_nonce) {
            Some(agg) => agg,
            None => TemplateRatingInfo { total_rating: 0, rating_count: 0 },
        };
        self.user_ratings.push(RatingEntry { account: caller, nonce: nft_nonce, rating });
        self.template_ratings.set(
            nft_nonce,
            TemplateRatingInfo {
                total_rating: agg.total_rating + rating as u64,
                rating_count: agg.rating_count + 1,
            },
        );
        self.events.push(Event::TemplateRated { nft_nonce, rater: caller, rating });
        proof {
            let expected = rate_outcome(old(self)@, caller, nft_nonce, rating).0;
            assert(self@.events =~~= expected.events);
            assert(self@ =~~= expected);
            crate::laws::lemma_step_preserves_wf(
                old(self)@,
                crate::transitions::Op::Rate { caller, nft_nonce, rating },
            );
        }
        Ok(())
    }
    /// The owner configures the identifier of the template token collection.
    pub fn set_template_nft_token_id(&mut self, caller: u64, token_id: u64) -> (r: Result<
        (),
        ContractError,
    >)
        requires
            old(self).wf(),
        ensures
            final(self).wf(),
            final(self)@ == set_template_token_id_outcome(old(self)@, caller, token_id).0,
            r == set_template_token_id_outcome(old(self)@, caller, token_id).1,
    {
        if caller != self.owner {
            return Err(ContractError::Unauthorized);
        }
        self.template_token_id = token_id;
        proof {
            assert(self@ =~~= set_template_token_id_outcome(old(self)@, caller, token_id).0);
            crate::laws::lemma_step_preserves_wf(
                old(self)@,
                crate::transitions::Op::SetTemplateTokenId { caller, token_id },
            );
        }
        Ok(())
    }

    /// The owner sets the daily generation quota.
    pub fn set_daily_limit(&mut self, caller: u64, new_limit: u64) -> (r: Result<
        (),
        ContractError,
    >)
        requires
            old(self).wf(),
        ensures
            final(self).wf(),
            final(self)@ == set_daily_limit_outcome(old(self)@, caller, new_limit).0,
            r == set_daily_limit_outcome(old(self)@, caller, new_limit).1,
    {
        if caller != self.owner {
            return Err(ContractError::Unauthorized);
        }
        self.daily_limit = new_limit;
        proof {
            assert(self@ =~~= set_daily_limit_outcome(old(self)@, caller, new_limit).0);
            crate::laws::lemma_step_preserves_wf(
                old(self)@,
                crate::transitions::Op::SetDailyLimit { caller, new_limit },
            );
        }
        Ok(())
    }

    /// The owner sets the minting fee.
    pub fn set_minting_fee(&mut self, caller: u64, new_fee: u128) -> (r: Result<
        (),
        ContractError,
    >)
        requires
            old(self).wf(),
        ensures
            final(self).wf(),
            final(self)@ == set_minting_fee_outcome(old(self)@, caller, new_fee).0,
            r == set_minting_fee_outcome(old(self)@, caller, new_fee).1,
    {
        if caller != self.owner {
            return Err(ContractError::Unauthorized);
        }
        self.mint_fee = new_fee;
        proof {
            assert(self@ =~~= set_minting_fee_outcome(old(self)@, caller, new_fee).0);
            crate::laws::lemma_step_preserves_wf(
                old(self)@,
                crate::transitions::Op::SetMintingFee { caller, new_fee },
            );
        }
        Ok(())
    }

    /// The owner withdraws the contract's whole native-coin balance: the
    /// accumulated minting and platform fees.
    pub fn withdraw_fees(&mut self, caller: u64) -> (r: Result<(), ContractError>)
        requires
            old(self).wf(),
        ensures
            final(self).wf(),
            final(self)@ == withdraw_fees_outcome(old(self)@, caller).0,
            r == withdraw_fees_outcome(old(self)@, caller).1,
    {
        if caller != self.owner {
            return Err(ContractError::Unauthorized);
        }
        let amount = self.balance;
        self.balance = 0;
        self.transfers.push(Transfer::Native { to: self.owner, amount });
        proof {
            assert(self@ =~~= withdraw_fees_outcome(old(self)@, caller).0);
            crate::laws::lemma_step_preserves_wf(
                old(self)@,
                crate::transitions::Op::WithdrawFees { caller },
            );
        }
        Ok(())
    }

    /// The generation stored under `generation_id`, if any.
    pub fn get_generation(&self, generation_id: u64) -> (r: Option<&Generation>)
        ensures
            match r {
                Some(g) => generation_id < self@.generations.len() && g@ == self@.generations[
                    generation_id as int
                ],
                None => generation_id >= self@.generations.len(),
            },
    {
        if generation_id >= self.generations.len() as u64 {
            None
        } else {
            Some(&self.generations[generation_id as usize])
        }
    }

    /// The listing stored under `listing_id`, if any.
    pub fn get_listing(&self, listing_id: u64) -> (r: Option<Listing>)
        ensures
            match r {
                Some(l) => listing_id < self@.listings.len() && l == self@.listings[
                    listing_id as int
                ],
                None => listing_id >= self@.listings.len(),
            },
    {
        if listing_id >= self.listings.len() as u64 {
            None
        } else {
            Some(self.listings[listing_id as usize])
        }
    }

    /// How many generation requests `user` has already spent of today's
    /// quota at time `now`: zero if a new quota day has begun.
    pub fn get_user_generations_today(&self, user: u64, now: u64) -> (r: u64)
        requires
            self.wf(),
        ensures
            r == effective_count(account_of(self@, user), now),
    {
        let info = self.account_info(user);
        let day = now / 86400;
        if day > info.last_generation_day {
            0
        } else {
            info.generations_today
        }
    }

    /// How many generation requests `user` has made over its lifetime.
    pub fn get_user_generation_count(&self, user: u64) -> (r: u64)
        requires
            self.wf(),
        ensures
            r == account_of(self@, user).generation_count,
    {
        self.account_info(user).generation_count
    }

    /// The rating aggregate of token `nft_nonce`; an unrated nonce reads as
    /// an empty aggregate.
    pub fn get_template_rating(&self, nft_nonce: u64) -> (r: TemplateRatingInfo)
        requires
            self.wf(),
        ensures
            r == rating_of(self@, nft_nonce),
    {
        match self.template_ratings.get(nft_nonce) {
            Some(agg) => agg,
            None => TemplateRatingInfo { total_rating: 0, rating_count: 0 },
        }
    }

    /// How many completed purchases token `nft_nonce` has seen; an unminted
    /// nonce reads as zero.
    pub fn get_template_uses(&self, nft_nonce: u64) -> (r: u64)
        ensures
            r == uses_of(self@, nft_nonce),
    {
        if nft_nonce >= 1 && nft_nonce <= self.tokens.len() as u64 {
            let idx = (nft_nonce - 1) as usize;
            proof {
                assert(self@.tokens[nft_nonce - 1] == self.tokens@[nft_nonce - 1]@);
            }
            self.tokens[idx].uses
        } else {
            0
        }
    }

    /// The current daily generation quota.
    pub fn get_daily_limit(&self) -> (r: u64)
        ensures
            r == self@.daily_limit,
    {
        self.daily_limit
    }

    /// The current minting fee.
    pub fn get_minting_fee(&self) -> (r: u128)
        ensures
            r == self@.mint_fee,
    {
        self.mint_fee
    }

    /// The native coin currently held by the contract.
    pub fn get_contract_balance(&self) -> (r: u128)
        ensures
            r == self@.balance,
    {
        self.balance
    }
}

} // verus!
