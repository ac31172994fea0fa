//! The laws of the machine, proved over the transition functions: the
//! invariant is established by initialisation and preserved by every
//! operation; the daily quota bounds successful requests; a generation is
//! minted at most once, ever; a purchase pays the seller the price less the
//! platform fee and hands the token over; a rating pair is recorded at most
//! once, ever.

use vstd::prelude::*;

use crate::state::{
    account_of, effective_on_day, has_rating, lemma_rating_log_push, rating_count_for, rating_of,
    rating_sum_for, spec_day_of, token_of, StateView,
};
use crate::transitions::{
    cancel_outcome, complete_outcome, effective_today, init_state, list_outcome, mint_outcome,
    op_allowed, purchase_outcome, rate_outcome, request_outcome, step, Op,
};
use crate::fees::spec_platform_fee;
use crate::types::{ContractError, EsdtPayment, Holder, RatingEntry, Transfer};

verus! {

/// Initialisation yields a well-formed state.
pub proof fn lemma_init_wf(owner: u64)
    ensures
        init_state(owner).wf(),
{
}

/// The rating aggregates stay tied to an unchanged rating log.
proof fn lemma_ratings_carry_over(s: StateView, s2: StateView)
    requires
        forall|n: u64|
            #![trigger rating_of(s, n)]
            rating_of(s, n).total_rating == rating_sum_for(s.user_ratings, n) && rating_of(
                s,
                n,
            ).rating_count == rating_count_for(s.user_ratings, n),
        s2.template_ratings == s.template_ratings,
        s2.user_ratings == s.user_ratings,
    ensures
        forall|n: u64|
            #![trigger rating_of(s2, n)]
            rating_of(s2, n).total_rating == rating_sum_for(s2.user_ratings, n) && rating_of(
                s2,
                n,
            ).rating_count == rating_count_for(s2.user_ratings, n),
{
    assert forall|n: u64| #![trigger rating_of(s2, n)] rating_of(s2, n).total_rating
        == rating_sum_for(s2.user_ratings, n) && rating_of(s2, n).rating_count == rating_count_for(
        s2.user_ratings,
        n,
    ) by {
        assert(rating_of(s, n) == rating_of(s2, n));
    }
}

/// A state that keeps all records of a well-formed state is well formed,
/// whatever its configuration scalars, balance and logs.
proof fn lemma_records_carry_over(s: StateView, s2: StateView)
    requires
        s.wf(),
        s2.generations == s.generations,
        s2.listings == s.listings,
        s2.tokens == s.tokens,
        s2.accounts == s.accounts,
        s2.template_ratings == s.template_ratings,
        s2.user_ratings == s.user_ratings,
        s2.platform_fee_bps == s.platform_fee_bps,
    ensures
        s2.wf(),
{
    assert(forall|i: int|
        0 <= i < s.generations.len() ==> s.generation_wf(i) ==> s2.generation_wf(i));
    assert(forall|i: int| 0 <= i < s.listings.len() ==> s.listing_wf(i) ==> s2.listing_wf(i));
    lemma_ratings_carry_over(s, s2);
}

proof fn lemma_request_preserves_wf(s: StateView, caller: u64, now: u64, d: Seq<u8>, c: Seq<u8>)
    requires
        s.wf(),
        s.generations.len() < u64::MAX,
    ensures
        request_outcome(s, caller, now, d, c).0.wf(),
{
    let s2 = request_outcome(s, caller, now, d, c).0;
    if effective_today(s, caller, now) < s.daily_limit {
        assert(forall|i: int|
            0 <= i < s.generations.len() ==> s.generation_wf(i) ==> s2.generation_wf(i));
        assert(s2.generation_wf(s.generations.len() as int));
        assert(forall|i: int| 0 <= i < s.listings.len() ==> s.listing_wf(i) ==> s2.listing_wf(i));
        lemma_ratings_carry_over(s, s2);
    }
}

proof fn lemma_complete_preserves_wf(
    s: StateView,
    caller: u64,
    generation_id: u64,
    code_hash: Seq<u8>,
    success: bool,
)
    requires
        s.wf(),
    ensures
        complete_outcome(s, caller, generation_id, code_hash, success).0.wf(),
{
    let s2 = complete_outcome(s, caller, generation_id, code_hash, success).0;
    if caller == s.owner && generation_id < s.generations.len() {
        assert(forall|i: int|
            0 <= i < s2.generations.len() && i != generation_id ==> s.generation_wf(i)
                ==> s2.generation_wf(i));
        assert(s.generation_wf(generation_id as int));
        assert(s2.generation_wf(generation_id as int));
        assert(forall|i: int| 0 <= i < s.listings.len() ==> s.listing_wf(i) ==> s2.listing_wf(i));
        lemma_ratings_carry_over(s, s2);
    }
}

proof fn lemma_mint_preserves_wf(
    s: StateView,
    caller: u64,
    generation_id: u64,
    name: Seq<u8>,
    payment: u128,
)
    requires
        s.wf(),
        s.tokens.len() + 1 < u64::MAX,
    ensures
        mint_outcome(s, caller, generation_id, name, payment).0.wf(),
{
    let (s2, r) = mint_outcome(s, caller, generation_id, name, payment);
    if r is Ok {
        let gid = generation_id as int;
        let nonce = (s.tokens.len() + 1) as u64;
        // Every previously minted nonce is at most the old registry length,
        // so the fresh nonce differs from all of them.
        assert forall|i: int|
            0 <= i < s.generations.len() && (#[trigger] s.generations[i]).nft_nonce
                != 0 implies s.generations[i].nft_nonce < nonce by {
            assert(s.generation_wf(i));
        }
        assert(s.generation_wf(gid));
        assert(forall|i: int|
            0 <= i < s2.generations.len() && i != gid ==> s.generation_wf(i) ==> s2.generation_wf(
                i,
            ));
        assert(s2.generation_wf(gid));
        assert(forall|i: int| 0 <= i < s.listings.len() ==> s.listing_wf(i) ==> s2.listing_wf(i));
        lemma_ratings_carry_over(s, s2);
    }
}

proof fn lemma_list_preserves_wf(
    s: StateView,
    caller: u64,
    nft_nonce: u64,
    payment: EsdtPayment,
    price: u128,
)
    requires
        s.wf(),
        op_allowed(s, Op::List { caller, nft_nonce, escrow: payment, price }),
    ensures
        list_outcome(s, caller, nft_nonce, payment, price).0.wf(),
{
    let (s2, r) = list_outcome(s, caller, nft_nonce, payment, price);
    if r is Ok {
        let n = s.listings.len() as int;
        // The unit sits with the caller, so no active listing escrows it:
        // the new listing is the only active one for this nonce.
        assert forall|j: int|
            0 <= j < n && (#[trigger] s.listings[j]).active implies s.listings[j].nft_nonce
            != nft_nonce by {
            assert(s.listing_wf(j));
        }
        assert forall|i: int| 0 <= i < n && s.listing_wf(i) implies s2.listing_wf(i) by {
            assert(s.listing_wf(i));
        }
        assert(s2.listing_wf(n));
        assert(forall|i: int|
            0 <= i < s.generations.len() ==> s.generation_wf(i) ==> s2.generation_wf(i));
        lemma_ratings_carry_over(s, s2);
    }
}

proof fn lemma_purchase_preserves_wf(s: StateView, caller: u64, listing_id: u64, payment: u128)
    requires
        s.wf(),
    ensures
        purchase_outcome(s, caller, listing_id, payment).0.wf(),
{
    let (s2, r) = purchase_outcome(s, caller, listing_id, payment);
    if r is Ok {
        let lid = listing_id as int;
        let l = s.listings[lid];
        assert(s.listing_wf(lid));
        // Any other active listing escrows a different token, so its escrow
        // is untouched by this token's hand-over.
        assert forall|i: int| 0 <= i < s.listings.len() && i != lid && s.listing_wf(i) implies
            s2.listing_wf(i) by {
            assert(s.listing_wf(i));
        }
        assert(s2.listing_wf(lid));
        assert(forall|i: int|
            0 <= i < s.generations.len() ==> s.generation_wf(i) ==> s2.generation_wf(i));
        lemma_ratings_carry_over(s, s2);
    }
}

proof fn lemma_cancel_preserves_wf(s: StateView, caller: u64, listing_id: u64)
    requires
        s.wf(),
    ensures
        cancel_outcome(s, caller, listing_id).0.wf(),
{
    let (s2, r) = cancel_outcome(s, caller, listing_id);
    if r is Ok {
        let lid = listing_id as int;
        assert(s.listing_wf(lid));
        assert forall|i: int| 0 <= i < s.listings.len() && i != lid && s.listing_wf(i) implies
            s2.listing_wf(i) by {
            assert(s.listing_wf(i));
        }
        assert(s2.listing_wf(lid));
        assert(forall|i: int|
            0 <= i < s.generations.len() ==> s.generation_wf(i) ==> s2.generation_wf(i));
        lemma_ratings_carry_over(s, s2);
    }
}

proof fn lemma_rate_preserves_wf(s: StateView, caller: u64, nft_nonce: u64, rating: u8)
    requires
        s.wf(),
        rating_of(s, nft_nonce).total_rating + 5 <= u64::MAX,
        rating_of(s, nft_nonce).rating_count + 1 <= u64::MAX,
    ensures
        rate_outcome(s, caller, nft_nonce, rating).0.wf(),
{
    let (s2, r) = rate_outcome(s, caller, nft_nonce, rating);
    if r is Ok {
        let e = RatingEntry { account: caller, nonce: nft_nonce, rating };
        assert forall|n: u64| #![trigger rating_of(s2, n)] rating_of(s2, n).total_rating
            == rating_sum_for(s2.user_ratings, n) && rating_of(s2, n).rating_count
            == rating_count_for(s2.user_ratings, n) by {
            assert(rating_of(s, n).total_rating == rating_sum_for(s.user_ratings, n));
            lemma_rating_log_push(s.user_ratings, e, n);
        }
        assert(forall|i: int|
            0 <= i < s.generations.len() ==> s.generation_wf(i) ==> s2.generation_wf(i));
        assert(forall|i: int| 0 <= i < s.listings.len() ==> s.listing_wf(i) ==> s2.listing_wf(i));
    }
}

/// Every allowed operation preserves well-formedness.
pub proof fn lemma_step_preserves_wf(s: StateView, op: Op)
    requires
        s.wf(),
        op_allowed(s, op),
    ensures
        step(s, op).wf(),
{
    match op {
        Op::Request { caller, now, description, category } => {
            lemma_request_preserves_wf(s, caller, now, description, category);
        },
        Op::Complete { caller, generation_id, code_hash, success } => {
            lemma_complete_preserves_wf(s, caller, generation_id, code_hash, success);
        },
        Op::Mint { caller, generation_id, name, payment } => {
            lemma_mint_preserves_wf(s, caller, generation_id, name, payment);
        },
        Op::List { caller, nft_nonce, escrow, price } => {
            lemma_list_preserves_wf(s, caller, nft_nonce, escrow, price);
        },
        Op::Purchase { caller, listing_id, payment } => {
            lemma_purchase_preserves_wf(s, caller, listing_id, payment);
        },
        Op::Cancel { caller, listing_id } => {
            lemma_cancel_preserves_wf(s, caller, listing_id);
        },
        Op::Rate { caller, nft_nonce, rating } => {
            lemma_rate_preserves_wf(s, caller, nft_nonce, rating);
        },
        Op::SetDailyLimit { .. } => {
            lemma_records_carry_over(s, step(s, op));
        },
        Op::SetMintingFee { .. } => {
            lemma_records_carry_over(s, step(s, op));
        },
        Op::SetTemplateTokenId { .. } => {
            lemma_records_carry_over(s, step(s, op));
        },
        Op::WithdrawFees { .. } => {
            lemma_records_carry_over(s, step(s, op));
        },
    }
}

/// The state after running a sequence of operations.
pub open spec fn run(s: StateView, ops: Seq<Op>) -> StateView
    decreases ops.len(),
{
    if ops.len() == 0 {
        s
    } else {
        run(step(s, ops[0]), ops.drop_first())
    }
}

/// Every operation of the sequence is allowed in the state it runs in.
pub open spec fn run_allowed(s: StateView, ops: Seq<Op>) -> bool
    decreases ops.len(),
{
    ops.len() == 0 || (op_allowed(s, ops[0]) && run_allowed(step(s, ops[0]), ops.drop_first()))
}

/// Well-formedness is preserved by any allowed sequence of operations.
pub proof fn lemma_run_preserves_wf(s: StateView, ops: Seq<Op>)
    requires
        s.wf(),
        run_allowed(s, ops),
    ensures
        run(s, ops).wf(),
    decreases ops.len(),
{
    if ops.len() > 0 {
        lemma_step_preserves_wf(s, ops[0]);
        lemma_run_preserves_wf(step(s, ops[0]), ops.drop_first());
    }
}

/// No operation takes a generation's token away: once `nft_nonce` is set, it
/// keeps its value for ever.
pub proof fn lemma_minted_stays_minted(s: StateView, op: Op, g: int)
    requires
        0 <= g < s.generations.len(),
        s.generations[g].nft_nonce != 0,
    ensures
        s.generations.len() <= step(s, op).generations.len(),
        step(s, op).generations[g].nft_nonce == s.generations[g].nft_nonce,
{
}

/// [`lemma_minted_stays_minted`], extended over any sequence of operations.
pub proof fn lemma_minted_stays_minted_run(s: StateView, ops: Seq<Op>, g: int)
    requires
        0 <= g < s.generations.len(),
        s.generations[g].nft_nonce != 0,
    ensures
        s.generations.len() <= run(s, ops).generations.len(),
        run(s, ops).generations[g].nft_nonce == s.generations[g].nft_nonce,
    decreases ops.len(),
{
    if ops.len() > 0 {
        lemma_minted_stays_minted(s, ops[0], g);
        lemma_minted_stays_minted_run(step(s, ops[0]), ops.drop_first(), g);
    }
}

/// At most one mint of a generation ever succeeds: after a successful mint,
/// any later attempt on the same generation fails — with `AlreadyDone`
/// whenever the fee, the status and the caller's identity would otherwise
/// pass.
pub proof fn lemma_generation_minted_at_most_once(
    s: StateView,
    caller: u64,
    generation_id: u64,
    name: Seq<u8>,
    payment: u128,
    ops: Seq<Op>,
    caller2: u64,
    name2: Seq<u8>,
    payment2: u128,
)
    requires
        s.tokens.len() + 1 < u64::MAX,
        mint_outcome(s, caller, generation_id, name, payment).1 is Ok,
    ensures
        ({
            let s1 = mint_outcome(s, caller, generation_id, name, payment).0;
            let s3 = run(s1, ops);
            let r2 = mint_outcome(s3, caller2, generation_id, name2, payment2).1;
            &&& r2 is Err
            &&& payment2 >= s3.mint_fee && s3.generations[generation_id as int].status is Completed
                && s3.generations[generation_id as int].creator == caller2 ==> r2 == Err::<
                u64,
                ContractError,
            >(ContractError::AlreadyDone)
        }),
{
    let s1 = mint_outcome(s, caller, generation_id, name, payment).0;
    lemma_minted_stays_minted_run(s1, ops, generation_id as int);
}

/// The rate limiter: a request succeeds exactly when the caller's counter
/// for the current quota day is below the limit; on success the counter for
/// that day, one on the first call of a new day, never exceeds the limit; a
/// refusal is total.
pub proof fn lemma_daily_quota(s: StateView, caller: u64, now: u64, d: Seq<u8>, c: Seq<u8>)
    requires
        s.wf(),
        s.generations.len() < u64::MAX,
    ensures
        ({
            let (s2, r) = request_outcome(s, caller, now, d, c);
            &&& r is Ok <==> effective_today(s, caller, now) < s.daily_limit
            &&& r is Ok ==> account_of(s2, caller).generations_today == effective_today(
                s,
                caller,
                now,
            ) + 1 && account_of(s2, caller).generations_today <= s.daily_limit && s2.daily_limit
                == s.daily_limit
            &&& r is Ok && spec_day_of(now) > account_of(s, caller).last_generation_day
                ==> account_of(s2, caller).generations_today == 1
            &&& r is Err ==> s2 == s && r == Err::<u64, ContractError>(
                ContractError::QuotaExceeded,
            )
        }),
{
}

/// A successful purchase deactivates the listing, hands the escrowed token
/// to the buyer, counts one more use of the token, and releases exactly two
/// transfers: the seller's payout of the price less the platform fee, then
/// the token itself.
pub proof fn lemma_purchase_effects(s: StateView, caller: u64, listing_id: u64, payment: u128)
    requires
        s.wf(),
        op_allowed(s, Op::Purchase { caller, listing_id, payment }),
        purchase_outcome(s, caller, listing_id, payment).1 is Ok,
    ensures
        ({
            let s2 = purchase_outcome(s, caller, listing_id, payment).0;
            let l = s.listings[listing_id as int];
            let fee = spec_platform_fee(l.price, s.platform_fee_bps);
            &&& !s2.listings[listing_id as int].active
            &&& token_of(s2, l.nft_nonce).holder == Holder::Account(caller)
            &&& token_of(s2, l.nft_nonce).uses == token_of(s, l.nft_nonce).uses + 1
            &&& 0 <= fee <= l.price
            &&& s2.transfers == s.transfers + seq![
                Transfer::Native { to: l.seller, amount: (l.price - fee) as u128 },
                Transfer::Token {
                    to: caller,
                    token_id: s.template_token_id,
                    nonce: l.nft_nonce,
                    amount: 1,
                },
            ]
        }),
{
    let lid = listing_id as int;
    let l = s.listings[lid];
    assert(s.listing_wf(lid));
    crate::fees::lemma_platform_fee_le_price(l.price, s.platform_fee_bps);
}

/// No operation removes a recorded rating.
pub proof fn lemma_rating_stays_recorded(s: StateView, op: Op, account: u64, nonce: u64)
    requires
        has_rating(s.user_ratings, account, nonce),
    ensures
        has_rating(step(s, op).user_ratings, account, nonce),
{
    let log = s.user_ratings;
    let log2 = step(s, op).user_ratings;
    let i = choose|i: int| 0 <= i < log.len() && log[i].account == account && log[i].nonce == nonce;
    assert(log2.len() >= log.len() && log2[i] == log[i]);
}

/// [`lemma_rating_stays_recorded`], extended over any sequence of operations.
pub proof fn lemma_rating_stays_recorded_run(s: StateView, ops: Seq<Op>, account: u64, nonce: u64)
    requires
        has_rating(s.user_ratings, account, nonce),
    ensures
        has_rating(run(s, ops).user_ratings, account, nonce),
    decreases ops.len(),
{
    if ops.len() > 0 {
        lemma_rating_stays_recorded(s, ops[0], account, nonce);
        lemma_rating_stays_recorded_run(step(s, ops[0]), ops.drop_first(), account, nonce);
    }
}

/// At most one rating is ever recorded per (account, token) pair: after a
/// successful rating, any later attempt by the same account on the same
/// nonce fails, with `AlreadyDone` whenever the value is in range.
pub proof fn lemma_rating_recorded_at_most_once(
    s: StateView,
    caller: u64,
    nft_nonce: u64,
    rating: u8,
    ops: Seq<Op>,
    rating2: u8,
)
    requires
        rate_outcome(s, caller, nft_nonce, rating).1 is Ok,
    ensures
        ({
            let s1 = rate_outcome(s, caller, nft_nonce, rating).0;
            let s3 = run(s1, ops);
            let r2 = rate_outcome(s3, caller, nft_nonce, rating2).1;
            &&& r2 is Err
            &&& 1 <= rating2 <= 5 ==> r2 == Err::<(), ContractError>(ContractError::AlreadyDone)
        }),
{
    let s1 = rate_outcome(s, caller, nft_nonce, rating).0;
    let log1 = s1.user_ratings;
    assert(log1[log1.len() - 1].account == caller && log1[log1.len() - 1].nonce == nft_nonce);
    assert(has_rating(log1, caller, nft_nonce));
    lemma_rating_stays_recorded_run(s1, ops, caller, nft_nonce);
}

/// One operation of a sequence of generation requests, all by `account` and
/// all within quota day `day`.
pub open spec fn is_same_day_request(op: Op, account: u64, day: u64) -> bool {
    match op {
        Op::Request { caller, now, .. } => caller == account && spec_day_of(now) == day,
        _ => false,
    }
}

/// Every operation of the sequence is such a request.
pub open spec fn all_same_day_requests(reqs: Seq<Op>, account: u64, day: u64) -> bool {
    forall|i: int| 0 <= i < reqs.len() ==> is_same_day_request(#[trigger] reqs[i], account, day)
}

/// How many of the requests succeed, run in order from `s`.
pub open spec fn request_successes(s: StateView, reqs: Seq<Op>) -> int
    decreases reqs.len(),
{
    if reqs.len() == 0 {
        0
    } else {
        (match reqs[0] {
            Op::Request { caller, now, description, category } => {
                if request_outcome(s, caller, now, description, category).1 is Ok {
                    1int
                } else {
                    0int
                }
            },
            _ => 0int,
        }) + request_successes(step(s, reqs[0]), reqs.drop_first())
    }
}

/// The daily quota over a whole day: however many requests an account makes
/// within one quota day, the number that succeed never exceeds what the
/// limit leaves open, and the day's counter counts exactly the successes.
pub proof fn lemma_daily_quota_over_a_day(s: StateView, account: u64, day: u64, reqs: Seq<Op>)
    requires
        all_same_day_requests(reqs, account, day),
    ensures
        run(s, reqs).daily_limit == s.daily_limit,
        effective_on_day(account_of(run(s, reqs), account), day) == effective_on_day(
            account_of(s, account),
            day,
        ) + request_successes(s, reqs),
        request_successes(s, reqs) <= if s.daily_limit >= effective_on_day(
            account_of(s, account),
            day,
        ) {
            s.daily_limit - effective_on_day(account_of(s, account), day)
        } else {
            0int
        },
    decreases reqs.len(),
{
    if reqs.len() > 0 {
        let op = reqs[0];
        assert(is_same_day_request(op, account, day));
        let s1 = step(s, op);
        lemma_daily_quota_over_a_day(s1, account, day, reqs.drop_first());
    }
}

/// An active listing escrows the one unit of a minted token with the
/// contract itself: nobody else can hold it while the offer stands.
pub proof fn lemma_active_listing_is_escrowed(s: StateView, listing_id: int)
    requires
        s.wf(),
        0 <= listing_id < s.listings.len(),
        s.listings[listing_id].active,
    ensures
        crate::state::is_minted(s, s.listings[listing_id].nft_nonce),
        token_of(s, s.listings[listing_id].nft_nonce).holder is Contract,
{
    assert(s.listing_wf(listing_id));
}

/// A generation carries a token only once it has been resolved: a `Pending`
/// generation is never minted.
pub proof fn lemma_minted_generation_is_resolved(s: StateView, generation_id: int)
    requires
        s.wf(),
        0 <= generation_id < s.generations.len(),
        s.generations[generation_id].nft_nonce != 0,
    ensures
        !(s.generations[generation_id].status is Pending),
        crate::state::is_minted(s, s.generations[generation_id].nft_nonce),
{
    assert(s.generation_wf(generation_id));
}

/// The aggregate of every token nonce is exactly the sum and the number of
/// the ratings recorded for it.
pub proof fn lemma_aggregate_matches_log(s: StateView, nonce: u64)
    requires
        s.wf(),
    ensures
        rating_of(s, nonce).total_rating == rating_sum_for(s.user_ratings, nonce),
        rating_of(s, nonce).rating_count == rating_count_for(s.user_ratings, nonce),
{
}

} // verus!
