use vstd::prelude::*;

use crate::assets::{AccountId, AssetKind};

verus! {

/// The venues that a swap can be routed through.
#[derive(Clone, Copy, Debug, PartialEq, Eq, Structural)]
pub enum AMMType {
    /// Constant-product pools of the asset-conversion engine.
    XYK,
    /// Stable-swap pools.
    Curve,
    /// Token bonding curves.
    TBC,
}

/// Why a ledger or pool engine refused to move funds.
#[derive(Clone, Copy, Debug, PartialEq, Eq, Structural)]
pub enum LedgerError {
    /// The payer holds too little.
    InsufficientBalance,
    /// The account may not send funds.
    AccountFrozen,
    /// Any other refusal.
    Rejected,
}

/// Why a venue did not execute a swap.
#[derive(Clone, Copy, Debug, PartialEq, Eq, Structural)]
pub enum VenueError {
    /// A zero input is never executed.
    ZeroAmount,
    /// The venue has no route for the pair.
    NoLiquidity,
    /// The achievable output is below the caller's minimum.
    InsufficientOutput,
    /// The settlement itself failed.
    SwapFailed(LedgerError),
}

/// Why a protocol fee could not be collected.
#[derive(Clone, Copy, Debug, PartialEq, Eq, Structural)]
pub enum FeeError {
    /// The transfer to the fee account failed.
    Transfer(LedgerError),
}

/// A liquidity venue that the router can quote and execute through.
///
/// `handles` and `quote` are what the venue answers in its current state: the
/// probes change nothing. `after_swap` is the venue's state once a swap has
/// gone through; a swap that fails changes nothing.
pub trait AMM: Sized {
    /// Whether the venue offers the pair.
    spec fn handles(&self, asset_in: AssetKind, asset_out: AssetKind) -> bool;

    /// The output the venue would give for `amount_in`, if it has a route.
    spec fn quote(&self, asset_in: AssetKind, asset_out: AssetKind, amount_in: u128) -> Option<
        u128,
    >;

    /// The venue's state after a successful swap with these arguments.
    spec fn after_swap(
        &self,
        who: AccountId,
        asset_in: AssetKind,
        asset_out: AssetKind,
        amount_in: u128,
        min_amount_out: u128,
    ) -> Self;

    /// Whether this venue can quote the pair; never for a pair of one asset.
    fn can_handle_pair(&self, asset_in: &AssetKind, asset_out: &AssetKind) -> (r: bool)
        ensures
            r == self.handles(*asset_in, *asset_out),
            *asset_in == *asset_out ==> !r,
    ;

    /// The output for `amount_in` of `asset_in`, `None` without a route; a zero
    /// input is quoted as zero.
    fn quote_price(&self, asset_in: &AssetKind, asset_out: &AssetKind, amount_in: u128) -> (r:
        Option<u128>)
        ensures
            r == self.quote(*asset_in, *asset_out, amount_in),
            amount_in == 0 ==> r == Some(0u128),
    ;

    /// Executes the swap for `who`; never with a zero input, and never for
    /// less than `min_amount_out`.
    fn execute_swap(
        &mut self,
        who: &AccountId,
        asset_in: AssetKind,
        asset_out: AssetKind,
        amount_in: u128,
        min_amount_out: u128,
    ) -> (r: Result<u128, VenueError>)
        ensures
            amount_in == 0 ==> r == Err::<u128, VenueError>(VenueError::ZeroAmount),
            r is Err ==> *final(self) == *old(self),
            r matches Ok(out) ==> out >= min_amount_out && *final(self) == old(self).after_swap(
                *who,
                asset_in,
                asset_out,
                amount_in,
                min_amount_out,
            ),
    ;

    /// A label for diagnostics.
    fn name(&self) -> &'static str;
}

/// Charges the router's protocol fee.
///
/// `after_charge` is the collector's state once a fee has been charged; a
/// charge that fails changes nothing.
pub trait FeeCollector: Sized {
    /// The collector's state after charging `amount` of `asset` to `from`.
    spec fn after_charge(&self, from: AccountId, asset: AssetKind, amount: u128) -> Self;

    /// Moves `amount` of `asset` from `from` to the fee account; a zero amount
    /// succeeds without any transfer.
    fn collect_fee(&mut self, from: &AccountId, asset: &AssetKind, amount: u128) -> (r: Result<
        (),
        FeeError,
    >)
        ensures
            amount == 0 ==> r is Ok && *final(self) == *old(self),
            r is Err ==> *final(self) == *old(self),
            amount > 0 && r is Ok ==> *final(self) == old(self).after_charge(*from, *asset, amount),
    ;
}

/// `i` holds the greatest amount of `quotes`, and every earlier quote is strictly smaller.
pub open spec fn is_first_best(quotes: Seq<(AMMType, u128)>, i: int) -> bool {
    &&& 0 <= i < quotes.len()
    &&& forall|j: int| 0 <= j < quotes.len() ==> #[trigger] quotes[j].1 <= quotes[i].1
    &&& forall|j: int| 0 <= j < i ==> #[trigger] quotes[j].1 < quotes[i].1
}

/// The venue of the greatest quote, the first one among equals; `None` for no quotes.
pub open spec fn best_price_choice(quotes: Seq<(AMMType, u128)>) -> Option<AMMType> {
    if quotes.len() == 0 {
        None
    } else {
        Some(quotes[choose|i: int| is_first_best(quotes, i)].0)
    }
}

/// At most one index is the first best.
pub proof fn lemma_first_best_unique(quotes: Seq<(AMMType, u128)>, i: int, k: int)
    requires
        is_first_best(quotes, i),
        is_first_best(quotes, k),
    ensures
        i == k,
{
    if i < k {
        assert(quotes[i].1 < quotes[k].1);
    } else if k < i {
        assert(quotes[k].1 < quotes[i].1);
    }
}

/// The index of the greatest quote, the first one among equals.
pub fn best_quote_index(quotes: &Vec<(AMMType, u128)>) -> (r: Option<usize>)
    ensures
        r is None <==> quotes@.len() == 0,
        r matches Some(i) ==> is_first_best(quotes@, i as int),
        r matches Some(i) ==> best_price_choice(quotes@) == Some(quotes@[i as int].0),
{
    if quotes.len() == 0 {
        return None;
    }
    let mut best: usize = 0;
    let mut i: usize = 1;
    while i < quotes.len()
        invariant
            0 <= best < i <= quotes@.len(),
            forall|j: int| 0 <= j < i ==> #[trigger] quotes@[j].1 <= quotes@[best as int].1,
            forall|j: int| 0 <= j < best ==> #[trigger] quotes@[j].1 < quotes@[best as int].1,
        decreases quotes@.len() - i,
    {
        if quotes[i].1 > quotes[best].1 {
            best = i;
        }
        i = i + 1;
    }
    proof {
        let c = choose|c: int| is_first_best(quotes@, c);
        assert(is_first_best(quotes@, best as int));
        lemma_first_best_unique(quotes@, c, best as int);
    }
    Some(best)
}

/// Chooses the venue to execute through from the venues' quotes.
pub trait RoutingStrategy {
    /// The venue chosen for `quotes` on the pair.
    spec fn choice(&self, quotes: Seq<(AMMType, u128)>, asset_in: AssetKind, asset_out: AssetKind) -> Option<
        AMMType,
    >;

    /// One of the quoted venues, `None` only when there is no quote.
    fn select_best_amm(
        &self,
        quotes: Vec<(AMMType, u128)>,
        asset_in: &AssetKind,
        asset_out: &AssetKind,
    ) -> (r: Option<AMMType>)
        ensures
            r == self.choice(quotes@, *asset_in, *asset_out),
            r is None <==> quotes@.len() == 0,
            r matches Some(v) ==> exists|i: int| 0 <= i < quotes@.len() && quotes@[i].0 == v,
    ;
}

/// Routes to the greatest quote.
pub struct BestPriceStrategy;

impl RoutingStrategy for BestPriceStrategy {
    open spec fn choice(
        &self,
        quotes: Seq<(AMMType, u128)>,
        asset_in: AssetKind,
        asset_out: AssetKind,
    ) -> Option<AMMType> {
        best_price_choice(quotes)
    }

    fn select_best_amm(
        &self,
        quotes: Vec<(AMMType, u128)>,
        asset_in: &AssetKind,
        asset_out: &AssetKind,
    ) -> (r: Option<AMMType>) {
        match best_quote_index(&quotes) {
            None => None,
            Some(i) => Some(quotes[i].0),
        }
    }
}

/// The best-price choice: no venue without quotes, and otherwise the venue of
/// a quote that no other exceeds and that every earlier quote falls short of.
pub proof fn lemma_best_price_choice(quotes: Seq<(AMMType, u128)>)
    ensures
        quotes.len() == 0 ==> best_price_choice(quotes) is None,
        quotes.len() == 1 ==> best_price_choice(quotes) == Some(quotes[0].0),
        quotes.len() > 0 ==> exists|i: int|
            #[trigger] is_first_best(quotes, i) && best_price_choice(quotes) == Some(quotes[i].0),
{
    if quotes.len() > 0 {
        let best = lemma_first_best_exists(quotes);
        let c = choose|c: int| is_first_best(quotes, c);
        lemma_first_best_unique(quotes, c, best);
    }
}

/// A non-empty sequence of quotes has a first best.
proof fn lemma_first_best_exists(quotes: Seq<(AMMType, u128)>) -> (best: int)
    requires
        quotes.len() > 0,
    ensures
        is_first_best(quotes, best),
    decreases quotes.len(),
{
    if quotes.len() == 1 {
        0
    } else {
        let front = quotes.drop_last();
        let i = lemma_first_best_exists(front);
        assert(forall|j: int| 0 <= j < front.len() ==> #[trigger] front[j] == quotes[j]);
        if quotes.last().1 > quotes[i].1 {
            let n = quotes.len() - 1;
            assert forall|j: int| 0 <= j < quotes.len() implies #[trigger] quotes[j].1 <= quotes[n].1 by {
                if j < n {
                    assert(front[j].1 <= front[i].1);
                }
            }
            assert forall|j: int| 0 <= j < n implies #[trigger] quotes[j].1 < quotes[n].1 by {
                assert(front[j].1 <= front[i].1);
            }
            n
        } else {
            assert forall|j: int| 0 <= j < quotes.len() implies #[trigger] quotes[j].1 <= quotes[i].1 by {
                if j < quotes.len() - 1 {
                    assert(front[j].1 <= front[i].1);
                }
            }
            assert forall|j: int| 0 <= j < i implies #[trigger] quotes[j].1 < quotes[i].1 by {
                assert(front[j].1 < front[i].1);
            }
            i
        }
    }
}

} // verus!
