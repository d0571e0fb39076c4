use vstd::prelude::*;

use crate::adapters::{AssetConversion, Ledger, engine_precheck, fee_transfer_result, settle};
use crate::assets::{AccountId, AssetKind};
use crate::fee::lemma_mul_div_split;
use crate::traits::{
    AMM,
    AMMType,
    FeeCollector,
    FeeError,
    RoutingStrategy,
    VenueError,
    best_price_choice,
    best_quote_index,
    is_first_best,
    lemma_first_best_unique,
};

verus! {

/// Whether `asset` is one of `assets`.
pub fn contains_asset(assets: &Vec<AssetKind>, asset: &AssetKind) -> (r: bool)
    ensures
        r == assets@.contains(*asset),
{
    let mut i: usize = 0;
    while i < assets.len()
        invariant
            0 <= i <= assets@.len(),
            forall|j: int| 0 <= j < i ==> assets@[j] != *asset,
        decreases assets@.len() - i,
    {
        if assets[i] == *asset {
            assert(assets@[i as int] == *asset);
            return true;
        }
        i = i + 1;
    }
    false
}

/// The amount the XYK venues probe a pair with.
pub const ENHANCED_PROBE_AMOUNT: u128 = 1000;

/// The constant-product venue, probing pairs with a larger amount so that
/// pools too shallow to serve it are passed over.
pub struct EnhancedXYKAdapter<E> {
    engine: E,
}

impl<E> EnhancedXYKAdapter<E> {
    /// An adapter over `engine`.
    pub fn new(engine: E) -> (r: EnhancedXYKAdapter<E>)
        ensures
            r.engine() == engine,
    {
        EnhancedXYKAdapter { engine }
    }

    /// The engine that this adapter settles through.
    pub closed spec fn engine(&self) -> E {
        self.engine
    }
}

impl<E: AssetConversion> AMM for EnhancedXYKAdapter<E> {
    open spec fn handles(&self, asset_in: AssetKind, asset_out: AssetKind) -> bool {
        asset_in != asset_out && self.engine().pool_quote(
            asset_in,
            asset_out,
            ENHANCED_PROBE_AMOUNT,
            true,
        ) is Some
    }

    open spec fn quote(&self, asset_in: AssetKind, asset_out: AssetKind, amount_in: u128) -> Option<
        u128,
    > {
        if amount_in == 0 {
            Some(0)
        } else {
            self.engine().pool_quote(asset_in, asset_out, amount_in, true)
        }
    }

    closed spec fn after_swap(
        &self,
        who: AccountId,
        asset_in: AssetKind,
        asset_out: AssetKind,
        amount_in: u128,
        min_amount_out: u128,
    ) -> EnhancedXYKAdapter<E> {
        EnhancedXYKAdapter {
            engine: self.engine.after_swap(
                who,
                asset_in,
                asset_out,
                amount_in,
                min_amount_out,
                who,
                false,
            ),
        }
    }

    fn can_handle_pair(&self, asset_in: &AssetKind, asset_out: &AssetKind) -> (r: bool) {
        if *asset_in == *asset_out {
            return false;
        }
        self.engine.quote_price_exact_tokens_for_tokens(
            *asset_in,
            *asset_out,
            ENHANCED_PROBE_AMOUNT,
            true,
        ).is_some()
    }

    fn quote_price(&self, asset_in: &AssetKind, asset_out: &AssetKind, amount_in: u128) -> (r:
        Option<u128>) {
        if amount_in == 0 {
            return Some(0);
        }
        self.engine.quote_price_exact_tokens_for_tokens(*asset_in, *asset_out, amount_in, true)
    }

    fn execute_swap(
        &mut self,
        who: &AccountId,
        asset_in: AssetKind,
        asset_out: AssetKind,
        amount_in: u128,
        min_amount_out: u128,
    ) -> (r: Result<u128, VenueError>)
        ensures
            engine_precheck(old(self).quote(asset_in, asset_out, amount_in), amount_in, min_amount_out)
                matches Some(e) ==> r == Err::<u128, VenueError>(e),
            engine_precheck(old(self).quote(asset_in, asset_out, amount_in), amount_in, min_amount_out)
                is None ==> (r is Ok || r matches Err(VenueError::SwapFailed(_))),
            r is Ok ==> final(self).engine() == old(self).engine().after_swap(
                *who,
                asset_in,
                asset_out,
                amount_in,
                min_amount_out,
                *who,
                false,
            ),
    {
        if amount_in == 0 {
            return Err(VenueError::ZeroAmount);
        }
        let quote = match self.quote_price(&asset_in, &asset_out, amount_in) {
            None => return Err(VenueError::NoLiquidity),
            Some(q) => q,
        };
        if quote < min_amount_out {
            return Err(VenueError::InsufficientOutput);
        }
        let path = vec![asset_in, asset_out];
        let outcome = self.engine.swap_exact_tokens_for_tokens(
            who,
            path,
            amount_in,
            min_amount_out,
            who,
            false,
        );
        settle(outcome)
    }

    fn name(&self) -> &'static str {
        "EnhancedXYK"
    }
}

/// What an example venue, which settles nothing itself, returns for a swap.
pub open spec fn example_execute(
    handles: bool,
    quote: Option<u128>,
    amount_in: u128,
    min_amount_out: u128,
) -> Result<u128, VenueError> {
    if amount_in == 0 {
        Err(VenueError::ZeroAmount)
    } else if !handles {
        Err(VenueError::NoLiquidity)
    } else {
        match quote {
            None => Err(VenueError::NoLiquidity),
            Some(q) => if q >= min_amount_out {
                Ok(q)
            } else {
                Err(VenueError::InsufficientOutput)
            },
        }
    }
}

/// Output per unit of input of the example bonding curve, over `TBC_SCALE`.
pub const TBC_BASE_RATE: u128 = 1000;

/// The example bonding curve's factor, over `TBC_SCALE` together with the base rate.
pub const TBC_CURVE_FACTOR: u128 = 1000;

/// The divisor of the example bonding curve's price.
pub const TBC_SCALE: u128 = 1_000_000;

/// The example bonding curve's quote: the input scaled by base rate and
/// factor, none where that product does not fit.
pub open spec fn tbc_quote(amount_in: u128) -> Option<u128> {
    if amount_in == 0 {
        Some(0)
    } else if amount_in * TBC_BASE_RATE * TBC_CURVE_FACTOR > u128::MAX {
        None
    } else {
        Some(((amount_in * TBC_BASE_RATE * TBC_CURVE_FACTOR) / (TBC_SCALE as int)) as u128)
    }
}

/// An example token-bonding-curve venue: it serves pairs touching one of its
/// curve assets at a fixed illustrative price, and settles nothing itself.
pub struct TBCAdapter {
    bonding_assets: Vec<AssetKind>,
}

impl TBCAdapter {
    /// A venue with bonding curves for `bonding_assets`.
    pub fn new(bonding_assets: Vec<AssetKind>) -> (r: TBCAdapter)
        ensures
            r.bonding_assets() == bonding_assets@,
    {
        TBCAdapter { bonding_assets }
    }

    /// The assets that have a bonding curve.
    pub closed spec fn bonding_assets(&self) -> Seq<AssetKind> {
        self.bonding_assets@
    }

    /// Whether `asset` has a bonding curve.
    pub fn is_bonding_curve_asset(&self, asset: &AssetKind) -> (r: bool)
        ensures
            r == self.bonding_assets().contains(*asset),
    {
        contains_asset(&self.bonding_assets, asset)
    }

    /// The curve factor for the pair.
    pub fn calculate_curve_factor(&self, asset_in: &AssetKind, asset_out: &AssetKind) -> (r: u128)
        ensures
            r == TBC_CURVE_FACTOR,
    {
        TBC_CURVE_FACTOR
    }
}

impl AMM for TBCAdapter {
    open spec fn handles(&self, asset_in: AssetKind, asset_out: AssetKind) -> bool {
        asset_in != asset_out && (self.bonding_assets().contains(asset_in)
            || self.bonding_assets().contains(asset_out))
    }

    open spec fn quote(&self, asset_in: AssetKind, asset_out: AssetKind, amount_in: u128) -> Option<
        u128,
    > {
        tbc_quote(amount_in)
    }

    open spec fn after_swap(
        &self,
        who: AccountId,
        asset_in: AssetKind,
        asset_out: AssetKind,
        amount_in: u128,
        min_amount_out: u128,
    ) -> TBCAdapter {
        *self
    }

    fn can_handle_pair(&self, asset_in: &AssetKind, asset_out: &AssetKind) -> (r: bool) {
        if *asset_in == *asset_out {
            return false;
        }
        self.is_bonding_curve_asset(asset_in) || self.is_bonding_curve_asset(asset_out)
    }

    fn quote_price(&self, asset_in: &AssetKind, asset_out: &AssetKind, amount_in: u128) -> (r:
        Option<u128>) {
        if amount_in == 0 {
            return Some(0);
        }
        let factor = self.calculate_curve_factor(asset_in, asset_out);
        match amount_in.checked_mul(TBC_BASE_RATE) {
            None => {
                assert(amount_in * TBC_BASE_RATE * TBC_CURVE_FACTOR > u128::MAX) by (nonlinear_arith)
                    requires
                        amount_in * TBC_BASE_RATE > u128::MAX,
                ;
                None
            },
            Some(scaled) => match scaled.checked_mul(factor) {
                None => None,
                Some(product) => Some(product / TBC_SCALE),
            },
        }
    }

    fn execute_swap(
        &mut self,
        who: &AccountId,
        asset_in: AssetKind,
        asset_out: AssetKind,
        amount_in: u128,
        min_amount_out: u128,
    ) -> (r: Result<u128, VenueError>)
        ensures
            *final(self) == *old(self),
            r == example_execute(
                old(self).handles(asset_in, asset_out),
                tbc_quote(amount_in),
                amount_in,
                min_amount_out,
            ),
    {
        if amount_in == 0 {
            return Err(VenueError::ZeroAmount);
        }
        if !self.can_handle_pair(&asset_in, &asset_out) {
            return Err(VenueError::NoLiquidity);
        }
        let quote = match self.quote_price(&asset_in, &asset_out, amount_in) {
            None => return Err(VenueError::NoLiquidity),
            Some(q) => q,
        };
        if quote < min_amount_out {
            return Err(VenueError::InsufficientOutput);
        }
        Ok(quote)
    }

    fn name(&self) -> &'static str {
        "TBC"
    }
}

/// The example stable-swap rate, in parts of `CURVE_SCALE`.
pub const CURVE_STABLE_RATE: u128 = 9950;

/// The divisor of the example stable-swap rate.
pub const CURVE_SCALE: u128 = 10000;

/// The example stable-swap quote: the input at the stable rate, none where
/// the product does not fit.
pub open spec fn curve_quote(amount_in: u128) -> Option<u128> {
    if amount_in == 0 {
        Some(0)
    } else if amount_in * CURVE_STABLE_RATE > u128::MAX {
        None
    } else {
        Some(((amount_in * CURVE_STABLE_RATE) / (CURVE_SCALE as int)) as u128)
    }
}

/// An example stable-swap venue: it serves pairs of two distinct stable assets
/// at a fixed illustrative rate, and settles nothing itself.
pub struct CurveAdapter {
    stable_assets: Vec<AssetKind>,
}

impl CurveAdapter {
    /// A venue with pools between any two of `stable_assets`.
    pub fn new(stable_assets: Vec<AssetKind>) -> (r: CurveAdapter)
        ensures
            r.stable_assets() == stable_assets@,
    {
        CurveAdapter { stable_assets }
    }

    /// The stable assets.
    pub closed spec fn stable_assets(&self) -> Seq<AssetKind> {
        self.stable_assets@
    }

    /// Whether both assets are stable assets.
    pub fn is_stable_coin_pair(&self, asset_in: &AssetKind, asset_out: &AssetKind) -> (r: bool)
        ensures
            r == (self.stable_assets().contains(*asset_in) && self.stable_assets().contains(
                *asset_out,
            )),
    {
        contains_asset(&self.stable_assets, asset_in) && contains_asset(
            &self.stable_assets,
            asset_out,
        )
    }

    /// Whether a pool joins the two assets: one does for any two distinct stable assets.
    pub fn has_curve_pool(&self, asset_in: &AssetKind, asset_out: &AssetKind) -> (r: bool)
        ensures
            r == (*asset_in != *asset_out),
    {
        *asset_in != *asset_out
    }
}

impl AMM for CurveAdapter {
    open spec fn handles(&self, asset_in: AssetKind, asset_out: AssetKind) -> bool {
        asset_in != asset_out && self.stable_assets().contains(asset_in)
            && self.stable_assets().contains(asset_out)
    }

    open spec fn quote(&self, asset_in: AssetKind, asset_out: AssetKind, amount_in: u128) -> Option<
        u128,
    > {
        curve_quote(amount_in)
    }

    open spec fn after_swap(
        &self,
        who: AccountId,
        asset_in: AssetKind,
        asset_out: AssetKind,
        amount_in: u128,
        min_amount_out: u128,
    ) -> CurveAdapter {
        *self
    }

    fn can_handle_pair(&self, asset_in: &AssetKind, asset_out: &AssetKind) -> (r: bool) {
        self.is_stable_coin_pair(asset_in, asset_out) && self.has_curve_pool(asset_in, asset_out)
    }

    fn quote_price(&self, asset_in: &AssetKind, asset_out: &AssetKind, amount_in: u128) -> (r:
        Option<u128>) {
        if amount_in == 0 {
            return Some(0);
        }
        match amount_in.checked_mul(CURVE_STABLE_RATE) {
            None => None,
            Some(product) => Some(product / CURVE_SCALE),
        }
    }

    fn execute_swap(
        &mut self,
        who: &AccountId,
        asset_in: AssetKind,
        asset_out: AssetKind,
        amount_in: u128,
        min_amount_out: u128,
    ) -> (r: Result<u128, VenueError>)
        ensures
            *final(self) == *old(self),
            r == example_execute(
                old(self).handles(asset_in, asset_out),
                curve_quote(amount_in),
                amount_in,
                min_amount_out,
            ),
    {
        if amount_in == 0 {
            return Err(VenueError::ZeroAmount);
        }
        if !self.can_handle_pair(&asset_in, &asset_out) {
            return Err(VenueError::NoLiquidity);
        }
        let quote = match self.quote_price(&asset_in, &asset_out, amount_in) {
            None => return Err(VenueError::NoLiquidity),
            Some(q) => q,
        };
        if quote < min_amount_out {
            return Err(VenueError::InsufficientOutput);
        }
        Ok(quote)
    }

    fn name(&self) -> &'static str {
        "Curve"
    }
}

/// The quote a venue contributes: one entry when it serves the pair and quotes
/// the amount, none otherwise.
pub open spec fn offer(venue: AMMType, handles: bool, quote: Option<u128>) -> Seq<(AMMType, u128)> {
    if handles && quote is Some {
        seq![(venue, quote->Some_0)]
    } else {
        Seq::empty()
    }
}

/// What a venue quotes when asked only if it serves the pair.
fn offer_of<A: AMM>(adapter: &A, asset_in: &AssetKind, asset_out: &AssetKind, amount_in: u128) -> (r:
    Option<u128>)
    ensures
        r == (if adapter.handles(*asset_in, *asset_out) {
            adapter.quote(*asset_in, *asset_out, amount_in)
        } else {
            None
        }),
{
    if adapter.can_handle_pair(asset_in, asset_out) {
        adapter.quote_price(asset_in, asset_out, amount_in)
    } else {
        None
    }
}

/// Asks every configured venue for a quote and lets a routing strategy pick one.
pub struct MultiAMMManager<E, S> {
    xyk: EnhancedXYKAdapter<E>,
    curve: CurveAdapter,
    tbc: TBCAdapter,
    strategy: S,
}

impl<E: AssetConversion, S: RoutingStrategy> MultiAMMManager<E, S> {
    /// A manager over the three venues, choosing by `strategy`.
    pub fn new(xyk: EnhancedXYKAdapter<E>, curve: CurveAdapter, tbc: TBCAdapter, strategy: S) -> (r:
        MultiAMMManager<E, S>)
        ensures
            r.xyk() == xyk,
            r.curve() == curve,
            r.tbc() == tbc,
            r.strategy() == strategy,
    {
        MultiAMMManager { xyk, curve, tbc, strategy }
    }

    /// The constant-product venue.
    pub closed spec fn xyk(&self) -> EnhancedXYKAdapter<E> {
        self.xyk
    }

    /// The stable-swap venue.
    pub closed spec fn curve(&self) -> CurveAdapter {
        self.curve
    }

    /// The bonding-curve venue.
    pub closed spec fn tbc(&self) -> TBCAdapter {
        self.tbc
    }

    /// The routing strategy.
    pub closed spec fn strategy(&self) -> S {
        self.strategy
    }

    /// What `venue` quotes for the amount, whether or not it serves the pair.
    pub open spec fn venue_quote(&self, venue: AMMType, asset_in: AssetKind, asset_out: AssetKind, amount_in: u128) -> Option<
        u128,
    > {
        match venue {
            AMMType::XYK => self.xyk().quote(asset_in, asset_out, amount_in),
            AMMType::Curve => self.curve().quote(asset_in, asset_out, amount_in),
            AMMType::TBC => self.tbc().quote(asset_in, asset_out, amount_in),
        }
    }

    /// Whether `venue` serves the pair.
    pub open spec fn venue_handles(&self, venue: AMMType, asset_in: AssetKind, asset_out: AssetKind) -> bool {
        match venue {
            AMMType::XYK => self.xyk().handles(asset_in, asset_out),
            AMMType::Curve => self.curve().handles(asset_in, asset_out),
            AMMType::TBC => self.tbc().handles(asset_in, asset_out),
        }
    }

    /// The quote `venue` contributes.
    pub open spec fn venue_offer(&self, venue: AMMType, asset_in: AssetKind, asset_out: AssetKind, amount_in: u128) -> Seq<
        (AMMType, u128),
    > {
        offer(
            venue,
            self.venue_handles(venue, asset_in, asset_out),
            self.venue_quote(venue, asset_in, asset_out, amount_in),
        )
    }

    /// The quotes gathered, in the order XYK, Curve, TBC.
    pub open spec fn quotes(&self, asset_in: AssetKind, asset_out: AssetKind, amount_in: u128) -> Seq<
        (AMMType, u128),
    > {
        self.venue_offer(AMMType::XYK, asset_in, asset_out, amount_in) + self.venue_offer(
            AMMType::Curve,
            asset_in,
            asset_out,
            amount_in,
        ) + self.venue_offer(AMMType::TBC, asset_in, asset_out, amount_in)
    }

    /// The strategy's venue for the gathered quotes, with its quote.
    pub open spec fn best_quote(&self, asset_in: AssetKind, asset_out: AssetKind, amount_in: u128) -> Option<
        (u128, AMMType),
    > {
        match self.strategy().choice(self.quotes(asset_in, asset_out, amount_in), asset_in, asset_out) {
            None => None,
            Some(v) => Some((self.venue_offer(v, asset_in, asset_out, amount_in)[0].1, v)),
        }
    }

    /// Every gathered quote comes from a venue that serves the pair.
    pub proof fn lemma_quoted_venue_handles(
        &self,
        asset_in: AssetKind,
        asset_out: AssetKind,
        amount_in: u128,
        k: int,
    )
        requires
            0 <= k < self.quotes(asset_in, asset_out, amount_in).len(),
        ensures
            self.venue_handles(self.quotes(asset_in, asset_out, amount_in)[k].0, asset_in, asset_out),
            self.venue_quote(self.quotes(asset_in, asset_out, amount_in)[k].0, asset_in, asset_out, amount_in)
                == Some(self.quotes(asset_in, asset_out, amount_in)[k].1),
    {
        let x = self.venue_offer(AMMType::XYK, asset_in, asset_out, amount_in);
        let c = self.venue_offer(AMMType::Curve, asset_in, asset_out, amount_in);
        let t = self.venue_offer(AMMType::TBC, asset_in, asset_out, amount_in);
        let quotes = self.quotes(asset_in, asset_out, amount_in);
        assert(quotes == x + c + t);
        if k < x.len() {
            assert(quotes[k] == x[k]);
        } else if k < x.len() + c.len() {
            assert(quotes[k] == c[k - x.len()]);
        } else {
            assert(quotes[k] == t[k - x.len() - c.len()]);
        }
    }

    /// The winning quote and its venue; `None` when no venue quotes the pair.
    pub fn get_best_quote(&self, asset_in: &AssetKind, asset_out: &AssetKind, amount_in: u128) -> (r:
        Option<(u128, AMMType)>)
        ensures
            r == self.best_quote(*asset_in, *asset_out, amount_in),
            r is None <==> self.quotes(*asset_in, *asset_out, amount_in).len() == 0,
            r matches Some((q, v)) ==> self.quotes(*asset_in, *asset_out, amount_in).contains((v, q)),
            *asset_in == *asset_out ==> r is None,
    {
        let ghost a = *asset_in;
        let ghost b = *asset_out;
        let xq = offer_of(&self.xyk, asset_in, asset_out, amount_in);
        let cq = offer_of(&self.curve, asset_in, asset_out, amount_in);
        let tq = offer_of(&self.tbc, asset_in, asset_out, amount_in);
        let mut quotes: Vec<(AMMType, u128)> = Vec::new();
        if let Some(q) = xq {
            quotes.push((AMMType::XYK, q));
        }
        let ghost after_xyk = quotes@;
        if let Some(q) = cq {
            quotes.push((AMMType::Curve, q));
        }
        let ghost after_curve = quotes@;
        if let Some(q) = tq {
            quotes.push((AMMType::TBC, q));
        }
        let ghost all = quotes@;
        assert(after_xyk =~= self.venue_offer(AMMType::XYK, a, b, amount_in));
        assert(after_curve =~= after_xyk + self.venue_offer(AMMType::Curve, a, b, amount_in));
        assert(all =~= after_curve + self.venue_offer(AMMType::TBC, a, b, amount_in));
        assert(all =~= self.quotes(a, b, amount_in));
        let choice = self.strategy.select_best_amm(quotes, asset_in, asset_out);
        match choice {
            None => None,
            Some(v) => {
                let chosen = match v {
                    AMMType::XYK => xq,
                    AMMType::Curve => cq,
                    AMMType::TBC => tq,
                };
                proof {
                    let i = choose|i: int| 0 <= i < all.len() && all[i].0 == v;
                    assert(chosen is Some);
                }
                match chosen {
                    Some(q) => {
                        proof {
                            assert(self.venue_offer(v, a, b, amount_in) =~= seq![(v, q)]);
                            let k: int = if v == AMMType::XYK {
                                0
                            } else if v == AMMType::Curve {
                                after_xyk.len() as int
                            } else {
                                after_curve.len() as int
                            };
                            assert(all[k] == (v, q));
                        }
                        Some((q, v))
                    },
                    None => None,
                }
            },
        }
    }

    /// The manager's state after a successful swap through `venue`.
    pub closed spec fn after_execute(
        &self,
        venue: AMMType,
        who: AccountId,
        asset_in: AssetKind,
        asset_out: AssetKind,
        amount_in: u128,
        min_amount_out: u128,
    ) -> MultiAMMManager<E, S> {
        match venue {
            AMMType::XYK => MultiAMMManager {
                xyk: self.xyk.after_swap(who, asset_in, asset_out, amount_in, min_amount_out),
                ..*self
            },
            AMMType::Curve => MultiAMMManager {
                curve: self.curve.after_swap(who, asset_in, asset_out, amount_in, min_amount_out),
                ..*self
            },
            AMMType::TBC => MultiAMMManager {
                tbc: self.tbc.after_swap(who, asset_in, asset_out, amount_in, min_amount_out),
                ..*self
            },
        }
    }

    /// Whether `venue` serves the pair.
    pub fn venue_can_handle(&self, venue: AMMType, asset_in: &AssetKind, asset_out: &AssetKind) -> (r:
        bool)
        ensures
            r == self.venue_handles(venue, *asset_in, *asset_out),
    {
        match venue {
            AMMType::XYK => self.xyk.can_handle_pair(asset_in, asset_out),
            AMMType::Curve => self.curve.can_handle_pair(asset_in, asset_out),
            AMMType::TBC => self.tbc.can_handle_pair(asset_in, asset_out),
        }
    }

    /// Executes through `amm_type`, the venue that won the quote.
    pub fn execute_swap(
        &mut self,
        amm_type: AMMType,
        who: &AccountId,
        asset_in: AssetKind,
        asset_out: AssetKind,
        amount_in: u128,
        min_amount_out: u128,
    ) -> (r: Result<u128, VenueError>)
        ensures
            amount_in == 0 ==> r == Err::<u128, VenueError>(VenueError::ZeroAmount),
            r matches Ok(out) ==> out >= min_amount_out,
            r is Err ==> *final(self) == *old(self),
            r is Ok ==> *final(self) == old(self).after_execute(
                amm_type,
                *who,
                asset_in,
                asset_out,
                amount_in,
                min_amount_out,
            ),
            amm_type != AMMType::XYK ==> r == example_execute(
                old(self).venue_handles(amm_type, asset_in, asset_out),
                old(self).venue_quote(amm_type, asset_in, asset_out, amount_in),
                amount_in,
                min_amount_out,
            ),
            amm_type == AMMType::XYK ==> (engine_precheck(
                old(self).venue_quote(amm_type, asset_in, asset_out, amount_in),
                amount_in,
                min_amount_out,
            ) matches Some(e) ==> r == Err::<u128, VenueError>(e)),
            amm_type == AMMType::XYK ==> (engine_precheck(
                old(self).venue_quote(amm_type, asset_in, asset_out, amount_in),
                amount_in,
                min_amount_out,
            ) is None ==> (r is Ok || r matches Err(VenueError::SwapFailed(_)))),
            final(self).strategy() == old(self).strategy(),
            amm_type != AMMType::XYK ==> final(self).xyk() == old(self).xyk(),
            amm_type != AMMType::Curve ==> final(self).curve() == old(self).curve(),
            amm_type != AMMType::TBC ==> final(self).tbc() == old(self).tbc(),
    {
        match amm_type {
            AMMType::XYK => self.xyk.execute_swap(who, asset_in, asset_out, amount_in, min_amount_out),
            AMMType::Curve => self.curve.execute_swap(
                who,
                asset_in,
                asset_out,
                amount_in,
                min_amount_out,
            ),
            AMMType::TBC => self.tbc.execute_swap(who, asset_in, asset_out, amount_in, min_amount_out),
        }
    }
}

/// `i` is the first quote from `venue`.
pub open spec fn is_first_of(quotes: Seq<(AMMType, u128)>, venue: AMMType, i: int) -> bool {
    &&& 0 <= i < quotes.len()
    &&& quotes[i].0 == venue
    &&& forall|j: int| 0 <= j < i ==> #[trigger] quotes[j].0 != venue
}

/// Some quote comes from `venue`.
pub open spec fn has_venue(quotes: Seq<(AMMType, u128)>, venue: AMMType) -> bool {
    exists|i: int| 0 <= i < quotes.len() && #[trigger] quotes[i].0 == venue
}

/// The greatest amount among `quotes`.
pub open spec fn best_amount(quotes: Seq<(AMMType, u128)>) -> u128 {
    quotes[choose|i: int| is_first_best(quotes, i)].1
}

/// The share of the best quote, in percent, that a preferred stable-swap
/// quote must reach.
pub const STABLE_TOLERANCE_PERCENT: u128 = 99;

/// The least amount within the tolerance band of `best`, rounded down.
pub open spec fn tolerance_floor(best: u128) -> int {
    (best * STABLE_TOLERANCE_PERCENT) / 100
}

/// The first stable-swap quote lies within the tolerance band of the best quote.
pub open spec fn stable_quote_within_band(quotes: Seq<(AMMType, u128)>) -> bool {
    exists|i: int|
        #[trigger] is_first_of(quotes, AMMType::Curve, i) && quotes[i].1 >= tolerance_floor(
            best_amount(quotes),
        )
}

/// The policy-aware choice: none without quotes; the bonding curve when the
/// pair touches a new asset and it quoted; the stable swap for a stable pair
/// when its quote is within the tolerance band; the best price otherwise.
pub open spec fn smart_choice(
    quotes: Seq<(AMMType, u128)>,
    stable_pair: bool,
    new_token: bool,
) -> Option<AMMType> {
    if quotes.len() == 0 {
        None
    } else if new_token && has_venue(quotes, AMMType::TBC) {
        Some(AMMType::TBC)
    } else if stable_pair && stable_quote_within_band(quotes) {
        Some(AMMType::Curve)
    } else {
        best_price_choice(quotes)
    }
}

/// The first quote from `venue`, if any.
pub fn find_venue(quotes: &Vec<(AMMType, u128)>, venue: AMMType) -> (r: Option<usize>)
    ensures
        r is None <==> !has_venue(quotes@, venue),
        r matches Some(i) ==> is_first_of(quotes@, venue, i as int),
{
    let mut i: usize = 0;
    while i < quotes.len()
        invariant
            0 <= i <= quotes@.len(),
            forall|j: int| 0 <= j < i ==> #[trigger] quotes@[j].0 != venue,
        decreases quotes@.len() - i,
    {
        if quotes[i].0 == venue {
            return Some(i);
        }
        i = i + 1;
    }
    None
}

/// The least amount within the tolerance band of `best`.
pub fn tolerance_threshold(best: u128) -> (r: u128)
    ensures
        r == tolerance_floor(best),
{
    proof {
        lemma_mul_div_split(best as nat, STABLE_TOLERANCE_PERCENT as nat, 100);
    }
    let high: u128 = (best / 100) * STABLE_TOLERANCE_PERCENT;
    let low: u128 = ((best % 100) * STABLE_TOLERANCE_PERCENT) / 100;
    high + low
}

/// Routes by asset class first and by price second.
pub struct SmartRoutingStrategy {
    stable_assets: Vec<AssetKind>,
    new_assets: Vec<AssetKind>,
}

impl SmartRoutingStrategy {
    /// A strategy that treats `stable_assets` as stable assets and `new_assets`
    /// as newly listed ones.
    pub fn new(stable_assets: Vec<AssetKind>, new_assets: Vec<AssetKind>) -> (r:
        SmartRoutingStrategy)
        ensures
            r.stable_assets() == stable_assets@,
            r.new_assets() == new_assets@,
    {
        SmartRoutingStrategy { stable_assets, new_assets }
    }

    /// The stable assets.
    pub closed spec fn stable_assets(&self) -> Seq<AssetKind> {
        self.stable_assets@
    }

    /// The newly listed assets.
    pub closed spec fn new_assets(&self) -> Seq<AssetKind> {
        self.new_assets@
    }

    /// Whether both assets are stable assets.
    pub fn is_stable_coin_pair(&self, asset_in: &AssetKind, asset_out: &AssetKind) -> (r: bool)
        ensures
            r == (self.stable_assets().contains(*asset_in) && self.stable_assets().contains(
                *asset_out,
            )),
    {
        contains_asset(&self.stable_assets, asset_in) && contains_asset(
            &self.stable_assets,
            asset_out,
        )
    }

    /// Whether `asset` is newly listed.
    pub fn is_new_token(&self, asset: &AssetKind) -> (r: bool)
        ensures
            r == self.new_assets().contains(*asset),
    {
        contains_asset(&self.new_assets, asset)
    }
}

/// The first quote from a venue is unique.
proof fn lemma_first_of_unique(quotes: Seq<(AMMType, u128)>, venue: AMMType, i: int, k: int)
    requires
        is_first_of(quotes, venue, i),
        is_first_of(quotes, venue, k),
    ensures
        i == k,
{
    if i < k {
        assert(quotes[i].0 != venue);
    } else if k < i {
        assert(quotes[k].0 != venue);
    }
}

impl RoutingStrategy for SmartRoutingStrategy {
    open spec fn choice(
        &self,
        quotes: Seq<(AMMType, u128)>,
        asset_in: AssetKind,
        asset_out: AssetKind,
    ) -> Option<AMMType> {
        smart_choice(
            quotes,
            self.stable_assets().contains(asset_in) && self.stable_assets().contains(asset_out),
            self.new_assets().contains(asset_in) || self.new_assets().contains(asset_out),
        )
    }

    fn select_best_amm(
        &self,
        quotes: Vec<(AMMType, u128)>,
        asset_in: &AssetKind,
        asset_out: &AssetKind,
    ) -> (r: Option<AMMType>) {
        let best_index = match best_quote_index(&quotes) {
            None => return None,
            Some(i) => i,
        };
        let is_stable_pair = self.is_stable_coin_pair(asset_in, asset_out);
        let is_new_token = self.is_new_token(asset_in) || self.is_new_token(asset_out);
        if is_new_token {
            if let Some(t) = find_venue(&quotes, AMMType::TBC) {
                return Some(AMMType::TBC);
            }
        }
        if is_stable_pair {
            if let Some(c) = find_venue(&quotes, AMMType::Curve) {
                let threshold = tolerance_threshold(quotes[best_index].1);
                proof {
                    let b = choose|i: int| is_first_best(quotes@, i);
                    lemma_first_best_unique(quotes@, b, best_index as int);
                    assert(best_amount(quotes@) == quotes@[best_index as int].1);
                }
                if quotes[c].1 >= threshold {
                    assert(is_first_of(quotes@, AMMType::Curve, c as int));
                    return Some(AMMType::Curve);
                }
                proof {
                    if stable_quote_within_band(quotes@) {
                        let k = choose|k: int|
                            #[trigger] is_first_of(quotes@, AMMType::Curve, k) && quotes@[k].1
                                >= tolerance_floor(best_amount(quotes@));
                        lemma_first_of_unique(quotes@, AMMType::Curve, k, c as int);
                    }
                }
            }
        }
        Some(quotes[best_index].0)
    }
}

/// How the enhanced collector sizes the fee it transfers.
#[derive(Clone, Copy, Debug, PartialEq, Eq, Structural)]
pub enum FeeStrategy {
    /// The fee as computed by the router.
    Fixed,
    /// The fee recomputed from market conditions.
    Dynamic,
    /// The fee recomputed from the payer's tier.
    Tiered,
}

/// Pays protocol fees into one fee account, sized by a fee strategy and
/// keeping the payer's account alive.
pub struct EnhancedFeeCollector<L> {
    ledger: L,
    fee_collector: AccountId,
    fee_strategy: FeeStrategy,
}

impl<L> EnhancedFeeCollector<L> {
    /// A collector paying into `fee_collector` through `ledger`.
    pub fn new(ledger: L, fee_collector: AccountId, fee_strategy: FeeStrategy) -> (r:
        EnhancedFeeCollector<L>)
        ensures
            r.ledger() == ledger,
            r.fee_account() == fee_collector,
            r.fee_strategy() == fee_strategy,
    {
        EnhancedFeeCollector { ledger, fee_collector, fee_strategy }
    }

    /// The ledger that fees are paid through.
    pub closed spec fn ledger(&self) -> L {
        self.ledger
    }

    /// The account that receives the fees.
    pub closed spec fn fee_account(&self) -> AccountId {
        self.fee_collector
    }

    /// The strategy that sizes the fee.
    pub closed spec fn fee_strategy(&self) -> FeeStrategy {
        self.fee_strategy
    }

    /// The dynamic fee: no market signal is configured, so the base amount.
    pub fn calculate_dynamic_fee(&self, base_amount: u128) -> (r: u128)
        ensures
            r == base_amount,
    {
        base_amount
    }

    /// The tiered fee: no payer tiers are configured, so the base amount.
    pub fn calculate_tiered_fee(&self, user: &AccountId, base_amount: u128) -> (r: u128)
        ensures
            r == base_amount,
    {
        base_amount
    }

    /// The fee transferred for a computed fee of `amount` charged to `from`.
    pub fn actual_fee(&self, from: &AccountId, amount: u128) -> (r: u128)
        ensures
            r == amount,
    {
        match self.fee_strategy {
            FeeStrategy::Fixed => amount,
            FeeStrategy::Dynamic => self.calculate_dynamic_fee(amount),
            FeeStrategy::Tiered => self.calculate_tiered_fee(from, amount),
        }
    }
}

impl<L: Ledger> FeeCollector for EnhancedFeeCollector<L> {
    closed spec fn after_charge(&self, from: AccountId, asset: AssetKind, amount: u128) -> EnhancedFeeCollector<L> {
        EnhancedFeeCollector {
            ledger: self.ledger.after_transfer(from, self.fee_collector, amount, true),
            ..*self
        }
    }

    fn collect_fee(&mut self, from: &AccountId, asset: &AssetKind, amount: u128) -> (r: Result<
        (),
        FeeError,
    >)
        ensures
            final(self).fee_account() == old(self).fee_account(),
            final(self).fee_strategy() == old(self).fee_strategy(),
            amount > 0 && r is Ok ==> final(self).ledger() == old(self).ledger().after_transfer(
                *from,
                old(self).fee_account(),
                amount,
                true,
            ),
    {
        if amount == 0 {
            return Ok(());
        }
        let fee = self.actual_fee(from, amount);
        let outcome = self.ledger.transfer(from, &self.fee_collector, fee, true);
        fee_transfer_result(outcome)
    }
}

} // verus!
