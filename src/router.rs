use vstd::prelude::*;

use crate::adapters::{AssetConversion, engine_precheck};
use crate::adapters_extended::{MultiAMMManager, example_execute};
use crate::assets::{AccountId, AssetKind};
use crate::fee::{FeeRate, fee_of, lemma_fee_within_amount};
use crate::traits::{AMMType, FeeCollector, FeeError, RoutingStrategy, VenueError};

verus! {

/// Why the router refused or failed a swap.
#[derive(Clone, Copy, Debug, PartialEq, Eq, Structural)]
pub enum Error {
    /// No configured venue serves the pair.
    NoCompatibleAMM,
    /// No venue can quote the amount, its quote misses the minimum, or the
    /// chosen venue refused to execute; no funds have moved.
    NoLiquidityAvailable,
    /// The path is not a single hop.
    InvalidPath,
    /// The fee exceeded the amount.
    FeeCalculationFailed,
    /// A zero amount is never swapped.
    ZeroAmount,
    /// The swap was executed but its protocol fee could not be collected.
    FeeCollectionFailed,
}

impl Error {
    /// Whether funds had already moved when the error arose.
    pub open spec fn after_side_effects_spec(self) -> bool {
        self == Error::FeeCollectionFailed
    }

    /// Whether funds had already moved when the error arose.
    pub fn after_side_effects(&self) -> (r: bool)
        ensures
            r == self.after_side_effects_spec(),
    {
        match self {
            Error::FeeCollectionFailed => true,
            _ => false,
        }
    }
}

/// A venue's answer mapped to the router's: any refusal means no liquidity.
pub open spec fn venue_result_spec(executed: Result<u128, VenueError>) -> Result<u128, Error> {
    match executed {
        Ok(out) => Ok(out),
        Err(_) => Err(Error::NoLiquidityAvailable),
    }
}

/// A venue's answer mapped to the router's: any refusal means no liquidity.
pub fn venue_result(executed: Result<u128, VenueError>) -> (r: Result<u128, Error>)
    ensures
        r == venue_result_spec(executed),
{
    match executed {
        Ok(out) => Ok(out),
        Err(_) => Err(Error::NoLiquidityAvailable),
    }
}

/// The fee collector's answer mapped to the router's.
pub fn fee_collection_result(collected: Result<(), FeeError>) -> (r: Result<(), Error>)
    ensures
        r == match collected {
            Ok(()) => Ok(()),
            Err(_) => Err::<(), Error>(Error::FeeCollectionFailed),
        },
{
    match collected {
        Ok(()) => Ok(()),
        Err(_) => Err(Error::FeeCollectionFailed),
    }
}

/// The record of a completed swap.
#[derive(Clone, Copy, Debug, PartialEq, Eq)]
pub enum Event {
    /// A swap executed through the router, with both fees applied.
    SwapExecuted {
        /// The payer.
        who: AccountId,
        /// The asset paid in.
        asset_in: AssetKind,
        /// The asset paid out.
        asset_out: AssetKind,
        /// The whole amount paid, router fee included.
        amount_in: u128,
        /// The amount received.
        amount_out: u128,
        /// The router fee charged.
        router_fee: u128,
        /// The venue that executed the swap.
        amm_used: AMMType,
    },
}

impl Event {
    /// The amount received.
    pub open spec fn amount_out_spec(self) -> u128 {
        match self {
            Event::SwapExecuted { amount_out, .. } => amount_out,
        }
    }
}

/// The router: charges its fee, routes the rest through the best venue, and
/// collects the fee once the swap has executed.
pub struct Pallet<E, S, F> {
    router_fee: FeeRate,
    manager: MultiAMMManager<E, S>,
    fee_collector: F,
}

impl<E: AssetConversion, S: RoutingStrategy, F: FeeCollector> Pallet<E, S, F> {
    /// A router charging `router_fee`, quoting through `manager` and paying
    /// fees through `fee_collector`.
    pub fn new(router_fee: FeeRate, manager: MultiAMMManager<E, S>, fee_collector: F) -> (r: Pallet<
        E,
        S,
        F,
    >)
        ensures
            r.router_fee() == router_fee,
            r.manager() == manager,
            r.fee_collector() == fee_collector,
    {
        Pallet { router_fee, manager, fee_collector }
    }

    /// The router's fee rate.
    pub closed spec fn router_fee(&self) -> FeeRate {
        self.router_fee
    }

    /// The venues.
    pub closed spec fn manager(&self) -> MultiAMMManager<E, S> {
        self.manager
    }

    /// The fee collector.
    pub closed spec fn fee_collector(&self) -> F {
        self.fee_collector
    }

    /// The router fee on `amount_in`.
    pub open spec fn fee_for(&self, amount_in: u128) -> nat {
        fee_of(self.router_fee().parts_spec(), amount_in as nat)
    }

    /// What reaches the venue of `amount_in` once the router fee is taken.
    pub open spec fn after_fee(&self, amount_in: u128) -> u128 {
        (amount_in - self.fee_for(amount_in)) as u128
    }

    /// The failure a swap meets before any funds move, if it meets one.
    pub open spec fn precheck(&self, path: Seq<AssetKind>, amount_in: u128, amount_out_min: u128) -> Option<
        Error,
    > {
        if path.len() != 2 {
            Some(Error::InvalidPath)
        } else if amount_in == 0 {
            Some(Error::ZeroAmount)
        } else {
            match self.manager().best_quote(path[0], path[1], self.after_fee(amount_in)) {
                None => Some(Error::NoLiquidityAvailable),
                Some((quote, venue)) => if quote < amount_out_min {
                    Some(Error::NoLiquidityAvailable)
                } else {
                    None
                },
            }
        }
    }

    /// The winning quote and venue for the fee-reduced amount.
    pub open spec fn winner(&self, path: Seq<AssetKind>, amount_in: u128) -> (u128, AMMType) {
        self.manager().best_quote(path[0], path[1], self.after_fee(amount_in))->Some_0
    }

    /// The venues once the winner has executed the swap.
    pub open spec fn executed(
        &self,
        who: AccountId,
        path: Seq<AssetKind>,
        amount_in: u128,
        amount_out_min: u128,
    ) -> MultiAMMManager<E, S> {
        self.manager().after_execute(
            self.winner(path, amount_in).1,
            who,
            path[0],
            path[1],
            self.after_fee(amount_in),
            amount_out_min,
        )
    }

    /// The fee collector once the router fee on `amount_in` has been charged;
    /// a zero fee is not charged.
    pub open spec fn charged(&self, who: AccountId, asset: AssetKind, amount_in: u128) -> F {
        if self.fee_for(amount_in) > 0 {
            self.fee_collector().after_charge(who, asset, self.fee_for(amount_in) as u128)
        } else {
            self.fee_collector()
        }
    }

    /// A zero amount carries no router fee, and a single-hop swap of it is
    /// rejected before any funds move.
    pub proof fn lemma_zero_amount_rejected(&self, path: Seq<AssetKind>, amount_out_min: u128)
        requires
            path.len() == 2,
        ensures
            self.fee_for(0) == 0,
            self.precheck(path, 0, amount_out_min) == Some(Error::ZeroAmount),
    {
    }

    /// A path that is not a single hop is rejected before any funds move.
    pub proof fn lemma_invalid_path_rejected(&self, path: Seq<AssetKind>, amount_in: u128, amount_out_min: u128)
        requires
            path.len() != 2,
        ensures
            self.precheck(path, amount_in, amount_out_min) == Some(Error::InvalidPath),
    {
    }

    /// A best quote on the fee-reduced amount below the caller's minimum is
    /// rejected before any funds move.
    pub proof fn lemma_quote_below_minimum_rejected(
        &self,
        path: Seq<AssetKind>,
        amount_in: u128,
        amount_out_min: u128,
    )
        requires
            path.len() == 2,
            amount_in > 0,
            self.manager().best_quote(path[0], path[1], self.after_fee(amount_in)) matches Some((quote, venue))
                && quote < amount_out_min,
        ensures
            self.precheck(path, amount_in, amount_out_min) == Some(Error::NoLiquidityAvailable),
    {
    }

    /// The router fee never exceeds the amount, so the amount reaching the
    /// venue is the amount less the fee.
    pub proof fn lemma_fee_split(&self, amount_in: u128)
        ensures
            self.fee_for(amount_in) <= amount_in,
            self.after_fee(amount_in) + self.fee_for(amount_in) == amount_in,
    {
        let rate = self.router_fee();
        rate.lemma_bounded();
        lemma_fee_within_amount(rate.parts_spec(), amount_in as nat);
    }

    /// The winning quote and venue for the pair.
    pub fn get_best_quote(&self, asset_in: &AssetKind, asset_out: &AssetKind, amount_in: u128) -> (r:
        Option<(u128, AMMType)>)
        ensures
            r == self.manager().best_quote(*asset_in, *asset_out, amount_in),
            r is None <==> self.manager().quotes(*asset_in, *asset_out, amount_in).len() == 0,
            r matches Some((q, v)) ==> self.manager().quotes(*asset_in, *asset_out, amount_in).contains(
                (v, q),
            ),
    {
        self.manager.get_best_quote(asset_in, asset_out, amount_in)
    }

    /// Executes through `venue`; refuses a venue that does not serve the pair.
    pub fn execute_best_swap(
        &mut self,
        venue: AMMType,
        who: &AccountId,
        asset_in: AssetKind,
        asset_out: AssetKind,
        amount_in: u128,
        min_amount_out: u128,
    ) -> (r: Result<u128, Error>)
        ensures
            !old(self).manager().venue_handles(venue, asset_in, asset_out) ==> r == Err::<u128, Error>(
                Error::NoCompatibleAMM,
            ),
            old(self).manager().venue_handles(venue, asset_in, asset_out) && venue != AMMType::XYK
                ==> r == venue_result_spec(
                example_execute(
                    true,
                    old(self).manager().venue_quote(venue, asset_in, asset_out, amount_in),
                    amount_in,
                    min_amount_out,
                ),
            ),
            old(self).manager().venue_handles(venue, asset_in, asset_out) && venue == AMMType::XYK
                ==> (engine_precheck(
                old(self).manager().venue_quote(venue, asset_in, asset_out, amount_in),
                amount_in,
                min_amount_out,
            ) is Some ==> r == Err::<u128, Error>(Error::NoLiquidityAvailable)),
            old(self).manager().venue_handles(venue, asset_in, asset_out) ==> (r is Err ==> r
                == Err::<u128, Error>(Error::NoLiquidityAvailable)),
            r is Err ==> *final(self) == *old(self),
            r matches Ok(out) ==> out >= min_amount_out,
            r is Ok ==> final(self).manager() == old(self).manager().after_execute(
                venue,
                *who,
                asset_in,
                asset_out,
                amount_in,
                min_amount_out,
            ),
            final(self).router_fee() == old(self).router_fee(),
            final(self).fee_collector() == old(self).fee_collector(),
    {
        if !self.manager.venue_can_handle(venue, &asset_in, &asset_out) {
            return Err(Error::NoCompatibleAMM);
        }
        venue_result(
            self.manager.execute_swap(venue, who, asset_in, asset_out, amount_in, min_amount_out),
        )
    }

    /// Swaps `amount_in` of `path[0]` into `path[1]` for `who`.
    ///
    /// The router fee is taken from `amount_in` first; the rest is quoted at
    /// every venue, checked against `amount_out_min`, and executed through the
    /// winning venue, which applies its own fee. The router fee is collected
    /// only after the swap has executed. The venue pays out to `who`;
    /// `send_to` and `keep_alive` are accepted for callers of the dispatchable
    /// interface and do not change the swap.
    pub fn swap_exact_tokens_for_tokens(
        &mut self,
        who: &AccountId,
        path: &Vec<AssetKind>,
        amount_in: u128,
        amount_out_min: u128,
        _send_to: &AccountId,
        _keep_alive: bool,
    ) -> (r: Result<Event, Error>)
        ensures
            old(self).precheck(path@, amount_in, amount_out_min) matches Some(e) ==> r == Err::<
                Event,
                Error,
            >(e) && *final(self) == *old(self),
            final(self).router_fee() == old(self).router_fee(),
            old(self).precheck(path@, amount_in, amount_out_min) is None ==> match r {
                Ok(ev) => {
                    &&& ev == (Event::SwapExecuted {
                        who: *who,
                        asset_in: path@[0],
                        asset_out: path@[1],
                        amount_in,
                        amount_out: ev.amount_out_spec(),
                        router_fee: old(self).fee_for(amount_in) as u128,
                        amm_used: old(self).winner(path@, amount_in).1,
                    })
                    &&& ev.amount_out_spec() >= amount_out_min
                    &&& old(self).fee_for(amount_in) <= amount_in
                    &&& old(self).winner(path@, amount_in).1 != AMMType::XYK ==> ev.amount_out_spec()
                        == old(self).winner(path@, amount_in).0
                    &&& final(self).manager() == old(self).executed(*who, path@, amount_in, amount_out_min)
                    &&& final(self).fee_collector() == old(self).charged(*who, path@[0], amount_in)
                },
                Err(Error::NoLiquidityAvailable) => *final(self) == *old(self),
                Err(Error::FeeCollectionFailed) => {
                    &&& old(self).fee_for(amount_in) > 0
                    &&& final(self).manager() == old(self).executed(*who, path@, amount_in, amount_out_min)
                    &&& final(self).fee_collector() == old(self).fee_collector()
                },
                Err(_) => false,
            },
            old(self).precheck(path@, amount_in, amount_out_min) is None && old(self).winner(
                path@,
                amount_in,
            ).1 != AMMType::XYK && old(self).after_fee(amount_in) > 0 ==> (r is Ok || r == Err::<
                Event,
                Error,
            >(Error::FeeCollectionFailed)),
            old(self).precheck(path@, amount_in, amount_out_min) is None && old(self).winner(
                path@,
                amount_in,
            ).1 != AMMType::XYK && old(self).fee_for(amount_in) == 0 ==> r is Ok,
    {
        if path.len() != 2 {
            return Err(Error::InvalidPath);
        }
        let asset_in = path[0];
        let asset_out = path[1];
        if amount_in == 0 {
            return Err(Error::ZeroAmount);
        }
        proof {
            self.lemma_fee_split(amount_in);
        }
        let router_fee = self.router_fee.mul_floor(amount_in);
        let amount_after_router_fee = match amount_in.checked_sub(router_fee) {
            None => return Err(Error::FeeCalculationFailed),
            Some(rest) => rest,
        };
        let (quote, venue) = match self.get_best_quote(&asset_in, &asset_out, amount_after_router_fee) {
            None => return Err(Error::NoLiquidityAvailable),
            Some(best) => best,
        };
        if quote < amount_out_min {
            return Err(Error::NoLiquidityAvailable);
        }
        proof {
            let quotes = self.manager().quotes(asset_in, asset_out, amount_after_router_fee);
            let k = choose|k: int| 0 <= k < quotes.len() && quotes[k] == (venue, quote);
            self.manager().lemma_quoted_venue_handles(asset_in, asset_out, amount_after_router_fee, k);
            assert(path@[0] == asset_in && path@[1] == asset_out);
        }
        let amount_out = self.execute_best_swap(
            venue,
            who,
            asset_in,
            asset_out,
            amount_after_router_fee,
            amount_out_min,
        )?;
        if router_fee != 0 {
            fee_collection_result(self.fee_collector.collect_fee(who, &asset_in, router_fee))?;
        }
        Ok(
            Event::SwapExecuted {
                who: *who,
                asset_in,
                asset_out,
                amount_in,
                amount_out,
                router_fee,
                amm_used: venue,
            },
        )
    }
}

} // verus!
