use vstd::prelude::*;

use crate::assets::{AccountId, AssetKind};
use crate::traits::{AMM, FeeCollector, FeeError, LedgerError, VenueError};

verus! {

/// The constant-product pool engine that the XYK adapters settle through.
///
/// Implemented by the deployment's pool engine. Its quote is a probe of the
/// pools' current state that changes nothing, so an implementation's
/// `pool_quote` is what its quote function returns in that state. A swap
/// either goes through, leaving the engine in `after_swap`, or fails and
/// changes nothing.
pub trait AssetConversion: Sized {
    /// What the engine quotes for swapping `amount` of `asset1` into `asset2`.
    spec fn pool_quote(&self, asset1: AssetKind, asset2: AssetKind, amount: u128, include_fee: bool) -> Option<
        u128,
    >;

    /// The engine's state after a successful single-hop swap with these arguments.
    spec fn after_swap(
        &self,
        sender: AccountId,
        asset_in: AssetKind,
        asset_out: AssetKind,
        amount_in: u128,
        amount_out_min: u128,
        send_to: AccountId,
        keep_alive: bool,
    ) -> Self;

    /// The output for `amount` of `asset1`, `None` when no pool serves the pair.
    fn quote_price_exact_tokens_for_tokens(
        &self,
        asset1: AssetKind,
        asset2: AssetKind,
        amount: u128,
        include_fee: bool,
    ) -> (r: Option<u128>)
        ensures
            r == self.pool_quote(asset1, asset2, amount, include_fee),
    ;

    /// Swaps `amount_in` along `path` for `sender`, paying out to `send_to`
    /// the realized output, never less than `amount_out_min`.
    fn swap_exact_tokens_for_tokens(
        &mut self,
        sender: &AccountId,
        path: Vec<AssetKind>,
        amount_in: u128,
        amount_out_min: u128,
        send_to: &AccountId,
        keep_alive: bool,
    ) -> (r: Result<u128, LedgerError>)
        ensures
            r is Err ==> *final(self) == *old(self),
            r matches Ok(out) ==> out >= amount_out_min,
            r is Ok && path@.len() == 2 ==> *final(self) == old(self).after_swap(
                *sender,
                path@[0],
                path@[1],
                amount_in,
                amount_out_min,
                *send_to,
                keep_alive,
            ),
    ;
}

/// The balances ledger that fees are paid through.
///
/// A transfer either goes through, leaving the ledger in `after_transfer`, or
/// fails and changes nothing.
pub trait Ledger: Sized {
    /// The ledger's state after a successful transfer with these arguments.
    spec fn after_transfer(&self, from: AccountId, to: AccountId, amount: u128, keep_alive: bool) -> Self;

    /// Moves `amount` of the native token from `from` to `to`.
    fn transfer(&mut self, from: &AccountId, to: &AccountId, amount: u128, keep_alive: bool) -> (r:
        Result<(), LedgerError>)
        ensures
            r is Err ==> *final(self) == *old(self),
            r is Ok ==> *final(self) == old(self).after_transfer(*from, *to, amount, keep_alive),
    ;
}

/// The venue of the constant-product pools of an asset-conversion engine.
pub struct XYKAdapter<E> {
    engine: E,
}

impl<E> XYKAdapter<E> {
    /// An adapter over `engine`.
    pub fn new(engine: E) -> (r: XYKAdapter<E>)
        ensures
            r.engine() == engine,
    {
        XYKAdapter { engine }
    }

    /// The engine that this adapter settles through.
    pub closed spec fn engine(&self) -> E {
        self.engine
    }
}

/// The result of an engine swap mapped to the venue's result.
pub fn settle(outcome: Result<u128, LedgerError>) -> (r: Result<u128, VenueError>)
    ensures
        r == match outcome {
            Ok(out) => Ok(out),
            Err(e) => Err::<u128, VenueError>(VenueError::SwapFailed(e)),
        },
{
    match outcome {
        Ok(out) => Ok(out),
        Err(e) => Err(VenueError::SwapFailed(e)),
    }
}

/// What an engine-backed venue returns before it reaches the engine's swap:
/// `None` once the quote clears the minimum and the engine decides.
pub open spec fn engine_precheck(quote: Option<u128>, amount_in: u128, min_amount_out: u128) -> Option<
    VenueError,
> {
    if amount_in == 0 {
        Some(VenueError::ZeroAmount)
    } else {
        match quote {
            None => Some(VenueError::NoLiquidity),
            Some(q) => if q < min_amount_out {
                Some(VenueError::InsufficientOutput)
            } else {
                None
            },
        }
    }
}

impl<E: AssetConversion> AMM for XYKAdapter<E> {
    open spec fn handles(&self, asset_in: AssetKind, asset_out: AssetKind) -> bool {
        asset_in != asset_out && self.engine().pool_quote(asset_in, asset_out, 1, true) is Some
    }

    open spec fn quote(&self, asset_in: AssetKind, asset_out: AssetKind, amount_in: u128) -> Option<
        u128,
    > {
        if amount_in == 0 {
            Some(0)
        } else {
            self.engine().pool_quote(asset_in, asset_out, amount_in, true)
        }
    }

    closed spec fn after_swap(
        &self,
        who: AccountId,
        asset_in: AssetKind,
        asset_out: AssetKind,
        amount_in: u128,
        min_amount_out: u128,
    ) -> XYKAdapter<E> {
        XYKAdapter {
            engine: self.engine.after_swap(
                who,
                asset_in,
                asset_out,
                amount_in,
                min_amount_out,
                who,
                false,
            ),
        }
    }

    fn can_handle_pair(&self, asset_in: &AssetKind, asset_out: &AssetKind) -> (r: bool) {
        if *asset_in == *asset_out {
            return false;
        }
        self.engine.quote_price_exact_tokens_for_tokens(*asset_in, *asset_out, 1, true).is_some()
    }

    fn quote_price(&self, asset_in: &AssetKind, asset_out: &AssetKind, amount_in: u128) -> (r:
        Option<u128>) {
        if amount_in == 0 {
            return Some(0);
        }
        self.engine.quote_price_exact_tokens_for_tokens(*asset_in, *asset_out, amount_in, true)
    }

    fn execute_swap(
        &mut self,
        who: &AccountId,
        asset_in: AssetKind,
        asset_out: AssetKind,
        amount_in: u128,
        min_amount_out: u128,
    ) -> (r: Result<u128, VenueError>)
        ensures
            engine_precheck(old(self).quote(asset_in, asset_out, amount_in), amount_in, min_amount_out)
                matches Some(e) ==> r == Err::<u128, VenueError>(e),
            engine_precheck(old(self).quote(asset_in, asset_out, amount_in), amount_in, min_amount_out)
                is None ==> (r is Ok || r matches Err(VenueError::SwapFailed(_))),
            r is Ok ==> final(self).engine() == old(self).engine().after_swap(
                *who,
                asset_in,
                asset_out,
                amount_in,
                min_amount_out,
                *who,
                false,
            ),
    {
        if amount_in == 0 {
            return Err(VenueError::ZeroAmount);
        }
        let expected = match self.engine.quote_price_exact_tokens_for_tokens(
            asset_in,
            asset_out,
            amount_in,
            true,
        ) {
            None => return Err(VenueError::NoLiquidity),
            Some(q) => q,
        };
        if expected < min_amount_out {
            return Err(VenueError::InsufficientOutput);
        }
        let path = vec![asset_in, asset_out];
        let outcome = self.engine.swap_exact_tokens_for_tokens(
            who,
            path,
            amount_in,
            min_amount_out,
            who,
            false,
        );
        settle(outcome)
    }

    fn name(&self) -> &'static str {
        "XYK"
    }
}

/// Pays protocol fees into one fee account, allowing the payer's account to be reaped.
pub struct DefaultFeeCollector<L> {
    ledger: L,
    fee_collector: AccountId,
}

impl<L> DefaultFeeCollector<L> {
    /// A collector paying into `fee_collector` through `ledger`.
    pub fn new(ledger: L, fee_collector: AccountId) -> (r: DefaultFeeCollector<L>)
        ensures
            r.ledger() == ledger,
            r.fee_account() == fee_collector,
    {
        DefaultFeeCollector { ledger, fee_collector }
    }

    /// The ledger that fees are paid through.
    pub closed spec fn ledger(&self) -> L {
        self.ledger
    }

    /// The account that receives the fees.
    pub closed spec fn fee_account(&self) -> AccountId {
        self.fee_collector
    }
}

/// A ledger result mapped to a fee result.
pub fn fee_transfer_result(outcome: Result<(), LedgerError>) -> (r: Result<(), FeeError>)
    ensures
        r == match outcome {
            Ok(()) => Ok(()),
            Err(e) => Err::<(), FeeError>(FeeError::Transfer(e)),
        },
{
    match outcome {
        Ok(()) => Ok(()),
        Err(e) => Err(FeeError::Transfer(e)),
    }
}

impl<L: Ledger> FeeCollector for DefaultFeeCollector<L> {
    closed spec fn after_charge(&self, from: AccountId, asset: AssetKind, amount: u128) -> DefaultFeeCollector<L> {
        DefaultFeeCollector {
            ledger: self.ledger.after_transfer(from, self.fee_collector, amount, false),
            fee_collector: self.fee_collector,
        }
    }

    fn collect_fee(&mut self, from: &AccountId, asset: &AssetKind, amount: u128) -> (r: Result<
        (),
        FeeError,
    >)
        ensures
            final(self).fee_account() == old(self).fee_account(),
            amount > 0 && r is Ok ==> final(self).ledger() == old(self).ledger().after_transfer(
                *from,
                old(self).fee_account(),
                amount,
                false,
            ),
    {
        if amount == 0 {
            return Ok(());
        }
        let outcome = self.ledger.transfer(from, &self.fee_collector, amount, false);
        fee_transfer_result(outcome)
    }
}

} // verus!
