use std::cell::{Cell, RefCell};
use std::rc::Rc;

use dex_router::adapters::{fee_transfer_result, settle, AssetConversion, DefaultFeeCollector, Ledger, XYKAdapter};
use dex_router::adapters_extended::{
    contains_asset, find_venue, tolerance_threshold, CurveAdapter, EnhancedFeeCollector, EnhancedXYKAdapter, FeeStrategy,
    MultiAMMManager, SmartRoutingStrategy, TBCAdapter,
};
use dex_router::assets::{AccountId, AssetKind};
use dex_router::traits::{AMMType, BestPriceStrategy, FeeCollector, FeeError, LedgerError, RoutingStrategy, VenueError, AMM};

const NATIVE: AssetKind = AssetKind::Native;
const USDA: AssetKind = AssetKind::Local(1);
const USDB: AssetKind = AssetKind::Local(2);
const MEME: AssetKind = AssetKind::Local(3);
const WHO: AccountId = [7u8; 32];
const FEES: AccountId = [0u8; 32];

/// An engine with one Native/USDA pool paying `rate` thousandths per unit.
struct FixedEngine {
    rate: u128,
    min_input: u128,
    swaps: Cell<u32>,
    fail_swaps: bool,
}

fn engine(rate: u128) -> FixedEngine {
    FixedEngine { rate, min_input: 0, swaps: Cell::new(0), fail_swaps: false }
}

impl AssetConversion for FixedEngine {
    fn after_swap(
        &self,
        _sender: AccountId,
        _asset_in: AssetKind,
        _asset_out: AssetKind,
        _amount_in: u128,
        _amount_out_min: u128,
        _send_to: AccountId,
        _keep_alive: bool,
    ) -> Self {
        FixedEngine { rate: self.rate, min_input: self.min_input, swaps: Cell::new(self.swaps.get() + 1), fail_swaps: self.fail_swaps }
    }

    fn pool_quote(&self, asset1: AssetKind, asset2: AssetKind, amount: u128, include_fee: bool) -> Option<u128> {
        self.quote_price_exact_tokens_for_tokens(asset1, asset2, amount, include_fee)
    }

    fn quote_price_exact_tokens_for_tokens(
        &self,
        asset1: AssetKind,
        asset2: AssetKind,
        amount: u128,
        _include_fee: bool,
    ) -> Option<u128> {
        let served = (asset1 == NATIVE && asset2 == USDA) || (asset1 == USDA && asset2 == NATIVE);
        if !served || amount < self.min_input {
            return None;
        }
        Some(amount * self.rate / 1000)
    }

    fn swap_exact_tokens_for_tokens(
        &mut self,
        _sender: &AccountId,
        path: Vec<AssetKind>,
        amount_in: u128,
        amount_out_min: u128,
        _send_to: &AccountId,
        _keep_alive: bool,
    ) -> Result<u128, LedgerError> {
        assert_eq!(path.len(), 2);
        if self.fail_swaps {
            return Err(LedgerError::AccountFrozen);
        }
        let out = self.quote_price_exact_tokens_for_tokens(path[0], path[1], amount_in, true).ok_or(LedgerError::Rejected)?;
        if out < amount_out_min {
            return Err(LedgerError::Rejected);
        }
        self.swaps.set(self.swaps.get() + 1);
        Ok(out)
    }
}

/// A ledger that records transfers.
struct RecordingLedger {
    transfers: Rc<RefCell<Vec<(AccountId, AccountId, u128, bool)>>>,
    refuse: bool,
}

fn ledger() -> RecordingLedger {
    RecordingLedger { transfers: Rc::new(RefCell::new(vec![])), refuse: false }
}

impl Ledger for RecordingLedger {
    fn after_transfer(&self, _from: AccountId, _to: AccountId, _amount: u128, _keep_alive: bool) -> Self {
        RecordingLedger { transfers: self.transfers.clone(), refuse: self.refuse }
    }

    fn transfer(&mut self, from: &AccountId, to: &AccountId, amount: u128, keep_alive: bool) -> Result<(), LedgerError> {
        if self.refuse {
            return Err(LedgerError::InsufficientBalance);
        }
        self.transfers.borrow_mut().push((*from, *to, amount, keep_alive));
        Ok(())
    }
}

#[test]
fn xyk_adapter_probes_and_quotes_through_engine() {
    let xyk = XYKAdapter::new(engine(990));
    assert!(xyk.can_handle_pair(&NATIVE, &USDA));
    assert!(!xyk.can_handle_pair(&NATIVE, &NATIVE));
    assert!(!xyk.can_handle_pair(&NATIVE, &USDB));
    assert_eq!(xyk.quote_price(&NATIVE, &USDA, 1000), Some(990));
    assert_eq!(xyk.quote_price(&NATIVE, &USDB, 1000), None);
    assert_eq!(xyk.quote_price(&NATIVE, &USDB, 0), Some(0));
    assert_eq!(xyk.name(), "XYK");
}

#[test]
fn xyk_adapter_executes_and_checks_minimum() {
    let mut xyk = XYKAdapter::new(engine(990));
    assert_eq!(xyk.execute_swap(&WHO, NATIVE, USDA, 1000, 990), Ok(990));
    assert_eq!(xyk.execute_swap(&WHO, NATIVE, USDA, 1000, 991), Err(VenueError::InsufficientOutput));
    assert_eq!(xyk.execute_swap(&WHO, NATIVE, USDB, 1000, 0), Err(VenueError::NoLiquidity));
    assert_eq!(xyk.execute_swap(&WHO, NATIVE, USDA, 0, 0), Err(VenueError::ZeroAmount));
}

#[test]
fn xyk_adapter_maps_engine_failure() {
    let mut e = engine(990);
    e.fail_swaps = true;
    let mut xyk = XYKAdapter::new(e);
    assert_eq!(
        xyk.execute_swap(&WHO, NATIVE, USDA, 1000, 1),
        Err(VenueError::SwapFailed(LedgerError::AccountFrozen))
    );
}

#[test]
fn enhanced_xyk_probes_with_larger_amount() {
    let mut e = engine(990);
    e.min_input = 500;
    let shallow = XYKAdapter::new(e);
    assert!(!shallow.can_handle_pair(&NATIVE, &USDA));
    let mut e = engine(990);
    e.min_input = 500;
    let enhanced = EnhancedXYKAdapter::new(e);
    assert!(enhanced.can_handle_pair(&NATIVE, &USDA));
    let mut e = engine(990);
    e.min_input = 5000;
    assert!(!EnhancedXYKAdapter::new(e).can_handle_pair(&NATIVE, &USDA));
    assert_eq!(enhanced.name(), "EnhancedXYK");
}

#[test]
fn enhanced_xyk_settles_through_engine() {
    let mut enhanced = EnhancedXYKAdapter::new(engine(500));
    assert_eq!(enhanced.quote_price(&USDA, &NATIVE, 0), Some(0));
    assert_eq!(enhanced.execute_swap(&WHO, USDA, NATIVE, 2000, 1000), Ok(1000));
    assert_eq!(enhanced.execute_swap(&WHO, USDA, NATIVE, 2000, 1001), Err(VenueError::InsufficientOutput));
    assert_eq!(enhanced.execute_swap(&WHO, USDA, NATIVE, 0, 0), Err(VenueError::ZeroAmount));
}

#[test]
fn tbc_adapter_handles_pairs_with_curve_asset() {
    let tbc = TBCAdapter::new(vec![MEME]);
    assert!(tbc.is_bonding_curve_asset(&MEME));
    assert!(!tbc.is_bonding_curve_asset(&NATIVE));
    assert!(tbc.can_handle_pair(&NATIVE, &MEME));
    assert!(tbc.can_handle_pair(&MEME, &NATIVE));
    assert!(!tbc.can_handle_pair(&MEME, &MEME));
    assert!(!tbc.can_handle_pair(&NATIVE, &USDA));
    assert_eq!(tbc.calculate_curve_factor(&NATIVE, &MEME), 1000);
    assert_eq!(tbc.name(), "TBC");
}

#[test]
fn tbc_adapter_quotes_and_guards_overflow() {
    let tbc = TBCAdapter::new(vec![MEME]);
    assert_eq!(tbc.quote_price(&NATIVE, &MEME, 0), Some(0));
    assert_eq!(tbc.quote_price(&NATIVE, &MEME, 12_345), Some(12_345));
    assert_eq!(tbc.quote_price(&NATIVE, &MEME, u128::MAX / 1_000_000), Some(u128::MAX / 1_000_000));
    assert_eq!(tbc.quote_price(&NATIVE, &MEME, u128::MAX / 1_000_000 + 1), None);
    assert_eq!(tbc.quote_price(&NATIVE, &MEME, u128::MAX), None);
}

#[test]
fn tbc_adapter_executes_only_served_pairs() {
    let mut tbc = TBCAdapter::new(vec![MEME]);
    assert_eq!(tbc.execute_swap(&WHO, NATIVE, MEME, 100, 100), Ok(100));
    assert_eq!(tbc.execute_swap(&WHO, NATIVE, MEME, 100, 101), Err(VenueError::InsufficientOutput));
    assert_eq!(tbc.execute_swap(&WHO, NATIVE, USDA, 100, 0), Err(VenueError::NoLiquidity));
    assert_eq!(tbc.execute_swap(&WHO, NATIVE, MEME, 0, 0), Err(VenueError::ZeroAmount));
}

#[test]
fn curve_adapter_handles_stable_pairs() {
    let curve = CurveAdapter::new(vec![USDA, USDB]);
    assert!(curve.is_stable_coin_pair(&USDA, &USDB));
    assert!(!curve.is_stable_coin_pair(&USDA, &NATIVE));
    assert!(curve.has_curve_pool(&USDA, &USDB));
    assert!(!curve.has_curve_pool(&USDA, &USDA));
    assert!(curve.can_handle_pair(&USDA, &USDB));
    assert!(!curve.can_handle_pair(&USDA, &USDA));
    assert!(!curve.can_handle_pair(&NATIVE, &USDB));
    assert_eq!(curve.name(), "Curve");
}

#[test]
fn curve_adapter_quotes_at_stable_rate() {
    let mut curve = CurveAdapter::new(vec![USDA, USDB]);
    assert_eq!(curve.quote_price(&USDA, &USDB, 0), Some(0));
    assert_eq!(curve.quote_price(&USDA, &USDB, 10_000), Some(9_950));
    assert_eq!(curve.quote_price(&USDA, &USDB, 3), Some(2));
    assert_eq!(curve.quote_price(&USDA, &USDB, u128::MAX), None);
    assert_eq!(curve.execute_swap(&WHO, USDA, USDB, 10_000, 9_950), Ok(9_950));
    assert_eq!(curve.execute_swap(&WHO, USDA, USDB, 10_000, 9_951), Err(VenueError::InsufficientOutput));
    assert_eq!(curve.execute_swap(&WHO, USDA, NATIVE, 10_000, 0), Err(VenueError::NoLiquidity));
}

fn manager<S: RoutingStrategy>(rate: u128, strategy: S) -> MultiAMMManager<FixedEngine, S> {
    MultiAMMManager::new(
        EnhancedXYKAdapter::new(engine(rate)),
        CurveAdapter::new(vec![NATIVE, USDA]),
        TBCAdapter::new(vec![USDA]),
        strategy,
    )
}

#[test]
fn manager_picks_best_price_across_venues() {
    // XYK pays 0.99, Curve 0.995, TBC 1.0.
    let m = manager(990, BestPriceStrategy);
    assert_eq!(m.get_best_quote(&NATIVE, &USDA, 10_000), Some((10_000, AMMType::TBC)));
    // XYK pays 1.2: it wins.
    let m = manager(1200, BestPriceStrategy);
    assert_eq!(m.get_best_quote(&NATIVE, &USDA, 10_000), Some((12_000, AMMType::XYK)));
}

#[test]
fn manager_without_serving_venue_has_no_quote() {
    let m = manager(990, BestPriceStrategy);
    assert_eq!(m.get_best_quote(&NATIVE, &USDB, 10_000), None);
    assert_eq!(m.get_best_quote(&NATIVE, &NATIVE, 10_000), None);
}

#[test]
fn manager_dispatches_to_chosen_venue() {
    let mut m = manager(990, BestPriceStrategy);
    assert_eq!(m.execute_swap(AMMType::XYK, &WHO, NATIVE, USDA, 10_000, 1), Ok(9_900));
    assert_eq!(m.execute_swap(AMMType::Curve, &WHO, NATIVE, USDA, 10_000, 1), Ok(9_950));
    assert_eq!(m.execute_swap(AMMType::TBC, &WHO, NATIVE, USDA, 10_000, 1), Ok(10_000));
    assert_eq!(m.execute_swap(AMMType::TBC, &WHO, NATIVE, USDA, 0, 0), Err(VenueError::ZeroAmount));
    assert!(m.venue_can_handle(AMMType::Curve, &NATIVE, &USDA));
    assert!(!m.venue_can_handle(AMMType::Curve, &NATIVE, &USDB));
}

#[test]
fn smart_strategy_prefers_bonding_curve_for_new_assets() {
    let s = SmartRoutingStrategy::new(vec![], vec![MEME]);
    assert!(s.is_new_token(&MEME));
    let quotes = vec![(AMMType::XYK, 500u128), (AMMType::TBC, 10u128)];
    assert_eq!(s.select_best_amm(quotes, &NATIVE, &MEME), Some(AMMType::TBC));
    let quotes = vec![(AMMType::XYK, 500u128), (AMMType::Curve, 10u128)];
    assert_eq!(s.select_best_amm(quotes, &NATIVE, &MEME), Some(AMMType::XYK));
}

#[test]
fn smart_strategy_prefers_stable_swap_within_band() {
    let s = SmartRoutingStrategy::new(vec![USDA, USDB], vec![]);
    assert!(s.is_stable_coin_pair(&USDA, &USDB));
    // 99% of 1000 is 990.
    let quotes = vec![(AMMType::XYK, 1000u128), (AMMType::Curve, 990u128)];
    assert_eq!(s.select_best_amm(quotes, &USDA, &USDB), Some(AMMType::Curve));
    let quotes = vec![(AMMType::XYK, 1000u128), (AMMType::Curve, 989u128)];
    assert_eq!(s.select_best_amm(quotes, &USDA, &USDB), Some(AMMType::XYK));
    // Not a stable pair: best price.
    let quotes = vec![(AMMType::XYK, 1000u128), (AMMType::Curve, 999u128)];
    assert_eq!(s.select_best_amm(quotes, &USDA, &NATIVE), Some(AMMType::XYK));
}

#[test]
fn smart_strategy_defaults_to_best_price() {
    let s = SmartRoutingStrategy::new(vec![], vec![]);
    assert_eq!(s.select_best_amm(vec![], &USDA, &USDB), None);
    let quotes = vec![(AMMType::XYK, 100u128), (AMMType::TBC, 200u128)];
    assert_eq!(s.select_best_amm(quotes, &USDA, &USDB), Some(AMMType::TBC));
}

#[test]
fn manager_with_smart_strategy_routes_stable_pair_to_curve() {
    // XYK pays 1.0, Curve 0.995: within the band, so Curve.
    let m = manager(1000, SmartRoutingStrategy::new(vec![NATIVE, USDA], vec![]));
    assert_eq!(m.get_best_quote(&NATIVE, &USDA, 10_000), Some((9_950, AMMType::Curve)));
    // XYK pays 1.1: Curve falls outside the band, and XYK wins on price.
    let m = manager(1100, SmartRoutingStrategy::new(vec![NATIVE, USDA], vec![]));
    assert_eq!(m.get_best_quote(&NATIVE, &USDA, 10_000), Some((11_000, AMMType::XYK)));
}

#[test]
fn tolerance_threshold_rounds_down() {
    assert_eq!(tolerance_threshold(1000), 990);
    assert_eq!(tolerance_threshold(101), 99);
    assert_eq!(tolerance_threshold(0), 0);
    assert_eq!(tolerance_threshold(u128::MAX), u128::MAX / 100 * 99 + (u128::MAX % 100) * 99 / 100);
}

#[test]
fn find_venue_returns_first() {
    let quotes = vec![(AMMType::XYK, 1u128), (AMMType::Curve, 2u128), (AMMType::Curve, 3u128)];
    assert_eq!(find_venue(&quotes, AMMType::Curve), Some(1));
    assert_eq!(find_venue(&quotes, AMMType::TBC), None);
}

#[test]
fn contains_asset_scans_list() {
    assert!(contains_asset(&vec![USDA, MEME], &MEME));
    assert!(!contains_asset(&vec![USDA, MEME], &NATIVE));
    assert!(!contains_asset(&vec![], &NATIVE));
}

#[test]
fn default_fee_collector_transfers_to_fee_account() {
    let mut c = DefaultFeeCollector::new(ledger(), FEES);
    assert_eq!(c.collect_fee(&WHO, &NATIVE, 25), Ok(()));
    assert_eq!(c.collect_fee(&WHO, &NATIVE, 0), Ok(()));
    let mut refusing = ledger();
    refusing.refuse = true;
    let mut c2 = DefaultFeeCollector::new(refusing, FEES);
    assert_eq!(c2.collect_fee(&WHO, &NATIVE, 25), Err(FeeError::Transfer(LedgerError::InsufficientBalance)));
    assert_eq!(c2.collect_fee(&WHO, &NATIVE, 0), Ok(()));
}

#[test]
fn default_fee_collector_records_one_transfer() {
    let l = ledger();
    let log = l.transfers.clone();
    let mut c = DefaultFeeCollector::new(l, FEES);
    c.collect_fee(&WHO, &NATIVE, 25).unwrap();
    c.collect_fee(&WHO, &NATIVE, 0).unwrap();
    // Only the non-zero fee moved funds, and the payer may be reaped.
    assert_eq!(*log.borrow(), vec![(WHO, FEES, 25, false)]);
}

#[test]
fn enhanced_fee_collector_keeps_payer_alive() {
    for strategy in [FeeStrategy::Fixed, FeeStrategy::Dynamic, FeeStrategy::Tiered] {
        let l = ledger();
        let log = l.transfers.clone();
        let mut c = EnhancedFeeCollector::new(l, FEES, strategy);
        assert_eq!(c.actual_fee(&WHO, 40), 40);
        assert_eq!(c.calculate_dynamic_fee(40), 40);
        assert_eq!(c.calculate_tiered_fee(&WHO, 40), 40);
        assert_eq!(c.collect_fee(&WHO, &NATIVE, 40), Ok(()));
        assert_eq!(c.collect_fee(&WHO, &NATIVE, 0), Ok(()));
        assert_eq!(*log.borrow(), vec![(WHO, FEES, 40, true)]);
    }
}

#[test]
fn outside_results_map_to_library_errors() {
    assert_eq!(settle(Ok(55)), Ok(55));
    assert_eq!(settle(Err(LedgerError::Rejected)), Err(VenueError::SwapFailed(LedgerError::Rejected)));
    assert_eq!(fee_transfer_result(Ok(())), Ok(()));
    assert_eq!(
        fee_transfer_result(Err(LedgerError::AccountFrozen)),
        Err(FeeError::Transfer(LedgerError::AccountFrozen))
    );
}
