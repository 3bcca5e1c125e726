use clobster::decimal::Decimal;
use clobster::state::{OrderBookDepth, OrderBookState, OrderBookStats, PriceLevel};

fn dec(mantissa: i64, scale: u32) -> Decimal {
    Decimal::new(mantissa, scale)
}

fn create_test_orderbook() -> OrderBookDepth {
    let mut book = OrderBookDepth::new("market_1", "token_1");
    // Bids: best (highest) first.
    book.bids = vec![
        PriceLevel::new(dec(50, 2), dec(1000, 1)),
        PriceLevel::new(dec(49, 2), dec(2000, 1)),
        PriceLevel::new(dec(48, 2), dec(1500, 1)),
    ];
    // Asks: best (lowest) first.
    book.asks = vec![
        PriceLevel::new(dec(52, 2), dec(800, 1)),
        PriceLevel::new(dec(53, 2), dec(1200, 1)),
        PriceLevel::new(dec(54, 2), dec(1000, 1)),
    ];
    book
}

#[test]
fn test_price_level_value() {
    let level = PriceLevel::new(dec(50, 2), dec(1000, 1));
    assert_eq!(level.value(), Some(dec(500, 1)));
}

#[test]
fn test_best_bid_ask() {
    let book = create_test_orderbook();
    assert_eq!(book.best_bid_price(), Some(dec(50, 2)));
    assert_eq!(book.best_ask_price(), Some(dec(52, 2)));
}

#[test]
fn test_mid_price() {
    let book = create_test_orderbook();
    // (0.50 + 0.52) / 2 = 0.51
    assert_eq!(book.mid_price(), Some(dec(51, 2)));
}

#[test]
fn test_spread() {
    let book = create_test_orderbook();
    // 0.52 - 0.50 = 0.02
    assert_eq!(book.spread(), Some(dec(2, 2)));
}

#[test]
fn test_spread_percent() {
    let book = create_test_orderbook();
    // spread = 0.02, mid = 0.51: (0.02 / 0.51) * 100 is about 3.92
    let spread_pct = book.spread_percent().unwrap();
    assert!(spread_pct.is_gt(dec(39, 1)) && spread_pct.is_lt(dec(40, 1)));
}

#[test]
fn test_bid_volume() {
    let book = create_test_orderbook();
    // All bids: 100 + 200 + 150 = 450
    assert_eq!(book.bid_volume(10), Some(dec(4500, 1)));
    // First 2 levels: 100 + 200 = 300
    assert_eq!(book.bid_volume(2), Some(dec(3000, 1)));
}

#[test]
fn test_ask_volume() {
    let book = create_test_orderbook();
    // All asks: 80 + 120 + 100 = 300
    assert_eq!(book.ask_volume(10), Some(dec(3000, 1)));
}

#[test]
fn test_imbalance() {
    let book = create_test_orderbook();
    // (450 - 300) / (450 + 300) = 150 / 750 = 0.2
    assert_eq!(book.imbalance(10), Some(dec(2, 1)));
}

#[test]
fn test_vwap_buy_single_level() {
    let book = create_test_orderbook();
    // 50 shares fit in the first ask level at 0.52
    assert_eq!(book.vwap_buy(dec(500, 1)), Some(dec(52, 2)));
}

#[test]
fn test_vwap_buy_multiple_levels() {
    let book = create_test_orderbook();
    // 80 @ 0.52 = 41.6, 20 @ 0.53 = 10.6, 52.2 / 100 = 0.522
    assert_eq!(book.vwap_buy(dec(1000, 1)), Some(dec(522, 3)));
}

#[test]
fn test_vwap_buy_partial_fill() {
    let book = create_test_orderbook();
    // 500 asked, 300 there: 159.2 / 300 = 0.5306666...
    let vwap = book.vwap_buy(dec(5000, 1)).unwrap();
    assert!(vwap.is_gt(dec(53, 2)) && vwap.is_lt(dec(532, 3)));
}

#[test]
fn test_vwap_sell_single_level() {
    let book = create_test_orderbook();
    // 50 shares fit in the first bid level at 0.50
    assert_eq!(book.vwap_sell(dec(500, 1)), Some(dec(50, 2)));
}

#[test]
fn test_vwap_empty_book() {
    let book = OrderBookDepth::new("market_1", "token_1");
    assert_eq!(book.vwap_buy(dec(1000, 1)), None);
    assert_eq!(book.vwap_sell(dec(1000, 1)), None);
}

#[test]
fn test_slippage_buy() {
    let book = create_test_orderbook();
    // VWAP = 0.522, best ask = 0.52: ((0.522 - 0.52) / 0.52) * 100 is about 0.38
    let slippage = book.slippage_buy(dec(1000, 1)).unwrap();
    assert!(slippage.is_gt(dec(3, 1)) && slippage.is_lt(dec(5, 1)));
}

#[test]
fn test_slippage_sell() {
    let book = create_test_orderbook();
    // 100 @ 0.50 + 50 @ 0.49: VWAP = 74.5 / 150 = 0.4966..., about 0.66 percent
    let slippage = book.slippage_sell(dec(1500, 1)).unwrap();
    assert!(slippage.is_gt(dec(5, 1)) && slippage.is_lt(dec(8, 1)));
}

#[test]
fn test_cumulative_bids() {
    let book = create_test_orderbook();
    let cumulative = book.cumulative_bids().unwrap();
    assert_eq!(cumulative.len(), 3);
    assert_eq!(cumulative[0], (dec(50, 2), dec(1000, 1)));
    assert_eq!(cumulative[1], (dec(49, 2), dec(3000, 1)));
    assert_eq!(cumulative[2], (dec(48, 2), dec(4500, 1)));
}

#[test]
fn test_orderbook_state() {
    let mut state = OrderBookState::new();
    assert!(state.books.is_empty());
    assert_eq!(state.display_depth, 10);

    let book = create_test_orderbook();
    state.update_book(book);

    assert_eq!(state.books.len(), 1);
    assert!(state.get_book("token_1").is_some());
    assert!(state.last_updated.is_some());

    state.selected_token_id = Some("token_1".to_string());
    assert!(state.selected_book().is_some());

    state.remove_book("token_1");
    assert!(state.books.is_empty());
}

#[test]
fn test_orderbook_stats() {
    let book = create_test_orderbook();
    let stats = OrderBookStats::from_orderbook(&book, 10);

    assert_eq!(stats.best_bid, Some(dec(50, 2)));
    assert_eq!(stats.best_ask, Some(dec(52, 2)));
    assert_eq!(stats.mid_price, Some(dec(51, 2)));
    assert_eq!(stats.bid_depth, 3);
    assert_eq!(stats.ask_depth, 3);
}

#[test]
fn test_empty_orderbook() {
    let book = OrderBookDepth::new("market_1", "token_1");
    assert!(book.is_empty());
    assert!(book.best_bid().is_none());
    assert!(book.best_ask().is_none());
    assert_eq!(book.mid_price(), None);
    assert_eq!(book.spread(), None);
    assert_eq!(book.imbalance(10), None);
}

#[test]
fn mid_price_falls_back_to_the_side_that_is_quoted() {
    let mut book = OrderBookDepth::new("market_1", "token_1");
    book.bids = vec![PriceLevel::new(dec(40, 2), dec(10, 0))];
    assert_eq!(book.mid_price(), Some(dec(40, 2)));
    assert_eq!(book.spread(), None);
    assert_eq!(book.spread_percent(), None);
    let mut book = OrderBookDepth::new("market_1", "token_1");
    book.asks = vec![PriceLevel::new(dec(60, 2), dec(10, 0))];
    assert_eq!(book.mid_price(), Some(dec(60, 2)));
    assert_eq!(book.mid_price_or(dec(10, 2)), Some(dec(60, 2)));
    let empty = OrderBookDepth::new("market_1", "token_1");
    assert_eq!(empty.mid_price_or(dec(10, 2)), Some(dec(10, 2)));
    assert_eq!(create_test_orderbook().mid_price_or(dec(10, 2)), Some(dec(51, 2)));
}

#[test]
fn vwap_of_a_zero_target_is_nothing() {
    let book = create_test_orderbook();
    assert_eq!(book.vwap_buy(dec(0, 0)), None);
    assert_eq!(book.vwap_sell(dec(0, 1)), None);
    assert_eq!(book.slippage_buy(dec(0, 0)), None);
}

#[test]
fn vwap_of_a_partial_fill_is_value_over_size_filled() {
    let book = create_test_orderbook();
    // 41.6 + 63.6 + 54 = 159.2 over 300
    let expected = dec(1592, 1).checked_div(dec(300, 0));
    assert_eq!(book.vwap_buy(dec(5000, 1)), expected);
}

#[test]
fn imbalance_without_volume_is_nothing() {
    let mut book = OrderBookDepth::new("market_1", "token_1");
    book.bids = vec![PriceLevel::new(dec(50, 2), dec(0, 0))];
    book.asks = vec![PriceLevel::new(dec(52, 2), dec(0, 1))];
    assert_eq!(book.bid_volume(5), Some(dec(0, 0)));
    assert_eq!(book.imbalance(5), None);
    assert_eq!(book.imbalance(0), None);
}

#[test]
fn liquidity_adds_the_values_of_the_levels() {
    let book = create_test_orderbook();
    // 50 + 98 + 72 = 220
    assert_eq!(book.bid_liquidity(10), Some(dec(220, 0)));
    // 41.6 + 63.6 = 105.2
    assert_eq!(book.ask_liquidity(2), Some(dec(1052, 1)));
    assert_eq!(book.total_liquidity(1), Some(dec(916, 1)));
    assert_eq!(book.bid_liquidity(0), Some(dec(0, 0)));
}

#[test]
fn cumulative_asks_run_up() {
    let book = create_test_orderbook();
    let rows = book.cumulative_asks().unwrap();
    assert_eq!(rows, vec![(dec(52, 2), dec(80, 0)), (dec(53, 2), dec(200, 0)), (dec(54, 2), dec(300, 0))]);
}

#[test]
fn sums_out_of_range_have_no_value() {
    let huge = Decimal::try_from_i128_with_scale(79_228_162_514_264_337_593_543_950_335, 0).unwrap();
    let mut book = OrderBookDepth::new("market_1", "token_1");
    book.bids = vec![PriceLevel::new(dec(2, 0), huge), PriceLevel::new(dec(2, 0), huge)];
    assert_eq!(book.bid_volume(1), Some(huge));
    assert_eq!(book.bid_volume(2), None);
    assert_eq!(book.bid_liquidity(1), None);
    assert_eq!(book.cumulative_bids(), None);
    assert_eq!(book.bids[0].value(), None);
}

#[test]
fn stats_and_books_by_token() {
    let mut state = OrderBookState::new();
    state.update_book_at(create_test_orderbook(), 5);
    assert_eq!(state.last_updated, Some(5));
    let stats = state.get_stats("token_1").unwrap();
    assert_eq!(stats.imbalance, Some(dec(2, 1)));
    assert_eq!(stats.spread, Some(dec(2, 2)));
    assert!(state.get_stats("token_2").is_none());
    assert_eq!(state.token_ids(), vec!["token_1"]);
    state.clear();
    assert!(state.books.is_empty());
}
