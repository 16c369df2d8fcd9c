use minterest_oracle::events::{
    round_requests, DecodeError, EventDecoder, LedgerEvent, RoundRequest, ROUND_RECORD_LEN,
};
use minterest_oracle::link::{LinkAction, LinkSignal, LinkState, RECONNECT_DELAY_MS};
use minterest_oracle::price::{pow10_u128, to_scaled, UsdPrice};
use minterest_oracle::registry::{
    asset_of_feed, get_feed_description, get_feed_id, registered_assets, underlying_to_string,
    Asset, RegistryError,
};
use minterest_oracle::sequence::SequenceTracker;
use minterest_oracle::service::{
    feed_setup, feeds_to_create, find_quote, plan_round, BoundedTransaction, ConfigError,
    Configuration, PriceUpdate, Quote, QuoteFetchError, RoundError, Service, SubmitError,
    MORTALITY_PERIOD,
};
use rust_decimal::Decimal;

const DECODER: EventDecoder = EventDecoder { module: 30, round_variant: 2 };

fn round_record(feed_id: u32, round_id: u32) -> Vec<u8> {
    let mut b = vec![DECODER.module, DECODER.round_variant];
    b.extend_from_slice(&feed_id.to_le_bytes());
    b.extend_from_slice(&round_id.to_le_bytes());
    b
}

fn service(nonce: u32) -> Service {
    let args = vec!["oracle".to_string(), "127.0.0.1:9944".to_string()];
    Service::init(Configuration::new(&args).unwrap(), DECODER, nonce)
}

fn quotes() -> Vec<Quote> {
    vec![
        Quote { asset: Asset::Eth, price: UsdPrice::new(35, 1) },
        Quote { asset: Asset::Dot, price: UsdPrice::new(23456789, 4) },
        Quote { asset: Asset::Ksm, price: UsdPrice::new(0, 0) },
        Quote { asset: Asset::Btc, price: UsdPrice::new(42_000, 0) },
    ]
}

#[test]
fn feed_ids_follow_creation_order() {
    assert_eq!(get_feed_id(Asset::Eth), 0);
    assert_eq!(get_feed_id(Asset::Dot), 1);
    assert_eq!(get_feed_id(Asset::Ksm), 2);
    assert_eq!(get_feed_id(Asset::Btc), 3);
    for (i, a) in registered_assets().into_iter().enumerate() {
        assert_eq!(get_feed_id(a) as usize, i);
        assert_eq!(asset_of_feed(get_feed_id(a)), Ok(a));
    }
    assert_eq!(asset_of_feed(4), Err(RegistryError::UnknownFeed { feed_id: 4 }));
}

#[test]
fn feed_descriptions_and_quote_symbols() {
    assert_eq!(get_feed_description(Asset::Eth), "MIN-ETH");
    assert_eq!(get_feed_description(Asset::Dot), "MIN-DOT");
    assert_eq!(get_feed_description(Asset::Ksm), "MIN-KSM");
    assert_eq!(get_feed_description(Asset::Btc), "MIN-BTC");
    assert_eq!(underlying_to_string(Asset::Eth), "ethereum");
    assert_eq!(underlying_to_string(Asset::Dot), "polkadot");
    assert_eq!(underlying_to_string(Asset::Ksm), "kusama");
    assert_eq!(underlying_to_string(Asset::Btc), "bitcoin");
}

#[test]
fn scales_three_and_a_half() {
    assert_eq!(to_scaled(&UsdPrice::new(35, 1)), Some(3_500_000_000_000_000_000));
}

#[test]
fn scales_zero() {
    assert_eq!(to_scaled(&UsdPrice::new(0, 0)), Some(0));
    assert_eq!(to_scaled(&UsdPrice::new(0, 28)), Some(0));
}

#[test]
fn scales_integer_and_fraction_separately() {
    assert_eq!(to_scaled(&UsdPrice::new(23456789, 4)), Some(2_345_678_900_000_000_000_000));
}

#[test]
fn truncates_past_the_eighteenth_digit() {
    // 1.234567890123456789999
    assert_eq!(
        to_scaled(&UsdPrice::new(1_234_567_890_123_456_789_999, 21)),
        Some(1_234_567_890_123_456_789)
    );
    // 0.0000000000000000009 is below the encoding's resolution
    assert_eq!(to_scaled(&UsdPrice::new(9, 19)), Some(0));
}

#[test]
fn scaling_overflow_is_reported() {
    assert_eq!(to_scaled(&UsdPrice::new(u128::MAX, 0)), None);
    assert_eq!(
        to_scaled(&UsdPrice::new(340_282_366_920_938_463_463, 0)),
        Some(340_282_366_920_938_463_463_000_000_000_000_000_000)
    );
    assert_eq!(to_scaled(&UsdPrice::new(340_282_366_920_938_463_464, 0)), None);
}

#[test]
fn powers_of_ten() {
    assert_eq!(pow10_u128(0), 1);
    assert_eq!(pow10_u128(18), 1_000_000_000_000_000_000);
    assert_eq!(pow10_u128(38), 10u128.pow(38));
}

#[test]
fn prices_from_parts_and_decimals() {
    assert_eq!(UsdPrice::from_parts(35, 1), Some(UsdPrice { mantissa: 35, scale: 1 }));
    assert_eq!(UsdPrice::from_parts(-35, 1), None);
    assert_eq!(UsdPrice::from_parts(1, 29), None);
    assert_eq!(
        UsdPrice::from_decimal(&Decimal::new(23456789, 4)),
        Some(UsdPrice { mantissa: 23456789, scale: 4 })
    );
    assert_eq!(UsdPrice::from_decimal(&Decimal::new(-1, 0)), None);
    let p = UsdPrice::from_decimal(&Decimal::new(35, 1)).unwrap();
    assert_eq!(to_scaled(&p), Some(3_500_000_000_000_000_000));
}

#[test]
fn sequence_tracker_advances_by_one() {
    let mut t = SequenceTracker::new(7);
    assert_eq!(t.current(), 7);
    t.advance();
    t.advance();
    assert_eq!(t.current(), 9);
    assert!(t.can_advance());
    assert!(!SequenceTracker::new(u32::MAX).can_advance());
}

#[test]
fn batch_submissions_use_consecutive_sequence_numbers() {
    let mut s = service(41);
    let updates: Vec<PriceUpdate> = (0..5)
        .map(|i| PriceUpdate { feed_id: i % 4, round_id: 9, value: 100 + i as u128 })
        .collect();
    let txs = s.prepare_batch(&updates, 1_000).unwrap();
    let nonces: Vec<u32> = txs.iter().map(|t| t.nonce).collect();
    assert_eq!(nonces, vec![41, 42, 43, 44, 45]);
    assert_eq!(s.next_nonce(), 46);
    assert_eq!(
        txs[2],
        BoundedTransaction {
            feed_id: 2,
            round_id: 9,
            value: 102,
            nonce: 43,
            period: MORTALITY_PERIOD,
            from_block: 1_000
        }
    );
}

#[test]
fn single_submissions_advance_whatever_follows() {
    let mut s = service(3);
    let u = PriceUpdate { feed_id: 1, round_id: 2, value: 5 };
    let a = s.prepare_submission(&u, 10).unwrap();
    let b = s.prepare_submission(&u, 11).unwrap();
    assert_eq!((a.nonce, b.nonce), (3, 4));
    assert_eq!(b.period, 5);
    assert_eq!(b.from_block, 11);
    assert_eq!(s.next_nonce(), 5);
}

#[test]
fn exhausted_sequence_builds_nothing() {
    let mut s = service(u32::MAX);
    let u = PriceUpdate { feed_id: 0, round_id: 1, value: 1 };
    assert_eq!(s.prepare_submission(&u, 1), Err(SubmitError::SequenceExhausted));
    assert_eq!(s.next_nonce(), u32::MAX);
    let mut s = service(u32::MAX - 1);
    assert_eq!(s.prepare_batch(&vec![u, u], 1), Err(SubmitError::SequenceExhausted));
    assert_eq!(s.next_nonce(), u32::MAX - 1);
    assert_eq!(s.prepare_batch(&vec![u], 1).unwrap()[0].nonce, u32::MAX - 1);
}

#[test]
fn bootstrap_creates_each_feed_once() {
    let first = feeds_to_create(false);
    let assets: Vec<Asset> = first.iter().map(|f| f.asset).collect();
    assert_eq!(assets, vec![Asset::Eth, Asset::Dot, Asset::Ksm, Asset::Btc]);
    // the probe now reports feeds, so a second run creates nothing
    let second = feeds_to_create(!first.is_empty());
    assert!(second.is_empty());
    let f = &first[3];
    assert_eq!(f.description, "MIN-BTC");
    assert_eq!((f.payment, f.timeout, f.min_value, f.max_value), (0, 0, 0, u128::MAX));
    assert_eq!((f.min_submissions, f.decimals, f.restart_delay), (1, 0, 0));
    assert_eq!((f.pruning_window, f.max_debt), (None, None));
    assert_eq!(feed_setup(Asset::Eth), first[0]);
}

#[test]
fn subscription_recovers_after_stream_error() {
    let (mut state, first) = LinkState::start();
    assert_eq!(first, LinkAction::Subscribe);
    assert_eq!(state.step(LinkSignal::Subscribed), LinkAction::Receive);
    assert_eq!(state.step(LinkSignal::BatchReceived), LinkAction::Receive);
    assert_eq!(state.step(LinkSignal::StreamError), LinkAction::Wait { millis: RECONNECT_DELAY_MS });
    assert_eq!(RECONNECT_DELAY_MS, 1000);
    assert_eq!(state, LinkState::Disconnected);
    assert_eq!(state.step(LinkSignal::DelayElapsed), LinkAction::Subscribe);
    assert_eq!(state.step(LinkSignal::SubscribeFailed), LinkAction::Wait { millis: 1000 });
    assert_eq!(state.step(LinkSignal::DelayElapsed), LinkAction::Subscribe);
    assert_eq!(state.step(LinkSignal::Subscribed), LinkAction::Receive);
    assert_eq!(state, LinkState::Active);
    // a signal that does not belong to the state changes nothing
    assert_eq!(state.step(LinkSignal::DelayElapsed), LinkAction::Receive);
}

#[test]
fn rounds_after_recovery_are_dispatched_once() {
    let mut s = service(0);
    assert_eq!(s.link(), LinkState::Connecting);
    s.on_link_signal(LinkSignal::Subscribed);
    let before = s.decoder().decode_batch(&vec![round_record(0, 1)]);
    assert_eq!(round_requests(&before), vec![RoundRequest { feed_id: 0, round_id: 1 }]);
    s.on_link_signal(LinkSignal::StreamError);
    s.on_link_signal(LinkSignal::DelayElapsed);
    assert_eq!(s.on_link_signal(LinkSignal::Subscribed), LinkAction::Receive);
    let after = s.decoder().decode_batch(&vec![round_record(1, 2)]);
    assert_eq!(round_requests(&after), vec![RoundRequest { feed_id: 1, round_id: 2 }]);
}

#[test]
fn decode_failure_leaves_rest_of_batch() {
    let batch = vec![round_record(0, 7), vec![DECODER.module, DECODER.round_variant, 1, 2], round_record(3, 7)];
    let decoded = DECODER.decode_batch(&batch);
    assert_eq!(decoded.len(), 3);
    assert_eq!(decoded[1], Err(DecodeError::BadLength { expected: ROUND_RECORD_LEN, found: 4 }));
    assert_eq!(
        round_requests(&decoded),
        vec![RoundRequest { feed_id: 0, round_id: 7 }, RoundRequest { feed_id: 3, round_id: 7 }]
    );
}

#[test]
fn decodes_records() {
    assert_eq!(
        DECODER.decode_record(&round_record(0x0102_0304, 0xAABB_CCDD)),
        Ok(LedgerEvent::InitiateNewRound { feed_id: 0x0102_0304, round_id: 0xAABB_CCDD })
    );
    assert_eq!(DECODER.decode_record(&[5, 1, 9, 9]), Ok(LedgerEvent::Other { module: 5, variant: 1 }));
    assert_eq!(DECODER.decode_record(&[30]), Err(DecodeError::Truncated { len: 1 }));
    assert_eq!(DECODER.decode_record(&[]), Err(DecodeError::Truncated { len: 0 }));
    let other = vec![Ok(LedgerEvent::Other { module: 1, variant: 1 })];
    assert!(round_requests(&other).is_empty());
}

#[test]
fn plans_price_for_requested_feed() {
    let q = Ok(quotes());
    let r = plan_round(&RoundRequest { feed_id: 1, round_id: 12 }, &q);
    assert_eq!(r, Ok(PriceUpdate { feed_id: 1, round_id: 12, value: 2_345_678_900_000_000_000_000 }));
    let r = plan_round(&RoundRequest { feed_id: 0, round_id: 3 }, &q);
    assert_eq!(r, Ok(PriceUpdate { feed_id: 0, round_id: 3, value: 3_500_000_000_000_000_000 }));
}

#[test]
fn round_errors() {
    let req = RoundRequest { feed_id: 3, round_id: 1 };
    assert_eq!(plan_round(&req, &Err(QuoteFetchError)), Err(RoundError::FetchFailed));
    assert_eq!(
        plan_round(&RoundRequest { feed_id: 9, round_id: 1 }, &Ok(quotes())),
        Err(RoundError::UnknownFeed { feed_id: 9 })
    );
    let mut q = quotes();
    q.pop();
    assert_eq!(plan_round(&req, &Ok(q.clone())), Err(RoundError::MissingQuote { asset: Asset::Btc }));
    q.push(Quote { asset: Asset::Btc, price: UsdPrice { mantissa: 1, scale: 29 } });
    assert_eq!(plan_round(&req, &Ok(q.clone())), Err(RoundError::InvalidQuote { asset: Asset::Btc }));
    q.pop();
    q.push(Quote { asset: Asset::Btc, price: UsdPrice::new(u128::MAX, 0) });
    assert_eq!(plan_round(&req, &Ok(q)), Err(RoundError::Overflow { asset: Asset::Btc }));
}

#[test]
fn first_quote_of_an_asset_counts() {
    let mut q = quotes();
    q.push(Quote { asset: Asset::Eth, price: UsdPrice::new(1, 0) });
    assert_eq!(find_quote(&q, Asset::Eth), Some(UsdPrice::new(35, 1)));
    assert_eq!(find_quote(&vec![], Asset::Eth), None);
}

#[test]
fn configuration_from_command_line() {
    let args = vec!["oracle".to_string(), "127.0.0.1:9944".to_string()];
    let c = Configuration::new(&args).unwrap();
    assert_eq!(c.node_url, "ws://127.0.0.1:9944");
    assert!(matches!(Configuration::new(&vec!["oracle".to_string()]), Err(ConfigError::Usage { found: 1 })));
    let s = service(0);
    assert_eq!(s.node_url(), "ws://127.0.0.1:9944");
    assert_eq!(s.decoder(), DECODER);
}
