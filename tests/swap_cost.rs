use swap_cost::deadline::deadline_at;
use swap_cost::deadline::get_valid_timestamp;
use swap_cost::error::SwapError;
use swap_cost::session::account_set;
use swap_cost::session::destination_token_address;
use swap_cost::session::router_address;
use swap_cost::session::swap_call;
use swap_cost::session::Action;
use swap_cost::session::Event;
use swap_cost::session::Stage;
use swap_cost::session::SwapConfig;
use swap_cost::session::SwapSession;
use swap_cost::units::whole_units;
use swap_cost::units::Address;
use swap_cost::units::Wei;

fn addr(b: u8) -> Address {
    Address { bytes: [b; 20] }
}

fn now_ms() -> u128 {
    std::time::SystemTime::now()
        .duration_since(std::time::UNIX_EPOCH)
        .unwrap()
        .as_millis()
}

#[test]
fn deadline_is_reading_plus_offset() {
    assert_eq!(deadline_at(1_700_000_000_000, 300_000), Ok(1_700_000_300_000));
    assert_eq!(deadline_at(0, 0), Ok(0));
    assert_eq!(deadline_at(u128::MAX, 0), Ok(u128::MAX));
}

#[test]
fn deadline_overflow_is_an_error() {
    assert_eq!(deadline_at(u128::MAX, 1), Err(SwapError::Overflow));
    assert_eq!(deadline_at(u128::MAX - 299_999, 300_000), Err(SwapError::Overflow));
}

#[test]
fn deadlines_lie_as_far_apart_as_readings() {
    let earlier = deadline_at(1_000, 300_000).unwrap();
    let later = deadline_at(1_250, 300_000).unwrap();
    assert!(later >= earlier + 250);
    assert_eq!(later - earlier, 250);
}

#[test]
fn clock_deadline_lies_ahead_of_now() {
    let before = now_ms();
    let first = get_valid_timestamp(300_000).unwrap();
    let second = get_valid_timestamp(300_000).unwrap();
    let after = now_ms();
    assert!(first >= before + 300_000);
    assert!(second >= first);
    assert!(second <= after + 300_000);
}

#[test]
fn five_units_display_as_five() {
    let b = Wei::from_u128(5_000_000_000_000_000_000);
    assert_eq!(whole_units(b), Wei::from_u64(5));
}

#[test]
fn fractions_of_a_unit_are_dropped() {
    assert_eq!(whole_units(Wei::from_u64(999_999_999_999_999_999)), Wei::from_u64(0));
    assert_eq!(whole_units(Wei::from_u64(1_999_999_999_999_999_999)), Wei::from_u64(1));
    assert_eq!(whole_units(Wei::from_u64(0)), Wei::from_u64(0));
}

#[test]
fn whole_units_of_a_wide_balance() {
    let b = Wei { limbs: [0, 0, 1, 0] };
    assert_eq!(whole_units(b), Wei::from_u128(340_282_366_920_938_463_463));
}

#[test]
fn amounts_from_integers() {
    assert_eq!(Wei::from_u64(7).limbs, [7, 0, 0, 0]);
    assert_eq!(Wei::from_u128((3u128 << 64) + 9).limbs, [9, 3, 0, 0]);
}

#[test]
fn operator_is_appended() {
    let (a, b, c) = (addr(1), addr(2), addr(3));
    assert_eq!(account_set(vec![a, b], c), vec![a, b, c]);
}

#[test]
fn operator_duplicate_is_kept() {
    let (a, b) = (addr(1), addr(2));
    assert_eq!(account_set(vec![a, b], a), vec![a, b, a]);
    assert_eq!(account_set(vec![], a), vec![a]);
}

#[test]
fn config_holds_the_fixed_values() {
    let c = SwapConfig::new(addr(9));
    assert_eq!(c.operator, addr(9));
    assert_eq!(c.router, router_address());
    assert_eq!(c.router.bytes[0], 0x7a);
    assert_eq!(c.router.bytes[19], 0x8d);
    assert_eq!(c.destination_token, destination_token_address());
    assert_eq!(c.destination_token.bytes[0], 0x34);
    assert_eq!(c.destination_token.bytes[19], 0x88);
    assert_eq!(c.deadline_offset_ms, 300_000);
    assert_eq!(c.amount_out_min, Wei::from_u64(1000));
    assert_eq!(c.value, Wei::from_u64(50_000_000_000_000_000));
    assert_eq!(c.gas_limit, Wei::from_u64(500_000));
}

#[test]
fn swap_call_carries_path_and_deadline() {
    let c = SwapConfig::new(addr(9));
    let call = swap_call(&c, addr(1), addr(5), 42);
    assert_eq!(call.path, vec![addr(5), destination_token_address()]);
    assert_eq!(call.deadline, 42);
    assert_eq!(call.recipient, addr(1));
    assert_eq!(call.sender, addr(1));
    assert_eq!(call.amount_out_min, Wei::from_u64(1000));
    assert_eq!(call.value, c.value);
    assert_eq!(call.gas_limit, c.gas_limit);
}

#[test]
fn full_run_reports_every_answer() {
    let (a, b, op, weth) = (addr(1), addr(2), addr(3), addr(4));
    let (mut s, first) = SwapSession::start(SwapConfig::new(op));
    assert_eq!(first, Action::ListAccounts);
    assert_eq!(s.step(Event::Accounts(vec![a, b])), Action::FetchBalance(a));
    assert_eq!(s.accounts, vec![a, b, op]);
    assert_eq!(s.step(Event::Balance(Wei::from_u64(10))), Action::FetchBalance(b));
    assert_eq!(s.step(Event::Balance(Wei::from_u64(20))), Action::FetchBalance(op));
    let router = router_address();
    assert_eq!(s.step(Event::Balance(Wei::from_u64(30))), Action::QueryWrappedNative(router));
    assert_eq!(s.step(Event::WrappedNative(weth)), Action::ComputeDeadline(300_000));
    let deadline: u128 = 1_700_000_300_000;
    match s.step(Event::Deadline(deadline)) {
        Action::EstimateGas(call) => {
            assert_eq!(call.path, vec![weth, destination_token_address()]);
            assert_eq!(call.deadline, deadline);
            assert_eq!(call.recipient, a);
            assert_eq!(call.sender, a);
            assert_eq!(call.value, Wei::from_u64(50_000_000_000_000_000));
        }
        other => panic!("unexpected action {:?}", other),
    }
    assert_eq!(s.step(Event::GasEstimate(Wei::from_u64(123_456))), Action::FetchGasPrice);
    match s.step(Event::GasPrice(Wei::from_u64(7_000_000_000))) {
        Action::Report(r) => {
            assert_eq!(r.accounts, vec![a, b, op]);
            let expected = vec![Wei::from_u64(10), Wei::from_u64(20), Wei::from_u64(30)];
            assert_eq!(r.balances, expected);
            assert_eq!(r.wrapped_native, weth);
            assert_eq!(r.deadline, deadline);
            assert_eq!(r.gas_estimate, Wei::from_u64(123_456));
            assert_eq!(r.gas_price, Wei::from_u64(7_000_000_000));
        }
        other => panic!("unexpected action {:?}", other),
    }
    assert_eq!(s.stage, Stage::Finished);
    assert_eq!(s.step(Event::GasPrice(Wei::from_u64(1))), Action::Abort(SwapError::OutOfOrder));
    assert_eq!(s.stage, Stage::Finished);
}

#[test]
fn failed_second_balance_ends_the_run() {
    let (a, b, op) = (addr(1), addr(2), addr(3));
    let (mut s, _) = SwapSession::start(SwapConfig::new(op));
    assert_eq!(s.step(Event::Accounts(vec![a, b])), Action::FetchBalance(a));
    assert_eq!(s.step(Event::Balance(Wei::from_u64(10))), Action::FetchBalance(b));
    let e = SwapError::Rpc(String::from("connection reset"));
    assert_eq!(s.step(Event::Failed(e.clone())), Action::Abort(e));
    assert_eq!(s.stage, Stage::Aborted);
    let later = vec![
        Event::Balance(Wei::from_u64(1)),
        Event::WrappedNative(addr(4)),
        Event::Deadline(5),
        Event::GasEstimate(Wei::from_u64(1)),
        Event::GasPrice(Wei::from_u64(1)),
    ];
    for ev in later {
        assert_eq!(s.step(ev), Action::Abort(SwapError::OutOfOrder));
        assert_eq!(s.stage, Stage::Aborted);
    }
}

#[test]
fn outcome_out_of_order_aborts() {
    let (mut s, _) = SwapSession::start(SwapConfig::new(addr(3)));
    assert_eq!(s.step(Event::GasPrice(Wei::from_u64(1))), Action::Abort(SwapError::OutOfOrder));
    assert_eq!(s.stage, Stage::Aborted);
}

#[test]
fn failure_keeps_its_message() {
    let (mut s, _) = SwapSession::start(SwapConfig::new(addr(3)));
    assert_eq!(s.step(Event::Accounts(vec![])), Action::FetchBalance(addr(3)));
    assert_eq!(s.step(Event::Balance(Wei::from_u64(1))), Action::QueryWrappedNative(router_address()));
    assert_eq!(s.step(Event::WrappedNative(addr(4))), Action::ComputeDeadline(300_000));
    let e = SwapError::ContractCall(String::from("execution reverted"));
    assert_eq!(s.step(Event::Failed(e.clone())), Action::Abort(e));
}
