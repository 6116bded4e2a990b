use geyser_fanin::aggregator::{aggregate, AggregatorAction};
use geyser_fanin::text::{render_line, to_decimal};

#[test]
fn decimal_of_small_and_large_numbers() {
    assert_eq!(to_decimal(0), "0");
    assert_eq!(to_decimal(7), "7");
    assert_eq!(to_decimal(9), "9");
    assert_eq!(to_decimal(10), "10");
    assert_eq!(to_decimal(101), "101");
    assert_eq!(to_decimal(1234567890), "1234567890");
    assert_eq!(to_decimal(u64::MAX), "18446744073709551615");
}

#[test]
fn decimal_agrees_with_the_standard_formatting() {
    let mut n: u64 = 1;
    for _ in 0..64 {
        assert_eq!(to_decimal(n), format!("{}", n));
        assert_eq!(to_decimal(n - 1), format!("{}", n - 1));
        n = n.wrapping_mul(3).wrapping_add(11);
    }
}

#[test]
fn line_is_label_then_value() {
    assert_eq!(render_line(101), "Transactions: 101");
    assert_eq!(render_line(0), "Transactions: 0");
    assert_eq!(render_line(u64::MAX), format!("Transactions: {}", u64::MAX));
}

#[test]
fn aggregator_emits_each_value_and_stops_at_the_end() {
    assert_eq!(aggregate(Some(5)), AggregatorAction::Emit("Transactions: 5".to_string()));
    assert_eq!(aggregate(Some(0)), AggregatorAction::Emit("Transactions: 0".to_string()));
    assert_eq!(aggregate(None), AggregatorAction::Stop);
}
