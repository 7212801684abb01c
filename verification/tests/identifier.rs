use hydra::identifier::{checkpoint_name, fresh_checkpoint_name};
use std::collections::HashSet;

#[test]
fn names_are_shortest_decimal_numerals() {
    assert_eq!(checkpoint_name(0), "0");
    assert_eq!(checkpoint_name(7), "7");
    assert_eq!(checkpoint_name(10), "10");
    assert_eq!(checkpoint_name(407), "407");
    assert_eq!(checkpoint_name(1_000_000), "1000000");
    assert_eq!(checkpoint_name(9_007_199_254_740_993), "9007199254740993");
    assert_eq!(checkpoint_name(u64::MAX), "18446744073709551615");
}

#[test]
fn names_read_back_as_the_draw() {
    let draws: [u64; 9] = [0, 1, 9, 10, 99, 100, 12_345_678_901_234_567_890, u64::MAX - 1, u64::MAX];
    for draw in draws {
        let name = checkpoint_name(draw);
        assert_eq!(name, draw.to_string());
        assert_eq!(name.parse::<u64>(), Ok(draw));
    }
}

#[test]
fn names_of_powers_of_ten_have_no_leading_zero() {
    let mut power: u64 = 1;
    let mut digits: usize = 1;
    while digits <= 20 {
        let name = checkpoint_name(power);
        assert_eq!(name.len(), digits);
        assert!(name.starts_with('1'));
        assert!(name[1..].chars().all(|c| c == '0'));
        let below = checkpoint_name(power - 1);
        assert_eq!(below.len(), if digits == 1 { 1 } else { digits - 1 });
        if digits == 20 {
            break;
        }
        power *= 10;
        digits += 1;
    }
}

#[test]
fn distinct_draws_give_distinct_names() {
    assert_ne!(checkpoint_name(1), checkpoint_name(10));
    assert_ne!(checkpoint_name(12), checkpoint_name(21));
    assert_ne!(checkpoint_name(0), checkpoint_name(u64::MAX));
    assert_eq!(checkpoint_name(5150), checkpoint_name(5150));
}

#[test]
fn fresh_names_parse_as_unsigned_64_bit() {
    for _ in 0..1000 {
        let name = fresh_checkpoint_name();
        let parsed = name.parse::<u64>();
        assert!(parsed.is_ok());
        assert_eq!(checkpoint_name(parsed.unwrap()), name);
    }
}

#[test]
fn fresh_names_of_a_large_batch_are_pairwise_distinct() {
    let size: usize = 200_000;
    let mut seen: HashSet<String> = HashSet::with_capacity(size);
    for _ in 0..size {
        assert!(seen.insert(fresh_checkpoint_name()));
    }
    assert_eq!(seen.len(), size);
}
