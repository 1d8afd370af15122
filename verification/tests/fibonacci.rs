use stylus_contracts::{Fibonacci, U256};
use stylus_sdk::alloy_primitives::U256 as Uint256;

fn reference_fib(n: u32) -> U256 {
    let mut a = Uint256::ZERO;
    let mut b = Uint256::from(1u64);
    for _ in 0..n {
        let next = a.wrapping_add(b);
        a = b;
        b = next;
    }
    U256::from_limbs(a.into_limbs())
}

#[test]
fn fib_first_values() {
    let mut f = Fibonacci::new();
    let expected: [u64; 11] = [0, 1, 1, 2, 3, 5, 8, 13, 21, 34, 55];
    for (n, want) in expected.iter().enumerate() {
        assert_eq!(f.compute(n as u32), U256::from_u64(*want));
    }
}

#[test]
fn fib_keeps_last_result() {
    let mut f = Fibonacci::new();
    assert_eq!(f.get_result(), U256::zero());
    assert_eq!(f.compute(10), U256::from_u64(55));
    assert_eq!(f.get_result(), U256::from_u64(55));
    assert_eq!(f.compute(0), U256::zero());
    assert_eq!(f.get_result(), U256::zero());
}

#[test]
fn fib_93_is_the_last_in_one_limb() {
    let mut f = Fibonacci::new();
    assert_eq!(f.compute(93), U256::from_u64(12200160415121876738));
    assert_eq!(f.compute(94), U256::from_limbs([1293530146158671551, 1, 0, 0]));
}

#[test]
fn fib_100_spans_two_limbs() {
    let mut f = Fibonacci::new();
    assert_eq!(f.compute(100), U256::from_limbs([0x33db76a7c594bfc3, 0x13, 0, 0]));
}

#[test]
fn fib_370_is_the_last_that_fits() {
    let mut f = Fibonacci::new();
    assert_eq!(
        f.compute(370),
        U256::from_limbs([
            0xcc70eb22d7c28187,
            0xe1cc739052cbfa4b,
            0x4fdf4e79a339eb28,
            0xd12bf5c7f45a49f5,
        ])
    );
}

#[test]
fn fib_371_wraps() {
    let mut f = Fibonacci::new();
    assert_eq!(
        f.compute(371),
        U256::from_limbs([
            0x9ed0450ef1f50fe9,
            0x4467ef91760c85b1,
            0x55cdedbcf8df8529,
            0x52726b6083114e05,
        ])
    );
}

#[test]
fn fib_1000_modulo_word() {
    let mut f = Fibonacci::new();
    assert_eq!(
        f.compute(1000),
        U256::from_limbs([
            0x0b594dc75cc0604b,
            0x4c8e6d5286805fc7,
            0x0930b7e8803c312b,
            0x2e3510283c1d60b0,
        ])
    );
}

#[test]
fn fib_agrees_with_plain_iteration() {
    let mut f = Fibonacci::new();
    for n in [0u32, 1, 2, 3, 50, 255, 369, 370, 371, 372, 500, 4096] {
        assert_eq!(f.compute(n), reference_fib(n));
    }
}

#[test]
fn benchmark_is_compute() {
    let mut f = Fibonacci::new();
    let mut g = Fibonacci::new();
    for n in [0u32, 1, 10, 400] {
        assert_eq!(f.benchmark(n), g.compute(n));
        assert_eq!(f.get_result(), g.get_result());
    }
}
