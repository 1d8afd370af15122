use stylus_contracts::{Address, Erc20, U256};

fn account(tag: u8) -> Address {
    Address::from_bytes([tag; 20])
}

fn minted(to: Address, amount: u64) -> Erc20 {
    let mut t = Erc20::new();
    t.initialize(String::from("Token"), String::from("TKN"));
    t.mint(to, U256::from_u64(amount));
    t
}

#[test]
fn token_starts_blank() {
    let t = Erc20::new();
    assert_eq!(t.name(), "");
    assert_eq!(t.symbol(), "");
    assert_eq!(t.decimals, 0);
    assert_eq!(t.total_supply(), U256::zero());
    assert_eq!(t.balance_of(account(1)), U256::zero());
}

#[test]
fn token_initialize_names_it() {
    let mut t = Erc20::new();
    t.mint(account(1), U256::from_u64(3));
    t.initialize(String::from("Verified Token"), String::from("VT"));
    assert_eq!(t.name(), "Verified Token");
    assert_eq!(t.symbol(), "VT");
    assert_eq!(t.decimals, 18);
    assert_eq!(t.total_supply(), U256::from_u64(3));
    assert_eq!(t.balance_of(account(1)), U256::from_u64(3));
    t.initialize(String::from("Other"), String::from("O"));
    assert_eq!(t.name(), "Other");
    assert_eq!(t.symbol(), "O");
}

#[test]
fn mint_raises_balance_and_supply() {
    let mut t = minted(account(1), 5);
    t.mint(account(1), U256::from_u64(7));
    t.mint(account(2), U256::from_u64(30));
    assert_eq!(t.balance_of(account(1)), U256::from_u64(12));
    assert_eq!(t.balance_of(account(2)), U256::from_u64(30));
    assert_eq!(t.balance_of(account(3)), U256::zero());
    assert_eq!(t.total_supply(), U256::from_u64(42));
}

#[test]
fn mint_wraps_at_largest_word() {
    let mut t = Erc20::new();
    t.mint(account(1), U256::from_limbs([u64::MAX; 4]));
    t.mint(account(1), U256::from_u64(2));
    assert_eq!(t.balance_of(account(1)), U256::from_u64(1));
    assert_eq!(t.total_supply(), U256::from_u64(1));
}

#[test]
fn transfer_moves_tokens() {
    let mut t = minted(account(1), 100);
    assert!(t.transfer(account(1), account(2), U256::from_u64(30)));
    assert_eq!(t.balance_of(account(1)), U256::from_u64(70));
    assert_eq!(t.balance_of(account(2)), U256::from_u64(30));
    assert_eq!(t.total_supply(), U256::from_u64(100));
    assert!(t.transfer(account(2), account(3), U256::from_u64(30)));
    assert_eq!(t.balance_of(account(2)), U256::zero());
    assert_eq!(t.balance_of(account(3)), U256::from_u64(30));
}

#[test]
fn transfer_of_whole_balance_and_of_nothing() {
    let mut t = minted(account(1), 100);
    assert!(t.transfer(account(1), account(2), U256::from_u64(100)));
    assert_eq!(t.balance_of(account(1)), U256::zero());
    assert_eq!(t.balance_of(account(2)), U256::from_u64(100));
    assert!(t.transfer(account(1), account(2), U256::zero()));
    assert_eq!(t.balance_of(account(2)), U256::from_u64(100));
}

#[test]
fn transfer_beyond_balance_is_refused() {
    let mut t = minted(account(1), 100);
    assert!(!t.transfer(account(1), account(2), U256::from_u64(101)));
    assert!(!t.transfer(account(2), account(1), U256::from_u64(1)));
    assert_eq!(t.balance_of(account(1)), U256::from_u64(100));
    assert_eq!(t.balance_of(account(2)), U256::zero());
    assert_eq!(t.total_supply(), U256::from_u64(100));
}

#[test]
fn transfer_compares_whole_words() {
    let mut t = Erc20::new();
    t.mint(account(1), U256::from_limbs([0, 1, 0, 0]));
    assert!(!t.transfer(account(1), account(2), U256::from_limbs([0, 0, 1, 0])));
    assert!(t.transfer(account(1), account(2), U256::from_limbs([u64::MAX, 0, 0, 0])));
    assert_eq!(t.balance_of(account(1)), U256::from_u64(1));
    assert_eq!(t.balance_of(account(2)), U256::from_limbs([u64::MAX, 0, 0, 0]));
}

#[test]
fn transfer_to_oneself_changes_nothing() {
    let mut t = minted(account(1), 100);
    assert!(t.transfer(account(1), account(1), U256::from_u64(60)));
    assert_eq!(t.balance_of(account(1)), U256::from_u64(100));
    assert!(!t.transfer(account(1), account(1), U256::from_u64(101)));
    assert_eq!(t.balance_of(account(1)), U256::from_u64(100));
}

#[test]
fn transfer_wraps_the_receiver() {
    let mut t = Erc20::new();
    t.mint(account(1), U256::from_u64(5));
    t.mint(account(2), U256::from_limbs([u64::MAX; 4]));
    assert!(t.transfer(account(1), account(2), U256::from_u64(3)));
    assert_eq!(t.balance_of(account(1)), U256::from_u64(2));
    assert_eq!(t.balance_of(account(2)), U256::from_u64(2));
}

#[test]
fn transfer_keeps_name_and_decimals() {
    let mut t = minted(account(1), 100);
    t.transfer(account(1), account(2), U256::from_u64(1));
    assert_eq!(t.name(), "Token");
    assert_eq!(t.symbol(), "TKN");
    assert_eq!(t.decimals, 18);
}
