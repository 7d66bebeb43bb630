use token_cell::cell::TokenCell;
use token_cell::cell::TokenCellTrait;
use token_cell::runtime::IdCounter;
use token_cell::runtime::IdMismatch;
use token_cell::runtime::RuntimeToken;
use token_cell::token::TokenTrait;

fn two_tokens() -> (RuntimeToken, RuntimeToken) {
    let counter: &'static IdCounter = Box::leak(Box::new(IdCounter::new()));
    let first = RuntimeToken::new(counter).unwrap();
    let second = RuntimeToken::new(counter).unwrap();
    (first, second)
}

#[test]
fn into_inner_returns_the_initial_value_when_nothing_was_written() {
    let (maker, _) = two_tokens();
    let cell = TokenCell::new(10, &maker);
    assert_eq!(cell.into_inner(), 10);
}

#[test]
fn into_inner_returns_the_last_value_written() {
    let (mut maker, mut stranger) = two_tokens();
    let mut cell = TokenCell::new(10, &maker);
    *cell.try_borrow_mut(&mut maker).unwrap() = 20;
    *cell.get_mut() = 30;
    assert!(cell.try_borrow_mut(&mut stranger).is_err());
    *cell.borrow_mut(&mut maker) = 40;
    {
        let mut guard = cell.try_guard_mut(&mut maker).unwrap();
        *guard = 50;
        *guard += 1;
    }
    assert_eq!(cell.into_inner(), 51);
}

#[test]
fn get_mut_needs_no_token() {
    let (maker, _) = two_tokens();
    let mut cell = TokenCell::new(String::from("a"), &maker);
    cell.get_mut().push('b');
    assert_eq!(cell.try_borrow(&maker).unwrap().as_str(), "ab");
    assert_eq!(cell.into_inner(), "ab");
}

#[test]
fn a_failed_write_leaves_the_value() {
    let (mut maker, mut stranger) = two_tokens();
    let mut cell = TokenCell::new(7, &maker);
    assert_eq!(
        cell.try_borrow_mut(&mut stranger).err(),
        Some(IdMismatch { cell: 0, token: 1 })
    );
    assert!(cell.try_guard_mut(&mut stranger).is_err());
    assert_eq!(stranger.identifier(), 1);
    assert_eq!(*cell.try_borrow_mut(&mut maker).unwrap(), 7);
    assert_eq!(cell.into_inner(), 7);
}

#[test]
fn guard_reads_the_value_and_gives_the_token_back() {
    let (maker, _) = two_tokens();
    let cell = TokenCell::new(3, &maker);
    let guard = cell.try_guard(&maker).unwrap();
    assert_eq!(*guard, 3);
    assert_eq!(guard.token().identifier(), 0);
    let again = cell.try_guard(guard.token()).unwrap();
    assert_eq!(*again + *guard, 6);
}

#[test]
fn mutable_guard_writes_and_gives_the_token_back() {
    let (mut maker, _) = two_tokens();
    let mut cell = TokenCell::new(3, &maker);
    let mut other = TokenCell::new(100, &maker);
    {
        let mut guard = cell.try_guard_mut(&mut maker).unwrap();
        assert_eq!(*guard, 3);
        *guard = 4;
        assert_eq!(guard.token().identifier(), 0);
        *other.borrow_mut(guard.token_mut()) += 1;
        *guard += 1;
        assert_eq!(*guard, 5);
    }
    assert_eq!(cell.into_inner(), 5);
    assert_eq!(other.into_inner(), 101);
    assert_eq!(maker.identifier(), 0);
}

#[test]
fn many_readers_share_one_token() {
    let (maker, _) = two_tokens();
    let a = TokenCell::new(1, &maker);
    let b = TokenCell::new(2, &maker);
    let ra = a.borrow(&maker);
    let rb = b.borrow(&maker);
    let ra2 = a.try_borrow(&maker).unwrap();
    assert_eq!(*ra + *rb + *ra2, 4);
}
