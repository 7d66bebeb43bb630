use std::cell::Cell;
use token_cell::cell::TokenCell;
use token_cell::cell::TokenCellTrait;
use token_cell::cell::TokenGuard;
use token_cell::cell::TokenGuardMut;
use token_cell::runtime::IdCounter;
use token_cell::runtime::IdMismatch;
use token_cell::runtime::RuntimeToken;
use token_cell::token::TokenTrait;
use token_cell::unchecked::UncheckedToken;

fn two_tokens() -> (RuntimeToken, RuntimeToken) {
    let counter: &'static IdCounter = Box::leak(Box::new(IdCounter::new()));
    let first = RuntimeToken::new(counter).unwrap();
    let second = RuntimeToken::new(counter).unwrap();
    (first, second)
}

#[test]
fn applying_a_map_is_running_the_operation_on_the_borrow() {
    let (maker, _) = two_tokens();
    let cell = TokenCell::new(21, &maker);
    let double = |g: TokenGuard<i32, RuntimeToken>| *g * 2;
    let direct = *cell.borrow(&maker) * 2;
    let applied = cell.map(double).try_apply(&maker);
    assert_eq!(applied.ok(), Some(42));
    assert_eq!(direct, 42);
}

#[test]
fn a_map_does_nothing_until_applied() {
    let (maker, _) = two_tokens();
    let ran = Cell::new(0);
    let cell = TokenCell::new(1, &maker);
    let map = cell.map(|g: TokenGuard<i32, RuntimeToken>| {
        ran.set(ran.get() + 1);
        *g
    });
    assert_eq!(ran.get(), 0);
    assert_eq!(map.try_apply(&maker).ok(), Some(1));
    assert_eq!(ran.get(), 1);
}

#[test]
fn a_refused_map_comes_back_unrun_and_can_be_retried() {
    let (maker, stranger) = two_tokens();
    let ran = Cell::new(false);
    let cell = TokenCell::new(5, &maker);
    let map = cell.map(|g: TokenGuard<i32, RuntimeToken>| {
        ran.set(true);
        *g + 1
    });
    let (map, error) = match map.try_apply(&stranger) {
        Ok(_) => panic!("a stranger's token ran the operation"),
        Err(back) => back,
    };
    assert_eq!(error, IdMismatch { cell: 0, token: 1 });
    assert!(!ran.get());
    assert_eq!(map.try_apply(&maker).ok(), Some(6));
    assert!(ran.get());
}

#[test]
fn a_mutable_map_writes_through_the_guard() {
    let (mut maker, _) = two_tokens();
    let mut cell = TokenCell::new(5, &maker);
    let previous = cell
        .map_mut(|mut g: TokenGuardMut<i32, RuntimeToken>| {
            let before = *g;
            *g = 9;
            before
        })
        .try_apply(&mut maker);
    assert_eq!(previous, Ok(5));
    assert_eq!(cell.into_inner(), 9);
}

#[test]
fn a_refused_mutable_map_leaves_the_cell() {
    let (maker, mut stranger) = two_tokens();
    let ran = Cell::new(false);
    let mut cell = TokenCell::new(5, &maker);
    let refused = cell
        .map_mut(|mut g: TokenGuardMut<i32, RuntimeToken>| {
            ran.set(true);
            *g = 9;
        })
        .try_apply(&mut stranger);
    assert_eq!(refused, Err(IdMismatch { cell: 0, token: 1 }));
    assert!(!ran.get());
    assert_eq!(cell.into_inner(), 5);
}

#[test]
fn an_unapplied_mutable_map_leaves_the_cell() {
    let (maker, _) = two_tokens();
    let mut cell = TokenCell::new(5, &maker);
    let map = cell.map_mut(|mut g: TokenGuardMut<i32, RuntimeToken>| *g = 9);
    drop(map);
    assert_eq!(cell.into_inner(), 5);
}

#[test]
fn apply_runs_the_operation_for_an_infallible_kind() {
    let mut token = UncheckedToken::new(()).unwrap();
    let mut cell = TokenCell::new(String::from("a"), &token);
    let length = cell.map(|g: TokenGuard<String, UncheckedToken>| g.len()).apply(&token);
    assert_eq!(length, 1);
    cell.map_mut(|mut g: TokenGuardMut<String, UncheckedToken>| g.push('b')).apply(&mut token);
    assert_eq!(cell.into_inner(), "ab");
}

#[test]
fn the_operation_sees_the_token_that_was_presented() {
    let (mut maker, _) = two_tokens();
    let mut cell = TokenCell::new(0u16, &maker);
    let seen = cell
        .map(|g: TokenGuard<u16, RuntimeToken>| g.token().identifier())
        .try_apply(&maker);
    assert_eq!(seen.ok(), Some(0));
    let written = cell
        .map_mut(|mut g: TokenGuardMut<u16, RuntimeToken>| {
            let id = g.token_mut().identifier();
            *g = id + 7;
            id
        })
        .try_apply(&mut maker);
    assert_eq!(written, Ok(0));
    assert_eq!(cell.into_inner(), 7);
}
