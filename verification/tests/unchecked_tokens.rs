use token_cell::cell::TokenCell;
use token_cell::cell::TokenCellTrait;
use token_cell::cell::TokenGuardMut;
use token_cell::token::TokenTrait;
use token_cell::unchecked::UncheckedToken;

#[test]
fn one_token_serves_many_cells() {
    let mut token = UncheckedToken::new(()).unwrap();
    let mut cell1 = TokenCell::new(1, &token);
    let mut cell2 = TokenCell::new(2, &token);
    let mut token2 = UncheckedToken::new(()).unwrap();
    let mut cell3 = TokenCell::new(3, &token2);
    let _cell4 = TokenCell::new(4, &token2);
    *cell1.borrow_mut(&mut token) = 5;
    *cell2.borrow_mut(&mut token) = 6;
    let map = cell2.map_mut(|mut v: TokenGuardMut<i32, UncheckedToken>| *v = 9);
    *cell3.borrow_mut(&mut token2) = 7;
    let cell3_mutref = &mut cell3;
    *cell3_mutref.get_mut() = 8;
    let borrow = cell3.borrow(&token2);
    map.apply(&mut token);
    assert_eq!(*borrow, 8);
    assert_eq!(*cell1.borrow(&token), 5);
    assert_eq!(cell2.into_inner(), 9);
}

#[test]
fn any_instance_opens_any_cell() {
    let maker = UncheckedToken::new(()).unwrap();
    let mut other = UncheckedToken::new(()).unwrap();
    let mut cell = TokenCell::new(1u8, &maker);
    assert!(maker.compare(&()).is_ok());
    assert!(other.compare(&()).is_ok());
    assert_eq!(maker.identifier(), ());
    *cell.try_borrow_mut(&mut other).unwrap() = 2;
    assert_eq!(*cell.try_borrow(&maker).unwrap(), 2);
}

#[test]
fn with_token_always_runs() {
    let out = UncheckedToken::with_token((), |mut t: UncheckedToken| {
        let mut cell = TokenCell::new(20, &t);
        *cell.borrow_mut(&mut t) += 1;
        cell.into_inner()
    });
    assert!(matches!(out, Ok(21)));
}
