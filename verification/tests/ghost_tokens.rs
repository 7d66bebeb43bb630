use token_cell::cell::TokenCell;
use token_cell::cell::TokenCellTrait;
use token_cell::ghost::GhostToken;
use token_cell::token::TokenTrait;

#[test]
fn ghost_token_cannot_be_constructed_directly() {
    assert!(matches!(GhostToken::new(()), Err(())));
}

#[test]
fn ghost_token_lives_inside_the_body() {
    let out = GhostToken::with_token((), |mut t1| {
        let mut c1 = TokenCell::new(1, &t1);
        let inner = GhostToken::with_token((), |mut t2| {
            let mut c2 = TokenCell::new(1, &t2);
            *c2.borrow_mut(&mut t2) += 10;
            *c1.borrow_mut(&mut t1) += 100;
            *c2.borrow(&t2)
        });
        assert!(matches!(inner, Ok(11)));
        *c1.borrow_mut(&mut t1) += 1000;
        c1.into_inner()
    });
    assert!(matches!(out, Ok(1101)));
}

#[test]
fn ghost_token_always_compares_equal() {
    let out = GhostToken::with_token((), |t| {
        let id = t.identifier();
        let cell = TokenCell::new("v", &t);
        t.compare(&id).is_ok() && cell.try_borrow(&t).is_ok() && cell.try_guard(&t).is_ok()
    });
    assert!(matches!(out, Ok(true)));
}
