use overbid::accounts::INITIAL_SPACE;
use overbid::{
    initialize, process_initialize, Collection, Error, Initialize, OverbidError, Registry,
};

#[test]
fn the_registry_is_created_empty() {
    let mut ctx = Initialize { authority: None, bump: 251 };
    assert_eq!(process_initialize(&mut ctx), Ok(()));
    assert_eq!(
        ctx.authority,
        Some(Registry {
            collection: Collection { items: vec![], bump: 251 },
            lamports: 0,
            space: 52,
        })
    );
    assert_eq!(ctx.bump, 251);
    assert_eq!(INITIAL_SPACE, 52);
}

#[test]
fn a_second_creation_fails_and_changes_nothing() {
    let mut ctx = Initialize { authority: None, bump: 251 };
    assert_eq!(process_initialize(&mut ctx), Ok(()));
    let before = ctx.clone();
    ctx.bump = 7;
    assert_eq!(process_initialize(&mut ctx), Err(Error::AlreadyInitialized));
    assert_eq!(ctx.authority, before.authority);
    assert_eq!(ctx.bump, 7);
    assert_eq!(process_initialize(&mut ctx), Err(Error::AlreadyInitialized));
    assert_eq!(ctx.authority, before.authority);
}

#[test]
fn an_existing_registry_is_left_alone() {
    let existing = Registry {
        collection: Collection { items: vec![], bump: 3 },
        lamports: 77,
        space: 1_000,
    };
    let mut ctx = Initialize { authority: Some(existing.clone()), bump: 9 };
    assert_eq!(initialize(&mut ctx), Err(Error::AlreadyInitialized));
    assert_eq!(ctx, Initialize { authority: Some(existing), bump: 9 });
}

#[test]
fn the_entry_point_creates_as_process_initialize_does() {
    let mut a = Initialize { authority: None, bump: 1 };
    let mut b = a.clone();
    assert_eq!(initialize(&mut a), process_initialize(&mut b));
    assert_eq!(a, b);
}

#[test]
fn every_rule_has_its_message() {
    assert_eq!(
        OverbidError::MissingOverbidField.message(),
        "Overbid field is missing in token metadata"
    );
    assert_eq!(
        OverbidError::InvalidOverbidValue.message(),
        "Invalid overbid value in token metadata"
    );
    assert_eq!(
        OverbidError::BidTooLow.message(),
        "New bid must be higher than the current value to overbid"
    );
    assert_eq!(OverbidError::WrongOwner.message(), "Wrong Owner");
}
