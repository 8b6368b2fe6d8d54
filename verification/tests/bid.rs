use overbid::instructions::bid::{read_overbid, settle};
use overbid::{
    bid, process_bid, process_bid_as, Address, Bid, Collection, Error, Items, Metadata,
    MintAccount, OverbidError, Registry, Settlement, TokenAccount, Wallet, MIN_INCREMENT,
};

fn key(n: u8) -> Address {
    Address { bytes: [n; 32] }
}

fn record(overbid: &str, owner: &str) -> Metadata {
    Metadata {
        name: "OPOS".to_string(),
        symbol: "OPOS".to_string(),
        uri: "https://example.com/a.json".to_string(),
        additional_metadata: vec![
            ("overbid".to_string(), overbid.to_string()),
            ("owner".to_string(), owner.to_string()),
        ],
    }
}

fn accounts(points: &[u64], overbid: &str, payer_lamports: u64) -> Bid {
    let items = points
        .iter()
        .enumerate()
        .map(|(i, p)| Items { mint: key(100 + i as u8), points: *p })
        .collect::<Vec<Items>>();
    let escrow = points.iter().sum();
    Bid {
        payer: Wallet { key: key(1), lamports: payer_lamports },
        owner: Wallet { key: key(2), lamports: 5 },
        authority: Registry {
            collection: Collection { items, bump: 254 },
            lamports: escrow,
            space: 8 + 4 + 40 * points.len() as u64 + 1,
        },
        mint_account: MintAccount {
            key: key(100),
            lamports: 1_000_000,
            supply: 1,
            metadata: Some(record(overbid, &key(2).to_text())),
        },
        source_account: TokenAccount { amount: 1, frozen: true },
        destination_account: TokenAccount { amount: 0, frozen: false },
    }
}

fn field(ctx: &Bid, name: &str) -> Option<String> {
    ctx.mint_account.metadata.as_ref().unwrap().get(name).cloned()
}

#[test]
fn two_items_bid_at_exactly_the_minimum_increment_twice_over() {
    let mut ctx = accounts(&[0, 0], "0", 50_000_000);
    assert_eq!(process_bid(&mut ctx, 20_000_000), Ok(()));
    assert_eq!(ctx.authority.collection.items[0].points, 10_000_000);
    assert_eq!(ctx.authority.collection.items[1].points, 10_000_000);
    assert_eq!(ctx.owner.lamports, 5);
    assert_eq!(ctx.authority.lamports, 20_000_000);
    assert_eq!(ctx.payer.lamports, 30_000_000);
    assert_eq!(field(&ctx, "overbid"), Some("20000000".to_string()));
    assert_eq!(field(&ctx, "owner"), Some(key(1).to_text()));
    assert_eq!(ctx.source_account, TokenAccount { amount: 0, frozen: true });
    assert_eq!(ctx.destination_account, TokenAccount { amount: 1, frozen: true });
}

#[test]
fn a_bid_at_exactly_the_minimum_increment_succeeds() {
    let mut ctx = accounts(&[0, 0], "0", 50_000_000);
    assert_eq!(process_bid(&mut ctx, 10_000_000), Ok(()));
    assert_eq!(ctx.authority.collection.items[0].points, 5_000_000);
    assert_eq!(ctx.authority.collection.items[1].points, 5_000_000);
}

#[test]
fn three_items_and_an_increase_of_ten() {
    assert_eq!(
        settle(7_000, 7_010, 3),
        Some(Settlement { per_item: 3, to_escrow: 9, to_previous_holder: 7_001 })
    );
}

#[test]
fn three_items_share_a_bid_and_the_holder_takes_the_remainder() {
    let mut ctx = accounts(&[1, 2, 3], "40000000", 100_000_000);
    assert_eq!(process_bid(&mut ctx, 50_000_000), Ok(()));
    let points: Vec<u64> = ctx.authority.collection.items.iter().map(|i| i.points).collect();
    assert_eq!(points, vec![3_333_334, 3_333_335, 3_333_336]);
    assert_eq!(ctx.authority.lamports, 6 + 9_999_999);
    assert_eq!(ctx.owner.lamports, 5 + 40_000_000 + 1);
    assert_eq!(ctx.payer.lamports, 50_000_000);
    assert_eq!(ctx.authority.collection.bump, 254);
    assert_eq!(ctx.authority.space, 8 + 4 + 120 + 1);
    assert_eq!(ctx.mint_account.lamports, 1_000_000);
}

#[test]
fn settle_divides_without_a_remainder() {
    assert_eq!(
        settle(0, 20_000_000, 2),
        Some(Settlement { per_item: 10_000_000, to_escrow: 20_000_000, to_previous_holder: 0 })
    );
}

#[test]
fn settle_with_one_item_gives_it_everything() {
    assert_eq!(
        settle(5, 25, 1),
        Some(Settlement { per_item: 20, to_escrow: 20, to_previous_holder: 5 })
    );
}

#[test]
fn settle_with_more_items_than_lamports() {
    assert_eq!(
        settle(100, 103, 5),
        Some(Settlement { per_item: 0, to_escrow: 0, to_previous_holder: 103 })
    );
}

#[test]
fn settle_refuses_no_items_and_a_lower_bid() {
    assert_eq!(settle(0, 10, 0), None);
    assert_eq!(settle(11, 10, 3), None);
    assert_eq!(settle(u64::MAX, u64::MAX, 1), Some(Settlement { per_item: 0, to_escrow: 0, to_previous_holder: u64::MAX }));
}

#[test]
fn what_the_escrow_and_the_holder_get_is_the_bid() {
    for (overbid, amount, count) in [(0u64, 20_000_000u64, 2u64), (7, 17, 3), (1, u64::MAX, 7), (123_456, 987_654_321, 1000)] {
        let s = settle(overbid, amount, count).unwrap();
        assert_eq!(s.to_escrow + s.to_previous_holder, amount);
        assert_eq!(s.per_item * count, s.to_escrow);
        assert_eq!(s.per_item, (amount - overbid) / count);
    }
}

#[test]
fn a_bid_below_the_increment_is_too_low() {
    let mut ctx = accounts(&[0, 0], "0", 50_000_000);
    let before = ctx.clone();
    assert_eq!(process_bid(&mut ctx, 9_999_999), Err(Error::Overbid(OverbidError::BidTooLow)));
    assert_eq!(ctx, before);
    let mut ctx = accounts(&[0, 0], "20000000", 50_000_000);
    let before = ctx.clone();
    assert_eq!(process_bid(&mut ctx, 20_000_000), Err(Error::Overbid(OverbidError::BidTooLow)));
    assert_eq!(process_bid(&mut ctx, 29_999_999), Err(Error::Overbid(OverbidError::BidTooLow)));
    assert_eq!(process_bid(&mut ctx, 0), Err(Error::Overbid(OverbidError::BidTooLow)));
    assert_eq!(ctx, before);
}

#[test]
fn no_bid_can_exceed_a_standing_bid_near_the_largest_amount() {
    let mut ctx = accounts(&[0], "18446744073709551615", u64::MAX);
    let before = ctx.clone();
    assert_eq!(process_bid(&mut ctx, u64::MAX), Err(Error::Overbid(OverbidError::BidTooLow)));
    assert_eq!(ctx, before);
}

#[test]
fn a_missing_overbid_field_fails() {
    let mut ctx = accounts(&[0, 0], "0", 50_000_000);
    ctx.mint_account.metadata.as_mut().unwrap().additional_metadata.remove(0);
    let before = ctx.clone();
    assert_eq!(
        process_bid(&mut ctx, 20_000_000),
        Err(Error::Overbid(OverbidError::MissingOverbidField))
    );
    assert_eq!(ctx, before);
}

#[test]
fn an_overbid_field_that_is_no_amount_fails() {
    for text in ["", "ten", "-5", "1.0", "18446744073709551616", " 5"] {
        let mut ctx = accounts(&[0, 0], text, 50_000_000);
        let before = ctx.clone();
        assert_eq!(
            process_bid(&mut ctx, 20_000_000),
            Err(Error::Overbid(OverbidError::InvalidOverbidValue)),
            "{:?}",
            text
        );
        assert_eq!(ctx, before);
    }
}

#[test]
fn an_item_without_metadata_fails() {
    let mut ctx = accounts(&[0, 0], "0", 50_000_000);
    ctx.mint_account.metadata = None;
    let before = ctx.clone();
    assert_eq!(process_bid(&mut ctx, 20_000_000), Err(Error::InvalidAccountData));
    assert_eq!(ctx, before);
}

#[test]
fn read_overbid_takes_the_first_field_with_the_key() {
    let mut m = record("5", "x");
    m.additional_metadata.push(("overbid".to_string(), "9".to_string()));
    assert_eq!(read_overbid(&Some(m)), Ok(5));
    assert_eq!(read_overbid(&None), Err(Error::InvalidAccountData));
    assert_eq!(read_overbid(&Some(record("+12", "x"))), Ok(12));
}

#[test]
fn an_unlocked_source_slot_fails() {
    let mut ctx = accounts(&[0, 0], "0", 50_000_000);
    ctx.source_account.frozen = false;
    let before = ctx.clone();
    assert_eq!(process_bid(&mut ctx, 20_000_000), Err(Error::InvalidState));
    assert_eq!(ctx, before);
}

#[test]
fn the_holder_cannot_outbid_themself() {
    let mut ctx = accounts(&[0, 0], "0", 50_000_000);
    ctx.payer.key = ctx.owner.key;
    let before = ctx.clone();
    assert_eq!(process_bid(&mut ctx, 20_000_000), Err(Error::InvalidState));
    assert_eq!(ctx, before);
}

#[test]
fn an_empty_source_slot_fails() {
    let mut ctx = accounts(&[0, 0], "0", 50_000_000);
    ctx.source_account.amount = 0;
    let before = ctx.clone();
    assert_eq!(process_bid(&mut ctx, 20_000_000), Err(Error::InsufficientFunds));
    assert_eq!(ctx, before);
}

#[test]
fn a_full_destination_slot_fails() {
    let mut ctx = accounts(&[0, 0], "0", 50_000_000);
    ctx.destination_account.amount = u64::MAX;
    let before = ctx.clone();
    assert_eq!(process_bid(&mut ctx, 20_000_000), Err(Error::ArithmeticOverflow));
    assert_eq!(ctx, before);
}

#[test]
fn a_stale_locked_destination_slot_is_unlocked_first() {
    let mut ctx = accounts(&[0, 0], "0", 50_000_000);
    ctx.destination_account = TokenAccount { amount: 0, frozen: true };
    assert_eq!(process_bid(&mut ctx, 20_000_000), Ok(()));
    assert_eq!(ctx.source_account, TokenAccount { amount: 0, frozen: true });
    assert_eq!(ctx.destination_account, TokenAccount { amount: 1, frozen: true });
}

#[test]
fn a_registry_without_items_fails() {
    let mut ctx = accounts(&[], "0", 50_000_000);
    let before = ctx.clone();
    assert_eq!(process_bid(&mut ctx, 20_000_000), Err(Error::ArithmeticOverflow));
    assert_eq!(ctx, before);
}

#[test]
fn points_that_would_pass_64_bits_fail_for_every_item() {
    let mut ctx = accounts(&[0, 0], "0", 50_000_000);
    ctx.authority.collection.items[1].points = u64::MAX - 5;
    let before = ctx.clone();
    assert_eq!(process_bid(&mut ctx, 20_000_000), Err(Error::ArithmeticOverflow));
    assert_eq!(ctx, before);
}

#[test]
fn a_payer_who_cannot_pay_the_escrow_fails() {
    let mut ctx = accounts(&[0, 0], "0", 19_999_999);
    let before = ctx.clone();
    assert_eq!(process_bid(&mut ctx, 20_000_000), Err(Error::InsufficientFunds));
    assert_eq!(ctx, before);
}

#[test]
fn a_payer_who_cannot_pay_the_holder_fails() {
    let mut ctx = accounts(&[0, 0], "30000000", 10_000_000 + 29_999_999);
    let before = ctx.clone();
    assert_eq!(process_bid(&mut ctx, 40_000_000), Err(Error::InsufficientFunds));
    assert_eq!(ctx, before);
    ctx.payer.lamports = 40_000_000;
    assert_eq!(process_bid(&mut ctx, 40_000_000), Ok(()));
    assert_eq!(ctx.payer.lamports, 0);
    assert_eq!(ctx.owner.lamports, 5 + 30_000_000);
}

#[test]
fn an_escrow_that_would_pass_64_bits_fails() {
    let mut ctx = accounts(&[0, 0], "0", 50_000_000);
    ctx.authority.lamports = u64::MAX - 19_999_999;
    let before = ctx.clone();
    assert_eq!(process_bid(&mut ctx, 20_000_000), Err(Error::ArithmeticOverflow));
    assert_eq!(ctx, before);
}

#[test]
fn a_holder_whose_wallet_would_pass_64_bits_fails() {
    let mut ctx = accounts(&[0, 0], "10000000", 50_000_000);
    ctx.owner.lamports = u64::MAX - 9_999_999;
    let before = ctx.clone();
    assert_eq!(process_bid(&mut ctx, 20_000_000), Err(Error::ArithmeticOverflow));
    assert_eq!(ctx, before);
}

#[test]
fn the_first_failure_is_the_one_reported() {
    let mut ctx = accounts(&[], "0", 0);
    ctx.source_account = TokenAccount { amount: 0, frozen: false };
    assert_eq!(process_bid(&mut ctx, 1), Err(Error::Overbid(OverbidError::BidTooLow)));
    assert_eq!(process_bid(&mut ctx, 20_000_000), Err(Error::InvalidState));
    ctx.source_account.frozen = true;
    assert_eq!(process_bid(&mut ctx, 20_000_000), Err(Error::InsufficientFunds));
    ctx.source_account.amount = 1;
    assert_eq!(process_bid(&mut ctx, 20_000_000), Err(Error::ArithmeticOverflow));
}

#[test]
fn the_bid_is_recorded_under_the_text_given() {
    let mut ctx = accounts(&[0, 0], "0", 50_000_000);
    assert_eq!(process_bid_as(&mut ctx, 20_000_000, "someone".to_string()), Ok(()));
    assert_eq!(field(&ctx, "owner"), Some("someone".to_string()));
    assert_eq!(field(&ctx, "overbid"), Some("20000000".to_string()));
    let m = ctx.mint_account.metadata.as_ref().unwrap();
    assert_eq!(m.additional_metadata.len(), 2);
    assert_eq!(m.name, "OPOS");
    assert_eq!(m.symbol, "OPOS");
    assert_eq!(m.uri, "https://example.com/a.json");
}

#[test]
fn fields_that_are_missing_are_added_at_the_end() {
    let mut ctx = accounts(&[0, 0], "0", 50_000_000);
    ctx.mint_account.metadata.as_mut().unwrap().additional_metadata =
        vec![("colour".to_string(), "red".to_string()), ("overbid".to_string(), "0".to_string())];
    assert_eq!(process_bid(&mut ctx, 20_000_000), Ok(()));
    assert_eq!(
        ctx.mint_account.metadata.as_ref().unwrap().additional_metadata,
        vec![
            ("colour".to_string(), "red".to_string()),
            ("overbid".to_string(), "20000000".to_string()),
            ("owner".to_string(), key(1).to_text()),
        ]
    );
}

#[test]
fn successive_bids_raise_the_standing_bid() {
    let mut ctx = accounts(&[0, 0], "0", 100_000_000);
    assert_eq!(process_bid(&mut ctx, 20_000_000), Ok(()));
    let first = read_overbid(&ctx.mint_account.metadata).unwrap();
    assert_eq!(first, 20_000_000);
    let mut next = Bid {
        payer: Wallet { key: key(3), lamports: 100_000_000 },
        owner: ctx.payer,
        authority: ctx.authority.clone(),
        mint_account: ctx.mint_account.clone(),
        source_account: ctx.destination_account,
        destination_account: TokenAccount { amount: 0, frozen: false },
    };
    assert_eq!(
        process_bid(&mut next, first + MIN_INCREMENT - 1),
        Err(Error::Overbid(OverbidError::BidTooLow))
    );
    assert_eq!(process_bid(&mut next, first + MIN_INCREMENT), Ok(()));
    let second = read_overbid(&next.mint_account.metadata).unwrap();
    assert!(second >= first + MIN_INCREMENT);
    assert_eq!(next.owner.lamports, 80_000_000 + 20_000_000);
    assert_eq!(next.authority.lamports, 30_000_000);
    assert_eq!(next.authority.collection.items[0].points, 15_000_000);
    assert_eq!(next.authority.collection.items[1].points, 15_000_000);
    assert_eq!(field_of(&next, "owner"), Some(key(3).to_text()));
}

fn field_of(ctx: &Bid, name: &str) -> Option<String> {
    field(ctx, name)
}

#[test]
fn lamports_are_neither_made_nor_lost() {
    let mut ctx = accounts(&[4, 5, 6], "12345678", 1_000_000_000);
    let before = ctx.payer.lamports + ctx.owner.lamports + ctx.authority.lamports;
    assert_eq!(process_bid(&mut ctx, 98_765_432), Ok(()));
    let after = ctx.payer.lamports + ctx.owner.lamports + ctx.authority.lamports;
    assert_eq!(before, after);
    assert_eq!(ctx.payer.lamports, 1_000_000_000 - 98_765_432);
    let diff = 98_765_432 - 12_345_678u64;
    assert_eq!(ctx.authority.lamports, 15 + diff - diff % 3);
    assert_eq!(ctx.owner.lamports, 5 + 12_345_678 + diff % 3);
    let total: u64 = ctx.authority.collection.items.iter().map(|i| i.points).sum();
    assert_eq!(total, 15 + 3 * (diff / 3));
}

#[test]
fn the_entry_point_bids_as_process_bid_does() {
    let mut a = accounts(&[0, 0], "0", 50_000_000);
    let mut b = a.clone();
    assert_eq!(bid(&mut a, 20_000_000), process_bid(&mut b, 20_000_000));
    assert_eq!(a, b);
    assert_eq!(bid(&mut a, 1), Err(Error::Overbid(OverbidError::BidTooLow)));
}
