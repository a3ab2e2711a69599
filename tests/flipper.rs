use flipper::{AccountId, Error, Flipper};

fn alice() -> AccountId {
    AccountId::from([0x1; 32])
}

fn bob() -> AccountId {
    AccountId::from([0x2; 32])
}

#[test]
fn default_works() {
    let flipper = Flipper::default(alice());
    assert_eq!(flipper.get_val(), false);
}

#[test]
fn new_works() {
    let flipper = Flipper::new(true, alice());
    assert_eq!(flipper.get_val(), true);
}

#[test]
fn flip_works() {
    let mut flipper = Flipper::new(false, alice());
    assert_eq!(flipper.get_val(), false);
    assert_eq!(flipper.flip(alice()), Ok(()));
    assert_eq!(flipper.get_val(), true);
}

#[test]
fn flip_fails_if_not_owner() {
    let mut flipper = Flipper::new(false, alice());
    assert_eq!(flipper.get_val(), false);

    let bob = AccountId::from([0x2; 32]);
    assert_eq!(flipper.flip(bob), Err(Error::OnlyOwnerCanFlip));
}

#[test]
fn new_keeps_value_for_both_booleans() {
    for b in [false, true] {
        assert_eq!(Flipper::new(b, bob()).get_val(), b);
    }
}

#[test]
fn owner_is_the_creator() {
    let flipper = Flipper::new(true, bob());
    assert_eq!(flipper.owner(), bob());
    assert_ne!(flipper.owner(), alice());
}

#[test]
fn owner_flip_negates_initial_value() {
    let mut flipper = Flipper::new(true, bob());
    assert_eq!(flipper.flip(bob()), Ok(()));
    assert_eq!(flipper.get_val(), false);
    assert_eq!(flipper.owner(), bob());
}

#[test]
fn non_owner_flip_leaves_value() {
    let mut flipper = Flipper::new(true, alice());
    assert_eq!(flipper.flip(bob()), Err(Error::OnlyOwnerCanFlip));
    assert_eq!(flipper.get_val(), true);
    assert_eq!(flipper.owner(), alice());
}

#[test]
fn repeated_non_owner_flips_never_change_value() {
    let mut flipper = Flipper::new(false, alice());
    for k in 2u8..8 {
        let stranger = AccountId::from([k; 32]);
        assert_eq!(flipper.flip(stranger), Err(Error::OnlyOwnerCanFlip));
        assert_eq!(flipper.get_val(), false);
    }
}

#[test]
fn caller_differing_in_last_byte_is_rejected() {
    let mut almost = [0x1; 32];
    almost[31] = 0x0;
    let mut flipper = Flipper::default(alice());
    assert_eq!(flipper.flip(AccountId::from(almost)), Err(Error::OnlyOwnerCanFlip));
    assert_eq!(flipper.get_val(), false);
}

#[test]
fn two_owner_flips_restore_value() {
    for b in [false, true] {
        let mut flipper = Flipper::new(b, alice());
        assert_eq!(flipper.flip(alice()), Ok(()));
        assert_eq!(flipper.flip(alice()), Ok(()));
        assert_eq!(flipper.get_val(), b);
    }
}

#[test]
fn account_bytes_round_trip() {
    let raw = [0x7; 32];
    assert_eq!(AccountId::from(raw).bytes, raw);
    assert_eq!(AccountId::from(raw), AccountId::from([0x7; 32]));
}
