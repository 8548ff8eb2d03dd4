use pallet_kitties::kitty::{Gender, Kitty};
use pallet_kitties::pallet::{Error, Event, Pallet};

/// The randomness that the test runtime hands out.
const RANDOM: [u8; 32] = [0; 32];
/// The extrinsic index that genesis leaves in place.
const GENESIS_EXTRINSIC: Option<u32> = Some(0);

fn last_event(p: &Pallet) -> Event {
    p.events().last().unwrap().clone()
}

/// What a refused call must leave as it was.
fn snapshot(p: &Pallet, owner: u64, ids: &[u32]) -> (u32, usize, Vec<Option<Kitty>>) {
    (p.next_kitty_id(), p.events().len(), ids.iter().map(|id| p.kitties(owner, *id)).collect())
}

#[test]
fn can_create() {
    let mut p = Pallet::new(1);
    assert_eq!(p.create_kitty(100, RANDOM, GENESIS_EXTRINSIC), Ok(()));

    let kitty = Kitty([214, 209, 234, 245, 69, 67, 6, 171, 41, 106, 181, 116, 218, 245, 185, 201]);
    assert_eq!(p.kitties(100, 0), Some(kitty.clone()));
    assert_eq!(p.next_kitty_id(), 1);

    assert_eq!(last_event(&p), Event::KittyCreated(kitty, 0, 100));
}

#[test]
fn gender() {
    assert_eq!(Kitty([0; 16]).gender(), Gender::Male);
    assert_eq!(Kitty([1, 0, 0, 0, 0, 0, 0, 0, 0, 0, 0, 0, 0, 0, 0, 0]).gender(), Gender::Female);
}

#[test]
fn can_breed() {
    let mut p = Pallet::new(1);
    assert_eq!(p.create_kitty(100, RANDOM, GENESIS_EXTRINSIC), Ok(()));

    let extrinsic = Some(3);

    assert_eq!(p.create_kitty(100, RANDOM, extrinsic), Ok(()));

    let before = snapshot(&p, 100, &[0, 1, 2]);
    assert_eq!(p.breed_kitty(100, 0, 11, RANDOM, extrinsic), Err(Error::KittyNotFound));
    assert_eq!(snapshot(&p, 100, &[0, 1, 2]), before);
    assert_eq!(p.breed_kitty(100, 0, 0, RANDOM, extrinsic), Err(Error::KittyPartnerMissing));
    assert_eq!(snapshot(&p, 100, &[0, 1, 2]), before);
    assert_eq!(p.breed_kitty(101, 0, 1, RANDOM, extrinsic), Err(Error::KittyNotFound));
    assert_eq!(snapshot(&p, 100, &[0, 1, 2]), before);

    assert_eq!(p.breed_kitty(100, 0, 1, RANDOM, extrinsic), Ok(()));

    let kitty = Kitty([145, 236, 235, 229, 18, 100, 83, 204, 176, 115, 244, 197, 48, 106, 46, 45]);

    assert_eq!(p.kitties(100, 2), Some(kitty.clone()));
    assert_eq!(p.next_kitty_id(), 3);

    assert_eq!(last_event(&p), Event::KittyBred(kitty, 2, 100));
}

#[test]
fn test_overflow() {
    let mut p = Pallet::with_next_kitty_id(1, u32::MAX - 3);
    assert_eq!(p.create_kitty(100, RANDOM, GENESIS_EXTRINSIC), Ok(()));
    assert_eq!(p.create_kitty(100, RANDOM, GENESIS_EXTRINSIC), Ok(()));
    assert_eq!(p.breed_kitty(100, u32::MAX - 2, u32::MAX - 3, RANDOM, GENESIS_EXTRINSIC), Ok(()));
    let before = snapshot(&p, 100, &[u32::MAX - 3, u32::MAX - 2, u32::MAX - 1, u32::MAX]);
    assert_eq!(p.create_kitty(100, RANDOM, GENESIS_EXTRINSIC), Err(Error::KittyIdOverflow));
    assert_eq!(snapshot(&p, 100, &[u32::MAX - 3, u32::MAX - 2, u32::MAX - 1, u32::MAX]), before);
    assert_eq!(p.create_kitty(100, RANDOM, GENESIS_EXTRINSIC), Err(Error::KittyIdOverflow));
    assert_eq!(snapshot(&p, 100, &[u32::MAX - 3, u32::MAX - 2, u32::MAX - 1, u32::MAX]), before);
    assert_eq!(p.next_kitty_id(), u32::MAX);
}

#[test]
fn gender_follows_parity_of_largest_byte() {
    assert_eq!(Kitty([3, 200, 7, 0, 0, 0, 0, 0, 0, 0, 0, 0, 0, 0, 0, 1]).gender(), Gender::Male);
    assert_eq!(Kitty([3, 200, 7, 0, 0, 0, 0, 0, 0, 0, 0, 0, 0, 0, 0, 201]).gender(), Gender::Female);
    assert_eq!(Kitty([255; 16]).gender(), Gender::Female);
    assert_eq!(Kitty::get_gender_from_dna([254; 16]), Gender::Male);
}

#[test]
fn created_dna_depends_on_every_input() {
    let base = Kitty::new(100, RANDOM, 0, Some(0));
    assert_ne!(base.0, [0; 16]);
    assert_ne!(Kitty::new(101, RANDOM, 0, Some(0)), base);
    assert_ne!(Kitty::new(100, [1; 32], 0, Some(0)), base);
    assert_ne!(Kitty::new(100, RANDOM, 1, Some(0)), base);
    assert_ne!(Kitty::new(100, RANDOM, 0, None), base);
    assert_eq!(Kitty::new(100, RANDOM, 0, Some(0)), base);
}

#[test]
fn create_then_lookup_finds_generated_dna() {
    let mut p = Pallet::with_next_kitty_id(1, 7);
    assert_eq!(p.create_kitty(42, [9; 32], Some(5)), Ok(()));
    let expected = Kitty::new(42, [9; 32], 7, Some(5));
    assert_eq!(p.kitties(42, 7), Some(expected.clone()));
    assert_eq!(p.kitties(43, 7), None);
    assert_eq!(last_event(&p), Event::KittyCreated(expected, 7, 42));
}

#[test]
fn breed_with_itself_fails_whatever_the_gender() {
    let mut p = Pallet::new(1);
    assert_eq!(p.create_kitty(100, RANDOM, Some(0)), Ok(()));
    assert_eq!(p.create_kitty(100, RANDOM, Some(3)), Ok(()));
    assert_ne!(p.kitties(100, 0).unwrap().gender(), p.kitties(100, 1).unwrap().gender());
    assert_eq!(p.breed_kitty(100, 0, 0, RANDOM, Some(0)), Err(Error::KittyPartnerMissing));
    assert_eq!(p.breed_kitty(100, 1, 1, RANDOM, Some(0)), Err(Error::KittyPartnerMissing));
    assert_eq!(p.next_kitty_id(), 2);
    assert_eq!(p.events().len(), 2);
}

#[test]
fn same_gender_cannot_breed() {
    let mut p = Pallet::new(1);
    assert_eq!(p.create_kitty(100, RANDOM, Some(0)), Ok(()));
    let gender = p.kitties(100, 0).unwrap().gender();
    let mut id: u32 = 1;
    loop {
        assert_eq!(p.create_kitty(100, RANDOM, Some(0)), Ok(()));
        if p.kitties(100, id).unwrap().gender() == gender {
            break;
        }
        id += 1;
    }
    let next = p.next_kitty_id();
    assert_eq!(p.breed_kitty(100, 0, id, RANDOM, Some(0)), Err(Error::KittyGendersNotCompatible));
    assert_eq!(p.next_kitty_id(), next);
}

#[test]
fn counter_one_below_maximum_allows_one_more() {
    let mut p = Pallet::with_next_kitty_id(1, u32::MAX - 1);
    assert_eq!(p.create_kitty(7, RANDOM, None), Ok(()));
    assert_eq!(p.next_kitty_id(), u32::MAX);
    assert!(p.kitties(7, u32::MAX - 1).is_some());
    for _ in 0..3 {
        assert_eq!(p.create_kitty(7, RANDOM, None), Err(Error::KittyIdOverflow));
        assert_eq!(p.next_kitty_id(), u32::MAX);
        assert_eq!(p.events().len(), 1);
    }
}

#[test]
fn breeding_yields_a_third_kitty() {
    let mut p = Pallet::new(1);
    assert_eq!(p.create_kitty(100, RANDOM, Some(0)), Ok(()));
    assert_eq!(p.create_kitty(100, RANDOM, Some(3)), Ok(()));
    let first = p.kitties(100, 0).unwrap();
    let second = p.kitties(100, 1).unwrap();
    assert_ne!(first.gender(), second.gender());
    assert_eq!(p.breed_kitty(100, 0, 1, RANDOM, Some(3)), Ok(()));
    let child = p.kitties(100, 2).unwrap();
    assert_ne!(child, first);
    assert_ne!(child, second);
    assert_eq!(child, Kitty::breed(first, second, RANDOM, 2, Some(3)).unwrap());
    assert_eq!(p.kitties(100, 0), Some(first));
    assert_eq!(p.kitties(100, 1), Some(second));
    assert_eq!(last_event(&p), Event::KittyBred(child, 2, 100));
}

#[test]
fn kitty_breed_checks_parents_in_order() {
    let male = Kitty([2; 16]);
    let other_male = Kitty([4; 16]);
    let female = Kitty([3; 16]);
    assert_eq!(Kitty::breed(male, male, RANDOM, 0, None), Err(Error::KittyPartnerMissing));
    assert_eq!(Kitty::breed(female, female, RANDOM, 0, None), Err(Error::KittyPartnerMissing));
    assert_eq!(Kitty::breed(male, other_male, RANDOM, 0, None), Err(Error::KittyGendersNotCompatible));
    let child = Kitty::breed(male, female, RANDOM, 0, None).unwrap();
    assert_ne!(child, Kitty::breed(female, male, RANDOM, 0, None).unwrap());
    assert_ne!(child, Kitty::breed(male, female, RANDOM, 1, None).unwrap());
}
