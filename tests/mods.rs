use osu_pplus::mods::{
    GameMods, RatingAdjustment, AUTOPILOT, DOUBLE_TIME, FLASHLIGHT, HIDDEN, NIGHTCORE, RELAX,
    TOUCH_DEVICE,
};

#[test]
fn reads_mod_bits() {
    let mods = GameMods::from_bits(HIDDEN | FLASHLIGHT);
    assert!(mods.hd());
    assert!(mods.fl());
    assert!(!mods.rx());
    assert!(!mods.ap());
    assert!(!mods.nf());
    assert_eq!(mods.rating_adjustment(), RatingAdjustment::Unchanged);
}

#[test]
fn nightcore_counts_as_double_time() {
    assert!(GameMods::from_bits(NIGHTCORE).dt());
    assert!(GameMods::from_bits(DOUBLE_TIME).dt());
    assert!(!GameMods::from_bits(HIDDEN).dt());
}

#[test]
fn relax_drops_speed() {
    let adjustment = GameMods::from_bits(RELAX).rating_adjustment();
    assert_eq!(adjustment, RatingAdjustment::Relax);
    assert!(adjustment.zeroes_speed());
    assert!(!adjustment.zeroes_aim());
}

#[test]
fn autopilot_drops_aim() {
    let adjustment = GameMods::from_bits(AUTOPILOT | TOUCH_DEVICE).rating_adjustment();
    assert_eq!(adjustment, RatingAdjustment::Autopilot);
    assert!(adjustment.zeroes_aim());
    assert!(!adjustment.zeroes_speed());
}

#[test]
fn relax_wins_over_autopilot() {
    let adjustment = GameMods::from_bits(RELAX | AUTOPILOT).rating_adjustment();
    assert_eq!(adjustment, RatingAdjustment::Relax);
}

#[test]
fn unknown_bits_are_ignored() {
    let plain = GameMods::from_bits(HIDDEN);
    let extra = GameMods::from_bits(HIDDEN | 2048 | (1 << 20));
    assert_eq!(plain.hd(), extra.hd());
    assert_eq!(plain.rx(), extra.rx());
    assert_eq!(plain.rating_adjustment(), extra.rating_adjustment());
}

#[test]
fn default_is_no_mod() {
    let mods = GameMods::default();
    assert_eq!(mods.bits, 0);
    assert!(!mods.hd() && !mods.dt() && !mods.rx());
}
