use rosarium::rosary::{Mysteries, Rosary, RosaryPrayer};

#[test]
fn rosary_forwards() {
    let mut rosary = Rosary::new();
    let mut rosary_forward: Vec<Rosary> = vec![rosary.clone()];
    let mut rosary_backward: Vec<Rosary> = vec![];
    loop {
        rosary.advance();
        rosary_forward.push(rosary.clone());

        if rosary.get_decade() == 5 && rosary.get_bead() == 12 {
            break;
        }
    }
    rosary_backward.push(rosary.clone());
    loop {
        rosary.recede();
        rosary_backward.push(rosary.clone());

        if rosary.get_decade() == 0 && rosary.get_bead() == 0 && rosary == Rosary::new() {
            break;
        }
    }
    rosary_backward.reverse();
    assert_eq!(rosary_forward, rosary_backward);
}

#[test]
fn round_trip_full_traversal() {
    // From the start, 77 advances reach the closing bead; 82 reach the
    // terminal prayer; as many recedes return exactly to the start.
    let mut r = Rosary::new();
    for _ in 0..77 {
        r.advance();
    }
    assert_eq!(r.get_decade(), 5);
    assert_eq!(r.get_bead(), 12);
    assert_eq!(r.get_curr_prayer(), "1/6");
    for _ in 0..5 {
        r.advance();
    }
    assert_eq!(r.get_curr_prayer(), "6/6");
    for _ in 0..82 {
        r.recede();
    }
    assert_eq!(r, Rosary::new());
}

#[test]
fn round_trip_past_the_end() {
    // Advancing past the terminal state and receding as many times
    // still lands exactly on the initial state.
    let mut r = Rosary::new();
    for _ in 0..200 {
        r.advance();
    }
    assert_eq!(r.get_decade(), 5);
    assert_eq!(r.get_bead(), 12);
    assert_eq!(r.get_curr_prayer(), "6/6");
    for _ in 0..200 {
        r.recede();
    }
    assert_eq!(r, Rosary::new());
}

#[test]
fn boundary_noops() {
    // Receding at the very start changes nothing.
    let mut r = Rosary::new();
    r.recede();
    assert_eq!(r, Rosary::new());
    assert_eq!(r.get_decade(), 0);
    assert_eq!(r.get_bead(), 0);
    assert_eq!(r.get_curr_prayer(), "1/2");
    // Advancing at the terminal state changes nothing either.
    let mut t = Rosary::new();
    for _ in 0..82 {
        t.advance();
    }
    let terminal = t.clone();
    t.advance();
    assert_eq!(t, terminal);
}

#[test]
fn bead_triple_skip_symmetry() {
    // Nine advances from the start land on decade 1, bead 1, having
    // skipped decade 1's bead 0; one recede returns to decade 0,
    // bead 6, on its last prayer.
    let mut r = Rosary::new();
    for _ in 0..9 {
        r.advance();
    }
    assert_eq!(r.get_decade(), 1);
    assert_eq!(r.get_bead(), 1);
    assert_eq!(r.get_curr_prayer(), "1/1");
    r.recede();
    assert_eq!(r.get_decade(), 0);
    assert_eq!(r.get_bead(), 6);
    assert_eq!(r.get_curr_prayer(), "2/2");
}

#[test]
fn prayer_count_matches_table_on_traversal() {
    // After every transition of a full forward traversal, the prayer
    // counter's denominator equals the table's length for that bead.
    let mut r = Rosary::new();
    for _ in 0..=82 {
        let prayers = r.prayers_for_bead();
        let counter = r.get_curr_prayer();
        let denom: usize = counter.split('/').nth(1).unwrap().parse().unwrap();
        assert_eq!(denom, prayers.len());
        r.advance();
    }
}

#[test]
fn prayers_for_bead_table() {
    assert_eq!(
        Rosary::prayers_for(0, 0),
        vec![RosaryPrayer::SignOfCross, RosaryPrayer::ApostlesCreed]
    );
    assert_eq!(Rosary::prayers_for(0, 1), vec![RosaryPrayer::OurFather]);
    assert_eq!(Rosary::prayers_for(0, 2), vec![RosaryPrayer::HailMaryFaith]);
    assert_eq!(Rosary::prayers_for(0, 3), vec![RosaryPrayer::HailMaryHope]);
    assert_eq!(Rosary::prayers_for(0, 4), vec![RosaryPrayer::HailMaryCharity]);
    assert_eq!(Rosary::prayers_for(0, 5), vec![RosaryPrayer::GloryBe]);
    assert_eq!(
        Rosary::prayers_for(0, 6),
        vec![RosaryPrayer::FirstMystery, RosaryPrayer::OurFather]
    );
    assert_eq!(
        Rosary::prayers_for(3, 0),
        vec![RosaryPrayer::ThirdMystery, RosaryPrayer::OurFather]
    );
    assert_eq!(Rosary::prayers_for(2, 7), vec![RosaryPrayer::HailMary]);
    assert_eq!(
        Rosary::prayers_for(4, 11),
        vec![RosaryPrayer::GloryBe, RosaryPrayer::FatimaOMyJesus]
    );
    assert_eq!(
        Rosary::prayers_for(5, 12),
        vec![
            RosaryPrayer::HailHolyQueen,
            RosaryPrayer::PrayerToStJoseph,
            RosaryPrayer::PrayerToStMichael,
            RosaryPrayer::FinalPrayer,
            RosaryPrayer::Laudetur,
            RosaryPrayer::SignOfCross,
        ]
    );
    // Unknown combinations are empty, not an error.
    assert_eq!(Rosary::prayers_for(4, 12), vec![]);
    assert_eq!(Rosary::prayers_for(6, 0), vec![]);
    assert_eq!(Rosary::prayers_for(0, 7), vec![]);
}

#[test]
fn to_prayer_follows_position() {
    let mut r = Rosary::new();
    assert_eq!(r.to_prayer(), RosaryPrayer::SignOfCross);
    r.advance();
    assert_eq!(r.to_prayer(), RosaryPrayer::ApostlesCreed);
    r.advance();
    assert_eq!(r.to_prayer(), RosaryPrayer::OurFather);
}

#[test]
fn progress_phrases() {
    let mut r = Rosary::new();
    assert_eq!(r.progress(), "Manus ad crucifixum.");
    r.advance();
    r.advance();
    assert_eq!(r.progress(), "Manus ad primum nodum.");
    r.advance();
    assert_eq!(r.progress(), "Manus ad primum granum tergemini grani.");
    r.advance();
    assert_eq!(r.progress(), "Manus ad secundum granum tergemini grani.");
    r.advance();
    assert_eq!(r.progress(), "Manus ad tertium granum tergemini grani.");
    r.advance();
    assert_eq!(r.progress(), "Manus post tergeminum granum.");
    r.advance();
    assert_eq!(r.progress(), "Manus ad quintum nodum.");
    for _ in 0..2 {
        r.advance();
    }
    assert_eq!(r.get_decade(), 1);
    assert_eq!(r.get_bead(), 1);
    assert_eq!(r.progress(), "Manus ad primum nodum primi decennii.");
    for _ in 0..10 {
        r.advance();
    }
    assert_eq!(r.get_bead(), 11);
    assert_eq!(r.progress(), "Manus post primum decennium.");
    r.advance();
    r.advance();
    assert_eq!(r.get_decade(), 2);
    assert_eq!(r.get_bead(), 0);
    assert_eq!(r.progress(), "Manus ante secundum decennium.");
    for _ in 0..56 {
        r.advance();
    }
    assert_eq!(r.get_decade(), 5);
    assert_eq!(r.get_bead(), 12);
    assert_eq!(r.progress(), "Manus ad finem rosarii.");
}

#[test]
fn mystery_prayer_identity() {
    assert!(RosaryPrayer::FirstMystery.is_mystery());
    assert!(RosaryPrayer::FifthMystery.is_mystery());
    assert!(!RosaryPrayer::HailMary.is_mystery());
    assert!(!RosaryPrayer::SignOfCross.is_mystery());
}

#[test]
fn prayer_file_names() {
    let m = Mysteries::Joyful;
    assert_eq!(RosaryPrayer::SignOfCross.get_file(&m), "signum_crucis");
    assert_eq!(RosaryPrayer::HailMary.get_file(&m), "ave_maria");
    assert_eq!(RosaryPrayer::HailMaryFaith.get_file(&m), "ave_maria");
    assert_eq!(
        RosaryPrayer::FirstMystery.get_file(&m),
        "mysteria/mysteria_gaudiosa_I"
    );
    assert_eq!(
        RosaryPrayer::ThirdMystery.get_file(&Mysteries::Sorrowful),
        "mysteria/mysteria_dolorosa_III"
    );
    assert_eq!(
        RosaryPrayer::FifthMystery.get_file(&Mysteries::Luminous),
        "mysteria/mysteria_luminosa_V"
    );
}

#[test]
fn mystery_strings() {
    assert_eq!(Mysteries::Joyful.to_string(), "Mysteria Gaudiosa");
    assert_eq!(Mysteries::Sorrowful.to_string(), "Mysteria Dolorosa");
    assert_eq!(Mysteries::Glorious.to_string(), "Mysteria Gloriosa");
    assert_eq!(Mysteries::Luminous.to_string(), "Mysteria Luminosa");
    assert_eq!(
        rosarium::rosary::get_daily_mystery(&Mysteries::Glorious),
        "Mysteria Gloriosa"
    );
    assert_eq!(
        rosarium::rosary::get_mysteries_file(&Mysteries::Joyful),
        "mysteria/gaudii_mysteria"
    );
    assert_eq!(
        rosarium::rosary::get_daily_mystery_file("II", &Mysteries::Glorious),
        "mysteria/mysteria_gloriosa_II"
    );
}
