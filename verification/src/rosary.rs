//! The Rosary position state machine: a strictly linear traversal over
//! (decade, bead, prayer) triples from the crucifix to the closing
//! prayers, with exact forward/backward symmetry.

use vstd::prelude::*;

use crate::config::MYSTERY_DIR;
use crate::language::{
    dec_seq, ordinal_n_acc, ordinal_n_acc_spec, ordinal_n_gen, ordinal_n_gen_spec, u8_dec_string,
};

verus! {

/// The four thematic categories of mysteries, one of which is assigned
/// to every calendar day.
#[derive(Debug, Clone, Copy, PartialEq, Eq)]
pub enum Mysteries {
    Joyful,
    Sorrowful,
    Glorious,
    Luminous,
}

/// One prayer of the Rosary, identified by its place in the recitation.
#[derive(Debug, Copy, Clone, PartialEq, Eq)]
pub enum RosaryPrayer {
    Nullus,
    SignOfCross,
    ApostlesCreed,
    OurFather,
    HailMary,
    HailMaryFaith,
    HailMaryHope,
    HailMaryCharity,
    GloryBe,
    FatimaOMyJesus,
    HailHolyQueen,
    PrayerToStMichael,
    PrayerToStJoseph,
    PrayerForPriests,
    FirstMystery,
    SecondMystery,
    ThirdMystery,
    FourthMystery,
    FifthMystery,
    Laudetur,
    FinalPrayer,
}

impl Mysteries {
    /// The Latin title of the category, as shown in the footer.
    pub open spec fn spec_title(&self) -> Seq<char> {
        match self {
            Mysteries::Joyful => "Mysteria Gaudiosa"@,
            Mysteries::Sorrowful => "Mysteria Dolorosa"@,
            Mysteries::Glorious => "Mysteria Gloriosa"@,
            Mysteries::Luminous => "Mysteria Luminosa"@,
        }
    }

    /// The Latin title of the category.
    pub fn to_string(&self) -> (r: String)
        ensures
            r@ == self.spec_title(),
    {
        match self {
            Mysteries::Joyful => String::from_str("Mysteria Gaudiosa"),
            Mysteries::Sorrowful => String::from_str("Mysteria Dolorosa"),
            Mysteries::Glorious => String::from_str("Mysteria Gloriosa"),
            Mysteries::Luminous => String::from_str("Mysteria Luminosa"),
        }
    }

    /// The stem of the category's text files: the title, lower case,
    /// with the space replaced by an underscore.
    pub open spec fn spec_file_stem(&self) -> Seq<char> {
        match self {
            Mysteries::Joyful => "mysteria_gaudiosa"@,
            Mysteries::Sorrowful => "mysteria_dolorosa"@,
            Mysteries::Glorious => "mysteria_gloriosa"@,
            Mysteries::Luminous => "mysteria_luminosa"@,
        }
    }

    /// The Latin genitive naming the category in the additions file.
    pub open spec fn spec_genitive(&self) -> Seq<char> {
        match self {
            Mysteries::Joyful => "gaudii"@,
            Mysteries::Sorrowful => "doloris"@,
            Mysteries::Glorious => "gloriae"@,
            Mysteries::Luminous => "lucis"@,
        }
    }
}

/// The title of the day's mystery category.
pub fn get_daily_mystery(mystery: &Mysteries) -> (r: String)
    ensures
        r@ == mystery.spec_title(),
{
    mystery.to_string()
}

/// The relative path of the file holding the day's mystery additions
/// to the Hail Mary.
pub fn get_mysteries_file(mystery: &Mysteries) -> (r: String)
    ensures
        r@ == MYSTERY_DIR@ + "/"@ + mystery.spec_genitive() + "_mysteria"@,
{
    let stem = match mystery {
        Mysteries::Joyful => "gaudii",
        Mysteries::Sorrowful => "doloris",
        Mysteries::Glorious => "gloriae",
        Mysteries::Luminous => "lucis",
    };
    String::from_str(MYSTERY_DIR).concat("/").concat(stem).concat("_mysteria")
}

/// The relative path of the text announcing one of the day's five
/// mysteries, named by a Latin numeral.
pub fn get_daily_mystery_file(latin_numeral: &str, mystery: &Mysteries) -> (r: String)
    ensures
        r@ == MYSTERY_DIR@ + "/"@ + mystery.spec_file_stem() + "_"@ + latin_numeral@,
{
    let stem = match mystery {
        Mysteries::Joyful => "mysteria_gaudiosa",
        Mysteries::Sorrowful => "mysteria_dolorosa",
        Mysteries::Glorious => "mysteria_gloriosa",
        Mysteries::Luminous => "mysteria_luminosa",
    };
    String::from_str(MYSTERY_DIR).concat("/").concat(stem).concat("_").concat(latin_numeral)
}

/// The file name of a prayer's text, relative to a language directory.
/// The five mystery announcements name the day's category.
pub open spec fn prayer_file_spec(p: RosaryPrayer, mystery: Mysteries) -> Seq<char> {
    match p {
        RosaryPrayer::SignOfCross => "signum_crucis"@,
        RosaryPrayer::ApostlesCreed => "symbolum_apostolorum"@,
        RosaryPrayer::OurFather => "pater_noster"@,
        RosaryPrayer::HailMary => "ave_maria"@,
        RosaryPrayer::HailMaryFaith => "ave_maria"@,
        RosaryPrayer::HailMaryHope => "ave_maria"@,
        RosaryPrayer::HailMaryCharity => "ave_maria"@,
        RosaryPrayer::GloryBe => "gloria_patri"@,
        RosaryPrayer::FatimaOMyJesus => "oratio_fatimae"@,
        RosaryPrayer::HailHolyQueen => "salve_regina"@,
        RosaryPrayer::PrayerToStMichael => "oratio_ad_sanctum_michael"@,
        RosaryPrayer::PrayerForPriests => "oratio_pro_sacerdotibus"@,
        RosaryPrayer::PrayerToStJoseph => "oratio_ad_sanctum_iosephum"@,
        RosaryPrayer::FinalPrayer => "oratio_ad_finem_rosarii"@,
        RosaryPrayer::Laudetur => "laudetur_Iesus_Christus"@,
        RosaryPrayer::FirstMystery => MYSTERY_DIR@ + "/"@ + mystery.spec_file_stem() + "_"@ + "I"@,
        RosaryPrayer::SecondMystery => MYSTERY_DIR@ + "/"@ + mystery.spec_file_stem() + "_"@ + "II"@,
        RosaryPrayer::ThirdMystery => MYSTERY_DIR@ + "/"@ + mystery.spec_file_stem() + "_"@ + "III"@,
        RosaryPrayer::FourthMystery => MYSTERY_DIR@ + "/"@ + mystery.spec_file_stem() + "_"@ + "IV"@,
        RosaryPrayer::FifthMystery => MYSTERY_DIR@ + "/"@ + mystery.spec_file_stem() + "_"@ + "V"@,
        RosaryPrayer::Nullus => ""@,
    }
}

impl RosaryPrayer {
    /// Return corresponding file name; the mystery announcements are
    /// resolved against the day's category.
    pub fn get_file(&self, mystery: &Mysteries) -> (r: String)
        ensures
            r@ == prayer_file_spec(*self, *mystery),
    {
        match self {
            RosaryPrayer::SignOfCross => String::from_str("signum_crucis"),
            RosaryPrayer::ApostlesCreed => String::from_str("symbolum_apostolorum"),
            RosaryPrayer::OurFather => String::from_str("pater_noster"),
            RosaryPrayer::HailMary => String::from_str("ave_maria"),
            RosaryPrayer::HailMaryFaith => String::from_str("ave_maria"),
            RosaryPrayer::HailMaryHope => String::from_str("ave_maria"),
            RosaryPrayer::HailMaryCharity => String::from_str("ave_maria"),
            RosaryPrayer::GloryBe => String::from_str("gloria_patri"),
            RosaryPrayer::FatimaOMyJesus => String::from_str("oratio_fatimae"),
            RosaryPrayer::HailHolyQueen => String::from_str("salve_regina"),
            RosaryPrayer::PrayerToStMichael => String::from_str("oratio_ad_sanctum_michael"),
            RosaryPrayer::PrayerForPriests => String::from_str("oratio_pro_sacerdotibus"),
            RosaryPrayer::PrayerToStJoseph => String::from_str("oratio_ad_sanctum_iosephum"),
            RosaryPrayer::FinalPrayer => String::from_str("oratio_ad_finem_rosarii"),
            RosaryPrayer::Laudetur => String::from_str("laudetur_Iesus_Christus"),
            RosaryPrayer::FirstMystery => get_daily_mystery_file("I", mystery),
            RosaryPrayer::SecondMystery => get_daily_mystery_file("II", mystery),
            RosaryPrayer::ThirdMystery => get_daily_mystery_file("III", mystery),
            RosaryPrayer::FourthMystery => get_daily_mystery_file("IV", mystery),
            RosaryPrayer::FifthMystery => get_daily_mystery_file("V", mystery),
            RosaryPrayer::Nullus => String::from_str(""),
        }
    }

    /// Whether this prayer announces one of the five mysteries.
    pub fn is_mystery(&self) -> (r: bool)
        ensures
            r == (*self == RosaryPrayer::FirstMystery || *self == RosaryPrayer::SecondMystery
                || *self == RosaryPrayer::ThirdMystery || *self == RosaryPrayer::FourthMystery
                || *self == RosaryPrayer::FifthMystery),
    {
        match self {
            RosaryPrayer::FirstMystery => true,
            RosaryPrayer::SecondMystery => true,
            RosaryPrayer::ThirdMystery => true,
            RosaryPrayer::FourthMystery => true,
            RosaryPrayer::FifthMystery => true,
            _ => false,
        }
    }
}

/// The mathematical model of a Rosary position: decade, bead within the
/// decade, 1-based prayer within the bead, and the bead's prayer count.
pub ghost struct RosaryState {
    pub decade: int,
    pub bead: int,
    pub prayer: int,
    pub num_prayer: int,
}

/// The ordered prayers of one bead. Decade 0 is the introductory
/// segment (crucifix, triplet, first mystery announcement); decades 1
/// to 5 each hold a mystery bead, ten Hail Marys and a closing pair,
/// and decade 5 additionally the final bead 12. Combinations outside
/// the table are empty.
pub open spec fn bead_prayers(decade: int, bead: int) -> Seq<RosaryPrayer> {
    if decade == 0 {
        if bead == 0 {
            seq![RosaryPrayer::SignOfCross, RosaryPrayer::ApostlesCreed]
        } else if bead == 1 {
            seq![RosaryPrayer::OurFather]
        } else if bead == 2 {
            seq![RosaryPrayer::HailMaryFaith]
        } else if bead == 3 {
            seq![RosaryPrayer::HailMaryHope]
        } else if bead == 4 {
            seq![RosaryPrayer::HailMaryCharity]
        } else if bead == 5 {
            seq![RosaryPrayer::GloryBe]
        } else if bead == 6 {
            seq![RosaryPrayer::FirstMystery, RosaryPrayer::OurFather]
        } else {
            seq![]
        }
    } else if 1 <= decade <= 5 {
        if bead == 0 {
            seq![nth_mystery(decade), RosaryPrayer::OurFather]
        } else if 1 <= bead <= 10 {
            seq![RosaryPrayer::HailMary]
        } else if bead == 11 {
            seq![RosaryPrayer::GloryBe, RosaryPrayer::FatimaOMyJesus]
        } else if bead == 12 && decade == 5 {
            seq![
                RosaryPrayer::HailHolyQueen,
                RosaryPrayer::PrayerToStJoseph,
                RosaryPrayer::PrayerToStMichael,
                RosaryPrayer::FinalPrayer,
                RosaryPrayer::Laudetur,
                RosaryPrayer::SignOfCross,
            ]
        } else {
            seq![]
        }
    } else {
        seq![]
    }
}

/// The mystery announced before the given decade.
pub open spec fn nth_mystery(decade: int) -> RosaryPrayer {
    if decade == 1 {
        RosaryPrayer::FirstMystery
    } else if decade == 2 {
        RosaryPrayer::SecondMystery
    } else if decade == 3 {
        RosaryPrayer::ThirdMystery
    } else if decade == 4 {
        RosaryPrayer::FourthMystery
    } else if decade == 5 {
        RosaryPrayer::FifthMystery
    } else {
        RosaryPrayer::Nullus
    }
}

/// How many prayers the bead holds.
pub open spec fn bead_len(decade: int, bead: int) -> int {
    bead_prayers(decade, bead).len() as int
}

/// The (decade, bead) pairs that forward traversal from the start can
/// reach. Decade 1's bead 0 is excluded: traversal enters decade 1 at
/// bead 1, its mystery having been announced at decade 0's bead 6.
pub open spec fn valid_pos(decade: int, bead: int) -> bool {
    ||| (decade == 0 && 0 <= bead <= 6)
    ||| (1 <= decade <= 5 && 1 <= bead <= 11)
    ||| (2 <= decade <= 5 && bead == 0)
    ||| (decade == 5 && bead == 12)
}

/// Well-formed positions: a reachable (decade, bead) pair, the prayer
/// count of the table, and a prayer index within it.
pub open spec fn wf_state(s: RosaryState) -> bool {
    &&& valid_pos(s.decade, s.bead)
    &&& s.num_prayer == bead_len(s.decade, s.bead)
    &&& 1 <= s.prayer <= s.num_prayer
}

/// The state a fresh Rosary starts in: the crucifix, first prayer.
pub open spec fn initial_state() -> RosaryState {
    RosaryState { decade: 0, bead: 0, prayer: 1, num_prayer: 2 }
}

/// The state the traversal ends in: the last closing prayer.
pub open spec fn terminal_state() -> RosaryState {
    RosaryState { decade: 5, bead: 12, prayer: 6, num_prayer: 6 }
}

/// The bead after (decade, bead) in forward traversal, or (decade,
/// bead) itself at the end.
pub open spec fn advance_pos(decade: int, bead: int) -> (int, int) {
    if decade == 0 {
        if bead <= 5 {
            (0, bead + 1)
        } else if bead == 6 {
            (1, 1)
        } else {
            (decade, bead)
        }
    } else if decade <= 5 {
        if bead < 11 {
            (decade, bead + 1)
        } else if bead == 11 {
            if decade < 5 {
                (decade + 1, if decade + 1 == 1 { 1int } else { 0int })
            } else {
                (5, 12)
            }
        } else {
            (decade, bead)
        }
    } else {
        (decade, bead)
    }
}

/// The bead before (decade, bead) in forward traversal, or (decade,
/// bead) itself at the start.
pub open spec fn recede_pos(decade: int, bead: int) -> (int, int) {
    if decade == 0 {
        if 1 <= bead <= 6 {
            (0, bead - 1)
        } else {
            (decade, bead)
        }
    } else if decade <= 5 {
        if bead == 0 {
            if decade - 1 > 0 {
                (decade - 1, 11)
            } else {
                (0, 6)
            }
        } else if bead <= 12 {
            if decade == 1 && bead == 1 {
                (0, 6)
            } else {
                (decade, bead - 1)
            }
        } else {
            (decade, bead)
        }
    } else {
        (decade, bead)
    }
}

/// One forward step: the next prayer of the bead, else the first
/// prayer of the next bead; a no-op at the terminal state.
pub open spec fn advance_state(s: RosaryState) -> RosaryState {
    if s.prayer < s.num_prayer {
        RosaryState { prayer: s.prayer + 1, ..s }
    } else {
        let (d2, b2) = advance_pos(s.decade, s.bead);
        if d2 == s.decade && b2 == s.bead {
            s
        } else {
            RosaryState { decade: d2, bead: b2, prayer: 1, num_prayer: bead_len(d2, b2) }
        }
    }
}

/// One backward step: the previous prayer of the bead, else the last
/// prayer of the previous bead; a no-op at the initial state.
pub open spec fn recede_state(s: RosaryState) -> RosaryState {
    if s.prayer > 1 {
        RosaryState { prayer: s.prayer - 1, ..s }
    } else {
        let (d2, b2) = recede_pos(s.decade, s.bead);
        if d2 == s.decade && b2 == s.bead {
            s
        } else {
            RosaryState { decade: d2, bead: b2, prayer: bead_len(d2, b2), num_prayer: bead_len(
                d2,
                b2,
            ) }
        }
    }
}

/// `k` forward steps.
pub open spec fn advance_k(s: RosaryState, k: nat) -> RosaryState
    decreases k,
{
    if k == 0 {
        s
    } else {
        advance_state(advance_k(s, (k - 1) as nat))
    }
}

/// `k` backward steps, innermost first.
pub open spec fn recede_k(s: RosaryState, k: nat) -> RosaryState
    decreases k,
{
    if k == 0 {
        s
    } else {
        recede_k(recede_state(s), (k - 1) as nat)
    }
}

/// Forward steps preserve well-formedness: in particular the prayer
/// count always equals the length of the bead's prayer table entry.
pub proof fn lemma_advance_preserves_wf(s: RosaryState)
    requires
        wf_state(s),
    ensures
        wf_state(advance_state(s)),
{
}

/// Backward steps preserve well-formedness.
pub proof fn lemma_recede_preserves_wf(s: RosaryState)
    requires
        wf_state(s),
    ensures
        wf_state(recede_state(s)),
{
}

/// A forward step that moves is undone exactly by one backward step.
pub proof fn lemma_recede_undoes_advance(s: RosaryState)
    requires
        wf_state(s),
        advance_state(s) != s,
    ensures
        recede_state(advance_state(s)) == s,
{
}

/// A well-formed state is fixed by `advance_state` exactly when it is
/// the terminal state.
pub proof fn lemma_advance_fixpoint(s: RosaryState)
    requires
        wf_state(s),
    ensures
        advance_state(s) == s <==> s == terminal_state(),
{
}

/// A well-formed state is fixed by `recede_state` exactly when it is
/// the initial state: receding at the very start changes nothing.
pub proof fn lemma_recede_fixpoint(s: RosaryState)
    requires
        wf_state(s),
    ensures
        recede_state(s) == s <==> s == initial_state(),
{
}

/// Backward steps commute with themselves: taking one step before a
/// run of `k` steps is taking it after.
proof fn lemma_recede_k_commute(s: RosaryState, k: nat)
    ensures
        recede_k(recede_state(s), k) == recede_state(recede_k(s, k)),
    decreases k,
{
    if k > 0 {
        lemma_recede_k_commute(recede_state(s), (k - 1) as nat);
    }
}

/// Round trip: from the initial state, any number of forward steps
/// followed by as many backward steps returns exactly to the initial
/// state, the boundary no-ops at either end included.
pub proof fn lemma_round_trip(k: nat)
    ensures
        wf_state(advance_k(initial_state(), k)),
        recede_k(advance_k(initial_state(), k), k) == initial_state(),
    decreases k,
{
    if k == 0 {
    } else {
        lemma_round_trip((k - 1) as nat);
        let prev = advance_k(initial_state(), (k - 1) as nat);
        lemma_advance_preserves_wf(prev);
        if advance_state(prev) == prev {
            lemma_advance_fixpoint(prev);
            lemma_recede_k_commute(prev, (k - 1) as nat);
            lemma_recede_fixpoint(initial_state());
        } else {
            lemma_recede_undoes_advance(prev);
        }
    }
}

/// The Latin location phrase of `Rosary::progress` for a position.
pub open spec fn progress_spec(s: RosaryState) -> Seq<char> {
    let location = if s.decade == 0 && s.bead == 0 {
        "ad crucifixum"@
    } else if s.decade == 0 && s.bead == 1 {
        "ad "@ + ordinal_n_acc_spec(s.bead) + " nodum"@
    } else if s.decade == 0 && s.bead == 5 {
        "post tergeminum granum"@
    } else if s.decade == 0 && s.bead == 6 {
        "ad "@ + ordinal_n_acc_spec(s.bead - 1) + " nodum"@
    } else if s.decade == 0 && 1 < s.bead <= 4 {
        "ad "@ + ordinal_n_acc_spec(s.bead - 1) + " granum tergemini grani"@
    } else if s.bead == 0 {
        "ante "@ + ordinal_n_acc_spec(s.decade) + " decennium"@
    } else if s.bead == 11 {
        "post "@ + ordinal_n_acc_spec(s.decade) + " decennium"@
    } else if s.bead == 12 {
        "ad finem rosarii"@
    } else {
        "ad "@ + ordinal_n_acc_spec(s.bead) + " nodum "@ + ordinal_n_gen_spec(s.decade)
            + " decennii"@
    };
    "Manus "@ + location + "."@
}

/// The position in the current recitation of the whole Rosary.
#[derive(Debug, Copy, Clone, Eq, PartialEq)]
pub struct Rosary {
    /// current decade
    decade: u8,
    /// current bead within decade
    bead: u8,
    /// current prayer in case of multiple prayers per bead
    /// starts at 1, not 0
    prayer: u8,
    /// number of prayers on the current bead
    num_prayer: u8,
}

impl View for Rosary {
    type V = RosaryState;

    closed spec fn view(&self) -> RosaryState {
        RosaryState {
            decade: self.decade as int,
            bead: self.bead as int,
            prayer: self.prayer as int,
            num_prayer: self.num_prayer as int,
        }
    }
}

impl Rosary {
    #[verifier::type_invariant]
    spec fn type_inv(self) -> bool {
        wf_state(self@)
    }

    /// A fresh Rosary, at the crucifix.
    pub fn new() -> (r: Rosary)
        ensures
            r@ == initial_state(),
    {
        Rosary { decade: 0, bead: 0, prayer: 1, num_prayer: 2 }
    }

    /// The prayer now due on the current bead.
    pub fn to_prayer(&self) -> (r: RosaryPrayer)
        ensures
            r == bead_prayers(self@.decade, self@.bead)[self@.prayer - 1],
    {
        proof {
            use_type_invariant(&*self);
        }
        let v = self.prayers_for_bead();
        v[(self.prayer - 1) as usize]
    }

    /// The ordered prayers of the current bead.
    pub fn prayers_for_bead(&self) -> (v: Vec<RosaryPrayer>)
        ensures
            v@ == bead_prayers(self@.decade, self@.bead),
    {
        Self::prayers_for(self.decade, self.bead)
    }

    /// The ordered prayers of any (decade, bead) pair; empty outside
    /// the table.
    pub fn prayers_for(decade: u8, bead: u8) -> (v: Vec<RosaryPrayer>)
        ensures
            v@ == bead_prayers(decade as int, bead as int),
    {
        let v: Vec<RosaryPrayer> = if decade == 0 {
            match bead {
                0 => vec![RosaryPrayer::SignOfCross, RosaryPrayer::ApostlesCreed],
                1 => vec![RosaryPrayer::OurFather],
                2 => vec![RosaryPrayer::HailMaryFaith],
                3 => vec![RosaryPrayer::HailMaryHope],
                4 => vec![RosaryPrayer::HailMaryCharity],
                5 => vec![RosaryPrayer::GloryBe],
                6 => vec![RosaryPrayer::FirstMystery, RosaryPrayer::OurFather],
                _ => vec![],
            }
        } else if decade <= 5 {
            if bead == 0 {
                let m = match decade {
                    1 => RosaryPrayer::FirstMystery,
                    2 => RosaryPrayer::SecondMystery,
                    3 => RosaryPrayer::ThirdMystery,
                    4 => RosaryPrayer::FourthMystery,
                    5 => RosaryPrayer::FifthMystery,
                    _ => RosaryPrayer::Nullus,
                };
                vec![m, RosaryPrayer::OurFather]
            } else if bead >= 1 && bead <= 10 {
                vec![RosaryPrayer::HailMary]
            } else if bead == 11 {
                vec![RosaryPrayer::GloryBe, RosaryPrayer::FatimaOMyJesus]
            } else if bead == 12 && decade == 5 {
                vec![
                    RosaryPrayer::HailHolyQueen,
                    RosaryPrayer::PrayerToStJoseph,
                    RosaryPrayer::PrayerToStMichael,
                    RosaryPrayer::FinalPrayer,
                    RosaryPrayer::Laudetur,
                    RosaryPrayer::SignOfCross,
                ]
            } else {
                vec![]
            }
        } else {
            vec![]
        };
        proof {
            assert(v@ =~= bead_prayers(decade as int, bead as int));
        }
        v
    }

    /// How many prayers a bead holds.
    fn bead_count(decade: u8, bead: u8) -> (n: u8)
        ensures
            n as int == bead_len(decade as int, bead as int),
    {
        if decade == 0 {
            match bead {
                0 => 2,
                1 => 1,
                2 => 1,
                3 => 1,
                4 => 1,
                5 => 1,
                6 => 2,
                _ => 0,
            }
        } else if decade <= 5 {
            if bead == 0 {
                2
            } else if bead >= 1 && bead <= 10 {
                1
            } else if bead == 11 {
                2
            } else if bead == 12 && decade == 5 {
                6
            } else {
                0
            }
        } else {
            0
        }
    }

    /// Move one step forward in the recitation; a no-op at the very
    /// end.
    pub fn advance(&mut self)
        ensures
            final(self)@ == advance_state(old(self)@),
    {
        proof {
            use_type_invariant(&*self);
        }
        if self.prayer < self.num_prayer {
            self.prayer = self.prayer + 1;
            return ;
        }
        let d = self.decade;
        let b = self.bead;
        let (d2, b2): (u8, u8) = if d == 0 {
            if b <= 5 {
                (0, b + 1)
            } else if b == 6 {
                (1, 1)
            } else {
                (d, b)
            }
        } else if d <= 5 {
            if b < 11 {
                (d, b + 1)
            } else if b == 11 {
                if d < 5 {
                    (d + 1, 0)
                } else {
                    (5, 12)
                }
            } else {
                (d, b)
            }
        } else {
            (d, b)
        };
        if d2 != d || b2 != b {
            let n2 = Self::bead_count(d2, b2);
            *self = Rosary { decade: d2, bead: b2, prayer: 1, num_prayer: n2 };
        }
    }

    /// Move one step backward in the recitation; a no-op at the very
    /// start.
    pub fn recede(&mut self)
        ensures
            final(self)@ == recede_state(old(self)@),
    {
        proof {
            use_type_invariant(&*self);
        }
        if self.prayer > 1 {
            self.prayer = self.prayer - 1;
            return ;
        }
        let d = self.decade;
        let b = self.bead;
        let (d2, b2): (u8, u8) = if d == 0 {
            if b >= 1 && b <= 6 {
                (0, b - 1)
            } else {
                (d, b)
            }
        } else if d <= 5 {
            if b == 0 {
                if d - 1 > 0 {
                    (d - 1, 11)
                } else {
                    (0, 6)
                }
            } else if b <= 12 {
                if d == 1 && b == 1 {
                    (0, 6)
                } else {
                    (d, b - 1)
                }
            } else {
                (d, b)
            }
        } else {
            (d, b)
        };
        if d2 != d || b2 != b {
            let n2 = Self::bead_count(d2, b2);
            *self = Rosary { decade: d2, bead: b2, prayer: n2, num_prayer: n2 };
        }
    }

    /// The current decade, 0 for the introductory segment.
    pub fn get_decade(&self) -> (r: u8)
        ensures
            r as int == self@.decade,
    {
        self.decade
    }

    /// The current bead within the decade.
    pub fn get_bead(&self) -> (r: u8)
        ensures
            r as int == self@.bead,
    {
        self.bead
    }

    /// The Latin phrase describing where the hand now rests.
    pub fn progress(&self) -> (r: String)
        ensures
            r@ == progress_spec(self@),
    {
        proof {
            use_type_invariant(&*self);
        }
        let location: String = if self.decade == 0 && self.bead == 0 {
            String::from_str("ad crucifixum")
        } else if self.decade == 0 && self.bead == 1 {
            String::from_str("ad ").concat(ordinal_n_acc(self.bead)).concat(" nodum")
        } else if self.decade == 0 && self.bead == 5 {
            String::from_str("post tergeminum granum")
        } else if self.decade == 0 && self.bead == 6 {
            String::from_str("ad ").concat(ordinal_n_acc(self.bead - 1)).concat(" nodum")
        } else if self.decade == 0 && self.bead > 1 && self.bead <= 4 {
            String::from_str("ad ").concat(ordinal_n_acc(self.bead - 1)).concat(
                " granum tergemini grani",
            )
        } else if self.bead == 0 {
            String::from_str("ante ").concat(ordinal_n_acc(self.decade)).concat(" decennium")
        } else if self.bead == 11 {
            String::from_str("post ").concat(ordinal_n_acc(self.decade)).concat(" decennium")
        } else if self.bead == 12 {
            String::from_str("ad finem rosarii")
        } else {
            String::from_str("ad ").concat(ordinal_n_acc(self.bead)).concat(" nodum ").concat(
                ordinal_n_gen(self.decade),
            ).concat(" decennii")
        };
        String::from_str("Manus ").concat(location.as_str()).concat(".")
    }

    /// The current prayer position as "prayer/count".
    pub fn get_curr_prayer(&self) -> (r: String)
        ensures
            r@ == dec_seq(self@.prayer) + "/"@ + dec_seq(self@.num_prayer),
    {
        let s = u8_dec_string(self.prayer);
        let s = s.concat("/");
        let n = u8_dec_string(self.num_prayer);
        let r = s.concat(n.as_str());
        r
    }
}

} // verus!
