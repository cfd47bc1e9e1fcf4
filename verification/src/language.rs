//! Languages of the prayer texts, Latin ordinal formatting, and decimal
//! rendering of small counters.

use vstd::prelude::*;

verus! {

/// A language in which prayer texts may be available.
#[derive(Debug, Clone, Copy, Eq, PartialEq)]
pub enum Language {
    LATINA,
    GERMANA,
    SLAVONICA,
    ANGLIA,
}

impl Language {
    /// The directory name under which texts of this language are stored.
    pub open spec fn spec_name(&self) -> Seq<char> {
        match self {
            Language::LATINA => "latina"@,
            Language::GERMANA => "germana"@,
            Language::ANGLIA => "anglia"@,
            Language::SLAVONICA => "slavonica_antiqua"@,
        }
    }

    /// The directory name of this language.
    pub fn to_string(&self) -> (r: String)
        ensures
            r@ == self.spec_name(),
    {
        match self {
            Language::LATINA => String::from_str("latina"),
            Language::GERMANA => String::from_str("germana"),
            Language::ANGLIA => String::from_str("anglia"),
            Language::SLAVONICA => String::from_str("slavonica_antiqua"),
        }
    }

    /// Every supported language, in fallback-search order.
    pub fn values() -> (v: Vec<Language>)
        ensures
            v@ == seq![
                Language::ANGLIA,
                Language::GERMANA,
                Language::LATINA,
                Language::SLAVONICA,
            ],
    {
        let mut v: Vec<Language> = Vec::new();
        v.push(Language::ANGLIA);
        v.push(Language::GERMANA);
        v.push(Language::LATINA);
        v.push(Language::SLAVONICA);
        proof {
            assert(v@ =~= seq![
                Language::ANGLIA,
                Language::GERMANA,
                Language::LATINA,
                Language::SLAVONICA,
            ]);
        }
        v
    }
}

/// The Latin ordinal, neuter accusative singular, for 1 to 10; empty
/// outside that range.
pub open spec fn ordinal_n_acc_spec(i: int) -> Seq<char> {
    if i == 1 {
        "primum"@
    } else if i == 2 {
        "secundum"@
    } else if i == 3 {
        "tertium"@
    } else if i == 4 {
        "quartum"@
    } else if i == 5 {
        "quintum"@
    } else if i == 6 {
        "sextum"@
    } else if i == 7 {
        "septimum"@
    } else if i == 8 {
        "octavum"@
    } else if i == 9 {
        "nonum"@
    } else if i == 10 {
        "decimum"@
    } else {
        ""@
    }
}

/// Ordinals for Latin neuter accusative singular.
pub fn ordinal_n_acc(i: u8) -> (r: &'static str)
    ensures
        r@ == ordinal_n_acc_spec(i as int),
{
    match i {
        1 => "primum",
        2 => "secundum",
        3 => "tertium",
        4 => "quartum",
        5 => "quintum",
        6 => "sextum",
        7 => "septimum",
        8 => "octavum",
        9 => "nonum",
        10 => "decimum",
        _ => "",
    }
}

/// As `ordinal_n_acc_spec`, with the first letter capitalised.
pub open spec fn ordinal_n_acc_upper_spec(i: int) -> Seq<char> {
    if i == 1 {
        "Primum"@
    } else if i == 2 {
        "Secundum"@
    } else if i == 3 {
        "Tertium"@
    } else if i == 4 {
        "Quartum"@
    } else if i == 5 {
        "Quintum"@
    } else if i == 6 {
        "Sextum"@
    } else if i == 7 {
        "Septimum"@
    } else if i == 8 {
        "Octavum"@
    } else if i == 9 {
        "Nonum"@
    } else if i == 10 {
        "Decimum"@
    } else {
        ""@
    }
}

/// Capitalised ordinals for Latin neuter accusative singular.
pub fn ordinal_n_acc_upper(i: u8) -> (r: String)
    ensures
        r@ == ordinal_n_acc_upper_spec(i as int),
{
    match i {
        1 => String::from_str("Primum"),
        2 => String::from_str("Secundum"),
        3 => String::from_str("Tertium"),
        4 => String::from_str("Quartum"),
        5 => String::from_str("Quintum"),
        6 => String::from_str("Sextum"),
        7 => String::from_str("Septimum"),
        8 => String::from_str("Octavum"),
        9 => String::from_str("Nonum"),
        10 => String::from_str("Decimum"),
        _ => String::from_str(""),
    }
}

/// The Latin ordinal, neuter genitive singular, for 1 to 10; empty
/// outside that range.
pub open spec fn ordinal_n_gen_spec(i: int) -> Seq<char> {
    if i == 1 {
        "primi"@
    } else if i == 2 {
        "secundi"@
    } else if i == 3 {
        "tertii"@
    } else if i == 4 {
        "quarti"@
    } else if i == 5 {
        "quinti"@
    } else if i == 6 {
        "sexti"@
    } else if i == 7 {
        "septimi"@
    } else if i == 8 {
        "octavi"@
    } else if i == 9 {
        "noni"@
    } else if i == 10 {
        "decimi"@
    } else {
        ""@
    }
}

/// Ordinals for Latin neuter genitive singular.
pub fn ordinal_n_gen(i: u8) -> (r: &'static str)
    ensures
        r@ == ordinal_n_gen_spec(i as int),
{
    match i {
        1 => "primi",
        2 => "secundi",
        3 => "tertii",
        4 => "quarti",
        5 => "quinti",
        6 => "sexti",
        7 => "septimi",
        8 => "octavi",
        9 => "noni",
        10 => "decimi",
        _ => "",
    }
}

/// The decimal digits of `n`, most significant first.
pub open spec fn dec_seq(n: int) -> Seq<char>
    decreases n,
{
    if n < 10 {
        seq![digit_char(n)]
    } else {
        dec_seq(n / 10) + seq![digit_char(n % 10)]
    }
}

/// The character for one decimal digit; `'0'` outside 0 to 9.
pub open spec fn digit_char(d: int) -> char {
    if d == 1 {
        '1'
    } else if d == 2 {
        '2'
    } else if d == 3 {
        '3'
    } else if d == 4 {
        '4'
    } else if d == 5 {
        '5'
    } else if d == 6 {
        '6'
    } else if d == 7 {
        '7'
    } else if d == 8 {
        '8'
    } else if d == 9 {
        '9'
    } else {
        '0'
    }
}

/// One decimal digit as a string slice.
fn digit_str(d: u8) -> (r: &'static str)
    requires
        d < 10,
    ensures
        r@ == seq![digit_char(d as int)],
{
    proof {
        reveal_strlit("0");
        reveal_strlit("1");
        reveal_strlit("2");
        reveal_strlit("3");
        reveal_strlit("4");
        reveal_strlit("5");
        reveal_strlit("6");
        reveal_strlit("7");
        reveal_strlit("8");
        reveal_strlit("9");
    }
    match d {
        1 => "1",
        2 => "2",
        3 => "3",
        4 => "4",
        5 => "5",
        6 => "6",
        7 => "7",
        8 => "8",
        9 => "9",
        _ => "0",
    }
}

/// `n` written in decimal.
pub fn u8_dec_string(n: u8) -> (r: String)
    ensures
        r@ == dec_seq(n as int),
{
    if n < 10 {
        assert(dec_seq(n as int) == seq![digit_char(n as int)]);
        String::from_str(digit_str(n))
    } else if n < 100 {
        assert(dec_seq(n as int) == seq![digit_char(n as int / 10), digit_char(n as int % 10)])
            by {
            assert(dec_seq(n as int / 10) == seq![digit_char(n as int / 10)]);
            assert(seq![digit_char(n as int / 10)] + seq![digit_char(n as int % 10)]
                =~= seq![digit_char(n as int / 10), digit_char(n as int % 10)]);
        }
        let s = String::from_str(digit_str(n / 10));
        let r = s.concat(digit_str(n % 10));
        assert(r@ =~= dec_seq(n as int));
        r
    } else {
        assert(dec_seq(n as int) == dec_seq(n as int / 10) + seq![digit_char(n as int % 10)]);
        assert(n as int / 10 >= 10);
        assert(dec_seq(n as int / 10) == dec_seq(n as int / 10 / 10) + seq![
            digit_char(n as int / 10 % 10),
        ]);
        assert(n as int / 10 / 10 == n as int / 100);
        assert(n as int / 100 < 10);
        assert(dec_seq(n as int / 100) == seq![digit_char(n as int / 100)]);
        let s = String::from_str(digit_str(n / 100));
        let s = s.concat(digit_str((n / 10) % 10));
        let r = s.concat(digit_str(n % 10));
        assert(r@ =~= dec_seq(n as int));
        r
    }
}

} // verus!
