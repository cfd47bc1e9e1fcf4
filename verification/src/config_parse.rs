//! The rules of the prayer-set configuration: how a group definition
//! expands, how its selection properties are read, and which prayers a
//! group contributes. The surrounding application parses the YAML
//! into plain values and draws the random numbers; every decision on
//! those values is made here.

use vstd::prelude::*;

use crate::prayer::_Prayer;
use crate::tui::{e, ErrorString};

verus! {

/// A decimal digit.
pub open spec fn is_digit(c: char) -> bool {
    '0' <= c <= '9'
}

/// The value of a decimal digit.
pub open spec fn digit_value(c: char) -> int {
    c as int - '0' as int
}

/// Whether every character of the sequence is a decimal digit.
pub open spec fn all_digits(s: Seq<char>) -> bool {
    forall|i: int| 0 <= i < s.len() ==> is_digit(#[trigger] s[i])
}

/// The number the digit sequence writes in decimal.
pub open spec fn digits_value(s: Seq<char>) -> int
    decreases s.len(),
{
    if s.len() == 0 {
        0
    } else {
        digits_value(s.drop_last()) * 10 + digit_value(s.last())
    }
}

/// A number read from a decimal digit string; nothing when the string
/// is empty, holds another character, or exceeds `usize`.
pub fn parse_usize(s: &str) -> (r: Option<usize>)
    ensures
        r is Some <==> s@.len() > 0 && all_digits(s@) && digits_value(s@) <= usize::MAX,
        (r matches Some(v) ==> v == digits_value(s@)),
{
    let n = s.unicode_len();
    if n == 0 {
        return None;
    }
    let mut value: usize = 0;
    let mut i: usize = 0;
    while i < n
        invariant
            0 < n == s@.len(),
            0 <= i <= n,
            all_digits(s@.take(i as int)),
            value == digits_value(s@.take(i as int)),
        decreases n - i,
    {
        let c = s.get_char(i);
        if c < '0' || c > '9' {
            return None;
        }
        let d = (c as u32 - '0' as u32) as usize;
        if value > (usize::MAX - d) / 10 {
            proof {
                let t = s@.take(i as int + 1);
                assert(t.drop_last() =~= s@.take(i as int));
                assert(digits_value(t) == value * 10 + d);
                if all_digits(s@) {
                    lemma_digits_value_prefix_le(s@, i as int + 1);
                }
                assert(10 * value + d > usize::MAX) by (nonlinear_arith)
                    requires
                        value > (usize::MAX - d) / 10,
                        0 <= d <= 9,
                        value >= 0,
                ;
            }
            return None;
        }
        proof {
            assert(10 * value + d <= usize::MAX) by (nonlinear_arith)
                requires
                    value <= (usize::MAX - d) / 10,
                    0 <= d <= 9,
                    value >= 0,
            ;
            let t = s@.take(i as int + 1);
            assert(t.drop_last() =~= s@.take(i as int));
            assert(t.last() == s@[i as int]);
        }
        value = value * 10 + d;
        i = i + 1;
    }
    proof {
        assert(s@.take(n as int) =~= s@);
    }
    Some(value)
}

/// A prefix of a digit string never writes a larger number than the
/// whole string.
proof fn lemma_digits_value_prefix_le(s: Seq<char>, k: int)
    requires
        all_digits(s),
        0 <= k <= s.len(),
    ensures
        digits_value(s.take(k)) <= digits_value(s),
    decreases s.len() - k,
{
    if k == s.len() {
        assert(s.take(k) =~= s);
    } else {
        assert(all_digits(s.take(k + 1))) by {
            assert(forall|i: int| 0 <= i < k + 1 ==> s.take(k + 1)[i] == s[i]);
        }
        lemma_digits_value_grows(s, k + 1);
        lemma_digits_value_prefix_le(s, k + 1);
    }
}

/// One more digit never shrinks the number a digit string writes.
proof fn lemma_digits_value_grows(s: Seq<char>, k: int)
    requires
        0 < k <= s.len(),
        all_digits(s.take(k)),
    ensures
        digits_value(s.take(k)) >= digits_value(s.take(k - 1)),
    decreases k,
{
    let t = s.take(k);
    assert(t.drop_last() =~= s.take(k - 1));
    assert(digits_value(t) == digits_value(s.take(k - 1)) * 10 + digit_value(t.last()));
    lemma_digits_value_nonneg(s.take(k - 1));
}

/// A digit string's value is never negative.
proof fn lemma_digits_value_nonneg(s: Seq<char>)
    requires
        all_digits(s),
    ensures
        digits_value(s) >= 0,
    decreases s.len(),
{
    if s.len() > 0 {
        assert(all_digits(s.drop_last())) by {
            assert(forall|i: int| 0 <= i < s.len() - 1 ==> s.drop_last()[i] == s[i]);
        }
        lemma_digits_value_nonneg(s.drop_last());
    }
}

/// Whether two string slices hold the same characters.
pub fn str_eq(a: &str, b: &str) -> (r: bool)
    ensures
        r == (a@ == b@),
{
    let na = a.unicode_len();
    let nb = b.unicode_len();
    if na != nb {
        proof {
            assert(a@ != b@) by {
                assert(a@.len() != b@.len());
            }
        }
        return false;
    }
    let mut i: usize = 0;
    while i < na
        invariant
            na == a@.len() == b@.len(),
            0 <= i <= na,
            forall|j: int| 0 <= j < i ==> a@[j] == b@[j],
        decreases na - i,
    {
        if a.get_char(i) != b.get_char(i) {
            return false;
        }
        i = i + 1;
    }
    proof {
        assert(a@ =~= b@);
    }
    true
}

/// How a group of prayers is drawn from its definition.
#[derive(Debug)]
pub struct Properties {
    /// Select a random number between count_min and count_max of
    /// prayers.
    pub count_min: usize,
    pub count_max: usize,
    /// Whether to select prayers at random from the group.
    pub random: bool,
    /// Chance (in percent) to select any prayers from the group at
    /// all.
    pub chance: i64,
}

/// The value of a "count" entry as the surrounding application hands
/// it over: a number, a "low-high" range string, or absent.
pub enum CountSpec {
    Number(i64),
    Range(String),
    Absent,
}

/// A usable end of a "low-high" range: a non-empty digit string whose
/// value fits `usize`.
pub open spec fn range_part_ok(t: Seq<char>) -> bool {
    t.len() > 0 && all_digits(t) && digits_value(t) <= usize::MAX
}

/// The first dash at or after `from`.
pub open spec fn first_dash(s: Seq<char>, from: int) -> int
    decreases s.len() - from,
{
    if from >= s.len() {
        s.len() as int
    } else if s[from] == '-' {
        from
    } else {
        first_dash(s, from + 1)
    }
}

/// The selection properties of a group: an explicit count pins the
/// range to one number, a "low-high" string gives its two ends, and
/// an absent count means the whole group.
pub fn get_properties(
    group_len: usize,
    count: &CountSpec,
    random: bool,
    chance: i64,
) -> (r: Result<Properties, ErrorString>)
    ensures
        (r matches Ok(p) ==> p.random == random && p.chance == chance),
        (count matches CountSpec::Number(c) ==> ({
            &&& (r is Ok <==> 0 <= *c <= usize::MAX)
            &&& (r matches Ok(p) ==> p.count_min == *c && p.count_max == *c)
        })),
        (count is Absent ==> (r matches Ok(p) && p.count_min == group_len && p.count_max
            == group_len)),
        (count matches CountSpec::Range(s) ==> ({
            let w = s@;
            let p = first_dash(w, 0);
            let q = first_dash(w, p + 1);
            &&& (r is Ok <==> p < w.len() && range_part_ok(w.subrange(0, p)) && range_part_ok(
                w.subrange(p + 1, q),
            ))
            &&& (r matches Ok(props) ==> props.count_min == digits_value(w.subrange(0, p))
                && props.count_max == digits_value(w.subrange(p + 1, q)))
        })),
        (r matches Err(err) ==> err@ == "Malformed YAML"@),
{
    match count {
        CountSpec::Number(c) => {
            if *c < 0 || (*c as u64) > (usize::MAX as u64) {
                Err(e("Malformed YAML"))
            } else {
                let c = *c as usize;
                Ok(Properties { count_min: c, count_max: c, random, chance })
            }
        },
        CountSpec::Range(s) => {
            match split_range(s.as_str()) {
                Some((lo, hi)) => Ok(Properties { count_min: lo, count_max: hi, random, chance }),
                None => Err(e("Malformed YAML")),
            }
        },
        CountSpec::Absent => Ok(
            Properties { count_min: group_len, count_max: group_len, random, chance },
        ),
    }
}

/// The two numbers of a "low-high" range string: the low end before
/// the first dash, the high end between it and the second dash or the
/// string's end.
fn split_range(s: &str) -> (r: Option<(usize, usize)>)
    ensures
        ({
            let w = s@;
            let p = first_dash(w, 0);
            let q = first_dash(w, p + 1);
            &&& (r is Some <==> p < w.len() && range_part_ok(w.subrange(0, p)) && range_part_ok(
                w.subrange(p + 1, q),
            ))
            &&& (r matches Some(v) ==> v.0 == digits_value(w.subrange(0, p)) && v.1
                == digits_value(w.subrange(p + 1, q)))
        }),
{
    let n = s.unicode_len();
    let mut p: usize = 0;
    while p < n && s.get_char(p) != '-'
        invariant
            0 <= p <= n == s@.len(),
            first_dash(s@, 0) == first_dash(s@, p as int),
        decreases n - p,
    {
        p = p + 1;
    }
    proof {
        assert(first_dash(s@, 0) == p);
    }
    if p >= n {
        return None;
    }
    let mut q: usize = p + 1;
    while q < n && s.get_char(q) != '-'
        invariant
            p < q <= n == s@.len(),
            (p as int) < s@.len(),
            first_dash(s@, p as int + 1) == first_dash(s@, q as int),
        decreases n - q,
    {
        q = q + 1;
    }
    proof {
        assert(first_dash(s@, p as int + 1) == q);
    }
    let lo = parse_usize(s.substring_char(0, p));
    let hi = parse_usize(s.substring_char(p + 1, q));
    match (lo, hi) {
        (Some(lo), Some(hi)) => Some((lo, hi)),
        _ => None,
    }
}

/// The prayer list a group name stands for: the names its definition
/// lists, or the name itself where no definition exists.
pub open spec fn lookup_def(defs: Seq<(String, Vec<String>)>, g: Seq<char>) -> Option<
    Seq<Seq<char>>,
>
    decreases defs.len(),
{
    if defs.len() == 0 {
        None
    } else if defs[0].0@ == g {
        Some(defs[0].1@.map_values(|s: String| s@))
    } else {
        lookup_def(defs.drop_first(), g)
    }
}

/// Expand a group name against the configured definitions: the
/// prayers its definition lists, or the name alone.
pub fn expand_group_definition(defs: &Vec<(String, Vec<String>)>, g: &str) -> (r: Vec<_Prayer>)
    ensures
        (lookup_def(defs@, g@) matches Some(names) ==> r@.map_values(|p: _Prayer| p@) == names),
        lookup_def(defs@, g@) is None ==> r@.map_values(|p: _Prayer| p@) =~= seq![g@],
{
    proof {
        assert(defs@.skip(0) =~= defs@);
    }
    let mut k: usize = 0;
    while k < defs.len()
        invariant
            0 <= k <= defs@.len(),
            lookup_def(defs@.skip(k as int), g@) == lookup_def(defs@, g@),
            forall|j: int| 0 <= j < k ==> #[trigger] defs@[j].0@ != g@,
        decreases defs@.len() - k,
    {
        proof {
            assert(defs@.skip(k as int).drop_first() =~= defs@.skip(k as int + 1));
        }
        if str_eq(defs[k].0.as_str(), g) {
            let names = &defs[k].1;
            let mut out: Vec<_Prayer> = Vec::new();
            let mut i: usize = 0;
            while i < names.len()
                invariant
                    0 <= i <= names@.len(),
                    out@.len() == i,
                    forall|j: int| 0 <= j < i ==> #[trigger] out@[j]@ == names@[j]@,
                decreases names@.len() - i,
            {
                out.push(_Prayer::new(names[i].clone()));
                i = i + 1;
            }
            proof {
                assert(out@.map_values(|p: _Prayer| p@) =~= names@.map_values(|s: String| s@));
                assert(defs@.skip(k as int)[0] == defs@[k as int]);
            }
            return out;
        }
        k = k + 1;
    }
    let mut out: Vec<_Prayer> = Vec::new();
    out.push(_Prayer::new(String::from_str(g).clone()));
    proof {
        assert(out@.map_values(|p: _Prayer| p@) =~= seq![g@]);
    }
    out
}

/// Which prayers a group contributes, given its properties and the
/// draws the application made: nothing when the chance draw failed;
/// else `count` prayers, taken at the drawn indices when the group is
/// random, else cyclically from its start.
pub fn pick_and_apply_properties(
    group: &Vec<_Prayer>,
    p: &Properties,
    chance_hit: bool,
    count: usize,
    picks: &Vec<usize>,
) -> (r: Result<Vec<_Prayer>, ErrorString>)
    ensures
        (!chance_hit ==> (r matches Ok(v) && v@.len() == 0)),
        chance_hit && p.random ==> ({
            &&& (r is Ok <==> count == 0 || (picks@.len() >= count && group@.len() > 0 && (forall|
                j: int,
            |
                0 <= j < count ==> #[trigger] picks@[j] < group@.len())))
            &&& (r matches Ok(v) ==> v@.len() == count && (forall|j: int|
                0 <= j < count ==> #[trigger] v@[j]@ == group@[picks@[j] as int]@))
        }),
        chance_hit && !p.random ==> ({
            &&& (r is Ok <==> count == 0 || group@.len() > 0)
            &&& (r matches Ok(v) ==> v@.len() == count && (forall|j: int|
                0 <= j < count ==> #[trigger] v@[j]@ == group@[j % group@.len() as int]@))
        }),
        (r matches Err(err) ==> err@ == "Malformed YAML"@),
{
    let mut order: Vec<_Prayer> = Vec::new();
    if !chance_hit {
        return Ok(order);
    }
    let mut i: usize = 0;
    while i < count
        invariant
            0 <= i <= count,
            order@.len() == i,
            chance_hit,
            i > 0 ==> group@.len() > 0,
            p.random ==> picks@.len() >= i && (forall|j: int|
                0 <= j < i ==> #[trigger] picks@[j] < group@.len()),
            p.random ==> (forall|j: int|
                0 <= j < i ==> #[trigger] order@[j]@ == group@[picks@[j] as int]@),
            !p.random ==> (forall|j: int|
                0 <= j < i ==> #[trigger] order@[j]@ == group@[j % group@.len() as int]@),
        decreases count - i,
    {
        if p.random {
            if i >= picks.len() {
                return Err(e("Malformed YAML"));
            }
            let pick = picks[i];
            if pick >= group.len() {
                return Err(e("Malformed YAML"));
            }
            order.push(_Prayer::new(group[pick].get_file()));
        } else {
            if group.len() == 0 {
                return Err(e("Malformed YAML"));
            }
            order.push(_Prayer::new(group[i % group.len()].get_file()));
        }
        i = i + 1;
    }
    Ok(order)
}

} // verus!
