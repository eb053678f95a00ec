//! The input parsers of the registration and data-update flows.
//!
//! Every parser is total: bad input becomes a typed error naming the field
//! at fault, never a panic.  A multi-field update is all-or-nothing — if
//! any required key is missing or malformed, nothing is reported back but
//! the error.

use vstd::prelude::*;
use crate::profile::Sizes;
use crate::text::{
    all_digits, digit_char, digit_val, digits_val, int_val, is_digit, is_int_literal, spec_dec,
    spec_parse_i32, spec_split, spec_trim, views_of, parse_i32, split_on, str_eq, trim_str,
};

verus! {

/// The age a registration text denotes, when it is valid: an integer
/// strictly between 0 and 100.
pub open spec fn spec_parse_age(s: Seq<char>) -> Option<i32> {
    match spec_parse_i32(s) {
        Some(v) => if 0 < v < 100 {
            Some(v)
        } else {
            None
        },
        None => None,
    }
}

/// Parses an age in years; accepts 1 through 99.
pub fn parse_age(s: &str) -> (r: Option<i32>)
    ensures
        r == spec_parse_age(s@),
{
    match parse_i32(s) {
        Some(v) => if 0 < v && v < 100 {
            Some(v)
        } else {
            None
        },
        None => None,
    }
}

/// Every digit rendering denotes the number it was rendered from.
pub proof fn lemma_dec_denotes_itself(n: int)
    requires
        n >= 0,
    ensures
        all_digits(spec_dec(n)),
        spec_dec(n).len() >= 1,
        digits_val(spec_dec(n)) == n,
    decreases n,
{
    if n < 10 {
        assert(spec_dec(n) =~= seq![digit_char(n)]);
        assert(spec_dec(n).drop_last() =~= Seq::<char>::empty());
        assert(digits_val(Seq::<char>::empty()) == 0);
        assert(digits_val(spec_dec(n)) == digit_val(digit_char(n)));
    } else {
        lemma_dec_denotes_itself(n / 10);
        vstd::arithmetic::div_mod::lemma_fundamental_div_mod(n, 10);
        let s = spec_dec(n);
        assert(s =~= spec_dec(n / 10) + seq![digit_char(n % 10)]);
        assert(s.drop_last() =~= spec_dec(n / 10));
        assert(s.last() == digit_char(n % 10));
        assert(all_digits(s)) by {
            assert(forall|i: int|
                0 <= i < s.len() - 1 ==> s[i] == spec_dec(n / 10)[i]);
        }
        assert(digits_val(s) == digits_val(spec_dec(n / 10)) * 10 + digit_val(
            digit_char(n % 10)));
    }
}

/// Age validation accepts every age from 1 through 99: the decimal
/// rendering of any such number parses back to exactly that number.
pub proof fn lemma_age_in_range_is_accepted(n: i32)
    requires
        1 <= n <= 99,
    ensures
        spec_parse_age(spec_dec(n as int)) == Some(n),
{
    lemma_dec_denotes_itself(n as int);
    let s = spec_dec(n as int);
    assert(is_digit(s[0]));
    assert(is_int_literal(s));
    assert(int_val(s) == n);
}

/// What went wrong with a `"<height> <weight>"` text.
#[derive(Clone, Copy, Debug, PartialEq, Eq, Structural)]
pub enum HeightWeightError {
    /// Not exactly two space-separated tokens.
    WrongShape,
    /// The first token is not an integer.
    BadHeight,
    /// The second token is not an integer.
    BadWeight,
}

/// The height/weight pair a text of the form `"<int> <int>"` denotes.
pub open spec fn spec_parse_height_weight(s: Seq<char>) -> Result<(i32, i32), HeightWeightError> {
    let toks = spec_split(s, " "@);
    if toks.len() != 2 {
        Err(HeightWeightError::WrongShape)
    } else {
        match spec_parse_i32(toks[0]) {
            None => Err(HeightWeightError::BadHeight),
            Some(h) => match spec_parse_i32(toks[1]) {
                None => Err(HeightWeightError::BadWeight),
                Some(w) => Ok((h, w)),
            },
        }
    }
}

/// Parses a `"<height> <weight>"` text.
pub fn parse_height_weight(s: &str) -> (r: Result<(i32, i32), HeightWeightError>)
    ensures
        r == spec_parse_height_weight(s@),
{
    proof {
        reveal_strlit(" ");
    }
    let toks = split_on(s, " ");
    if toks.len() != 2 {
        return Err(HeightWeightError::WrongShape);
    }
    proof {
        assert(views_of(toks@)[0] == toks@[0]@);
        assert(views_of(toks@)[1] == toks@[1]@);
    }
    let h = match parse_i32(toks[0].as_str()) {
        None => {
            return Err(HeightWeightError::BadHeight);
        },
        Some(h) => h,
    };
    let w = match parse_i32(toks[1].as_str()) {
        None => {
            return Err(HeightWeightError::BadWeight);
        },
        Some(w) => w,
    };
    Ok((h, w))
}

/// The views of a vector of key/value pairs.
pub open spec fn kv_views(v: Seq<(String, String)>) -> Seq<(Seq<char>, Seq<char>)> {
    v.map_values(|p: (String, String)| (p.0@, p.1@))
}

/// The key/value pairs of a `"key: value, key: value"` text, in order.
/// An entry without the `": "` separator contributes nothing; of an entry
/// with several separators only the first two pieces count; values are
/// trimmed, keys are not.
pub open spec fn spec_kv_pairs(entries: Seq<Seq<char>>) -> Seq<(Seq<char>, Seq<char>)>
    decreases entries.len(),
{
    if entries.len() == 0 {
        seq![]
    } else {
        let pair = spec_split(entries.last(), ": "@);
        spec_kv_pairs(entries.drop_last()) + if pair.len() >= 2 {
            seq![(pair[0], spec_trim(pair[1]))]
        } else {
            seq![]
        }
    }
}

/// The value under `key`; on repeated keys the last entry wins.
pub open spec fn spec_lookup(pairs: Seq<(Seq<char>, Seq<char>)>, key: Seq<char>) -> Option<
    Seq<char>,
>
    decreases pairs.len(),
{
    if pairs.len() == 0 {
        None
    } else if pairs.last().0 == key {
        Some(pairs.last().1)
    } else {
        spec_lookup(pairs.drop_last(), key)
    }
}

/// Splits a `"key: value, key: value"` text into its key/value pairs.
#[verifier::loop_isolation(false)]
pub fn parse_string(data: &str) -> (r: Vec<(String, String)>)
    ensures
        kv_views(r@) == spec_kv_pairs(spec_split(data@, ", "@)),
{
    proof {
        reveal_strlit(", ");
        reveal_strlit(": ");
    }
    let entries = split_on(data, ", ");
    let mut pairs: Vec<(String, String)> = Vec::new();
    let ghost evs = views_of(entries@);
    let mut i: usize = 0;
    while i < entries.len()
        invariant
            i <= entries.len(),
            kv_views(pairs@) =~= spec_kv_pairs(evs.subrange(0, i as int)),
        decreases entries.len() - i,
    {
        let pair = split_on(entries[i].as_str(), ": ");
        proof {
            assert(evs.subrange(0, i + 1).drop_last() =~= evs.subrange(0, i as int));
            assert(evs.subrange(0, i + 1).last() == entries@[i as int]@);
        }
        if pair.len() >= 2 {
            proof {
                assert(views_of(pair@)[0] == pair@[0]@);
                assert(views_of(pair@)[1] == pair@[1]@);
            }
            let value = trim_str(pair[1].as_str());
            let entry = (pair[0].clone(), value);
            proof {
                assert(kv_views(pairs@.push(entry)) =~= kv_views(pairs@) + seq![
                    (entry.0@, entry.1@),
                ]);
            }
            pairs.push(entry);
        }
        i = i + 1;
    }
    proof {
        assert(evs.subrange(0, entries@.len() as int) =~= evs);
    }
    pairs
}

/// Looks a key up in parsed pairs; on repeated keys the last entry wins.
#[verifier::loop_isolation(false)]
fn lookup(pairs: &Vec<(String, String)>, key: &str) -> (r: Option<String>)
    ensures
        match r {
            Some(v) => spec_lookup(kv_views(pairs@), key@) == Some(v@),
            None => spec_lookup(kv_views(pairs@), key@) is None,
        },
{
    let mut j: usize = pairs.len();
    proof {
        assert(kv_views(pairs@).subrange(0, pairs@.len() as int) =~= kv_views(pairs@));
    }
    while j > 0
        invariant
            j <= pairs.len(),
            spec_lookup(kv_views(pairs@), key@) == spec_lookup(
                kv_views(pairs@).subrange(0, j as int), key@),
        decreases j,
    {
        proof {
            assert(kv_views(pairs@).subrange(0, j as int).drop_last() =~= kv_views(
                pairs@).subrange(0, j - 1));
            assert(kv_views(pairs@).subrange(0, j as int).last() == (pairs@[j - 1].0@,
                pairs@[j - 1].1@));
        }
        if str_eq(pairs[j - 1].0.as_str(), key) {
            return Some(pairs[j - 1].1.clone());
        }
        j = j - 1;
    }
    None
}

/// The three profile fields of a data update.
#[derive(Clone, Copy, Debug, PartialEq, Eq, Structural)]
pub struct DataUpdate {
    pub age: i32,
    pub height: i32,
    pub weight: i32,
}

/// What went wrong with a data-update text.
#[derive(Clone, Copy, Debug, PartialEq, Eq, Structural)]
pub enum DataUpdateError {
    /// The age key is missing or its value is not an integer.
    BadAge,
    /// The height or weight key is missing or its value is not an integer.
    BadHeightWeight,
}

/// The update a `"key: value"` text denotes.  All three keys must be
/// present with integer values; the age is examined first.
pub open spec fn spec_parse_data_update(s: Seq<char>) -> Result<DataUpdate, DataUpdateError> {
    let pairs = spec_kv_pairs(spec_split(s, ", "@));
    match spec_lookup(pairs, "вік"@) {
        None => Err(DataUpdateError::BadAge),
        Some(age_s) => match spec_parse_i32(age_s) {
            None => Err(DataUpdateError::BadAge),
            Some(age) => match (spec_lookup(pairs, "зріст"@), spec_lookup(pairs, "вага"@)) {
                (Some(h_s), Some(w_s)) => match (spec_parse_i32(h_s), spec_parse_i32(w_s)) {
                    (Some(height), Some(weight)) => Ok(DataUpdate { age, height, weight }),
                    _ => Err(DataUpdateError::BadHeightWeight),
                },
                _ => Err(DataUpdateError::BadHeightWeight),
            },
        },
    }
}

/// Parses a data update of the form
/// `"вік: <int>, зріст: <int>, вага: <int>"`.
pub fn parse_data_update(s: &str) -> (r: Result<DataUpdate, DataUpdateError>)
    ensures
        r == spec_parse_data_update(s@),
{
    let pairs = parse_string(s);
    let age = match lookup(&pairs, "вік") {
        None => {
            return Err(DataUpdateError::BadAge);
        },
        Some(v) => match parse_i32(v.as_str()) {
            None => {
                return Err(DataUpdateError::BadAge);
            },
            Some(a) => a,
        },
    };
    let height_s = lookup(&pairs, "зріст");
    let weight_s = lookup(&pairs, "вага");
    match (height_s, weight_s) {
        (Some(h_s), Some(w_s)) => match (parse_i32(h_s.as_str()), parse_i32(w_s.as_str())) {
            (Some(height), Some(weight)) => Ok(DataUpdate { age, height, weight }),
            _ => Err(DataUpdateError::BadHeightWeight),
        },
        _ => Err(DataUpdateError::BadHeightWeight),
    }
}

/// The views of a vector of label/value pairs.
pub open spec fn size_views(v: Seq<(String, i32)>) -> Seq<(Seq<char>, i32)> {
    v.map_values(|p: (String, i32)| (p.0@, p.1))
}

/// The label/value pairs of a `"value - label, value - label"` text, in
/// order.  An entry counts only when it has exactly one `" - "` separator
/// and its first piece, trimmed, is an integer; both pieces are trimmed.
pub open spec fn spec_size_pairs(entries: Seq<Seq<char>>) -> Seq<(Seq<char>, i32)>
    decreases entries.len(),
{
    if entries.len() == 0 {
        seq![]
    } else {
        let pair = spec_split(entries.last(), " - "@);
        spec_size_pairs(entries.drop_last()) + if pair.len() == 2 {
            match spec_parse_i32(spec_trim(pair[0])) {
                Some(v) => seq![(spec_trim(pair[1]), v)],
                None => seq![],
            }
        } else {
            seq![]
        }
    }
}

/// The value under `label`; on repeated labels the last entry wins.
pub open spec fn spec_lookup_size(pairs: Seq<(Seq<char>, i32)>, label: Seq<char>) -> Option<i32>
    decreases pairs.len(),
{
    if pairs.len() == 0 {
        None
    } else if pairs.last().0 == label {
        Some(pairs.last().1)
    } else {
        spec_lookup_size(pairs.drop_last(), label)
    }
}

/// The first of the six required measurement labels that a text fails to
/// provide, checked in the fixed order chest, waist, hips, arm biceps,
/// leg biceps, calf.
#[derive(Clone, Copy, Debug, PartialEq, Eq, Structural)]
pub enum SizeField {
    Chest,
    Waist,
    Hips,
    HandBiceps,
    LegBiceps,
    Calf,
}

/// The measurement snapshot a size-update text denotes.  All six labels
/// must be present with integer values.
pub open spec fn spec_parse_sizes(s: Seq<char>) -> Result<Sizes, SizeField> {
    let pairs = spec_size_pairs(spec_split(s, ", "@));
    match spec_lookup_size(pairs, "груди"@) {
        None => Err(SizeField::Chest),
        Some(chest) => match spec_lookup_size(pairs, "талія"@) {
            None => Err(SizeField::Waist),
            Some(waist) => match spec_lookup_size(pairs, "бедра"@) {
                None => Err(SizeField::Hips),
                Some(hips) => match spec_lookup_size(pairs, "біцепс руки"@) {
                    None => Err(SizeField::HandBiceps),
                    Some(hand_biceps) => match spec_lookup_size(pairs, "біцепс ноги"@) {
                        None => Err(SizeField::LegBiceps),
                        Some(leg_biceps) => match spec_lookup_size(pairs, "ікра"@) {
                            None => Err(SizeField::Calf),
                            Some(calf) => Ok(
                                Sizes { chest, waist, hips, hand_biceps, leg_biceps, calf },
                            ),
                        },
                    },
                },
            },
        },
    }
}

/// Collects the label/value pairs of a size-update text.
#[verifier::loop_isolation(false)]
fn collect_size_pairs(data: &str) -> (r: Vec<(String, i32)>)
    ensures
        size_views(r@) == spec_size_pairs(spec_split(data@, ", "@)),
{
    proof {
        reveal_strlit(", ");
        reveal_strlit(" - ");
    }
    let entries = split_on(data, ", ");
    let mut pairs: Vec<(String, i32)> = Vec::new();
    let ghost evs = views_of(entries@);
    let mut i: usize = 0;
    while i < entries.len()
        invariant
            i <= entries.len(),
            size_views(pairs@) =~= spec_size_pairs(evs.subrange(0, i as int)),
        decreases entries.len() - i,
    {
        let pair = split_on(entries[i].as_str(), " - ");
        proof {
            assert(evs.subrange(0, i + 1).drop_last() =~= evs.subrange(0, i as int));
            assert(evs.subrange(0, i + 1).last() == entries@[i as int]@);
        }
        if pair.len() == 2 {
            proof {
                assert(views_of(pair@)[0] == pair@[0]@);
                assert(views_of(pair@)[1] == pair@[1]@);
            }
            let value_s = trim_str(pair[0].as_str());
            if let Some(v) = parse_i32(value_s.as_str()) {
                let entry = (trim_str(pair[1].as_str()), v);
                proof {
                    assert(size_views(pairs@.push(entry)) =~= size_views(pairs@) + seq![
                        (entry.0@, entry.1),
                    ]);
                }
                pairs.push(entry);
            }
        }
        i = i + 1;
    }
    proof {
        assert(evs.subrange(0, entries@.len() as int) =~= evs);
    }
    pairs
}

/// Looks a label up in collected size pairs; the last entry wins.
#[verifier::loop_isolation(false)]
fn lookup_size(pairs: &Vec<(String, i32)>, label: &str) -> (r: Option<i32>)
    ensures
        r == spec_lookup_size(size_views(pairs@), label@),
{
    let mut j: usize = pairs.len();
    proof {
        assert(size_views(pairs@).subrange(0, pairs@.len() as int) =~= size_views(pairs@));
    }
    while j > 0
        invariant
            j <= pairs.len(),
            spec_lookup_size(size_views(pairs@), label@) == spec_lookup_size(
                size_views(pairs@).subrange(0, j as int), label@),
        decreases j,
    {
        proof {
            assert(size_views(pairs@).subrange(0, j as int).drop_last() =~= size_views(
                pairs@).subrange(0, j - 1));
            assert(size_views(pairs@).subrange(0, j as int).last() == (pairs@[j - 1].0@,
                pairs@[j - 1].1));
        }
        if str_eq(pairs[j - 1].0.as_str(), label) {
            return Some(pairs[j - 1].1);
        }
        j = j - 1;
    }
    None
}

/// Parses a size update of the form `"<int> - <label>, …"` into a
/// measurement snapshot.
pub fn parse_sizes(s: &str) -> (r: Result<Sizes, SizeField>)
    ensures
        r == spec_parse_sizes(s@),
{
    let pairs = collect_size_pairs(s);
    let chest = match lookup_size(&pairs, "груди") {
        None => {
            return Err(SizeField::Chest);
        },
        Some(v) => v,
    };
    let waist = match lookup_size(&pairs, "талія") {
        None => {
            return Err(SizeField::Waist);
        },
        Some(v) => v,
    };
    let hips = match lookup_size(&pairs, "бедра") {
        None => {
            return Err(SizeField::Hips);
        },
        Some(v) => v,
    };
    let hand_biceps = match lookup_size(&pairs, "біцепс руки") {
        None => {
            return Err(SizeField::HandBiceps);
        },
        Some(v) => v,
    };
    let leg_biceps = match lookup_size(&pairs, "біцепс ноги") {
        None => {
            return Err(SizeField::LegBiceps);
        },
        Some(v) => v,
    };
    let calf = match lookup_size(&pairs, "ікра") {
        None => {
            return Err(SizeField::Calf);
        },
        Some(v) => v,
    };
    Ok(Sizes { chest, waist, hips, hand_biceps, leg_biceps, calf })
}

/// Parses a size update into the six values in their fixed order:
/// chest, waist, hips, arm biceps, leg biceps, calf.
pub fn parse_string_size(data: &str) -> (r: Result<Vec<i32>, SizeField>)
    ensures
        match spec_parse_sizes(data@) {
            Ok(sz) => r matches Ok(v) && v@ == seq![
                sz.chest, sz.waist, sz.hips, sz.hand_biceps, sz.leg_biceps, sz.calf,
            ],
            Err(f) => r == Result::<Vec<i32>, SizeField>::Err(f),
        },
{
    match parse_sizes(data) {
        Ok(sz) => {
            let mut v: Vec<i32> = Vec::new();
            v.push(sz.chest);
            v.push(sz.waist);
            v.push(sz.hips);
            v.push(sz.hand_biceps);
            v.push(sz.leg_biceps);
            v.push(sz.calf);
            proof {
                assert(v@ =~= seq![
                    sz.chest, sz.waist, sz.hips, sz.hand_biceps, sz.leg_biceps, sz.calf,
                ]);
            }
            Ok(v)
        },
        Err(f) => Err(f),
    }
}

} // verus!
