use crate::modules::traits::{find_value_index, value_index};
use crate::state::{TraitType, TraitValue};
use vstd::prelude::*;

verus! {

/// The highest of `scores`, 0 where there is none.
pub open spec fn highest_score(scores: Seq<u16>) -> int
    decreases scores.len(),
{
    if scores.len() == 0 {
        0
    } else if scores.last() > highest_score(scores.drop_last()) {
        scores.last() as int
    } else {
        highest_score(scores.drop_last())
    }
}

/// The sum of `scores`.
pub open spec fn total_score(scores: Seq<u16>) -> int
    decreases scores.len(),
{
    if scores.len() == 0 {
        0
    } else {
        total_score(scores.drop_last()) + scores.last()
    }
}

/// The fraction `numerator / denominator` rounded to the nearest integer, halves upwards.
pub open spec fn rounded(numerator: int, denominator: int) -> int {
    (2 * numerator + denominator) / (2 * denominator)
}

/// The boost that parents with `scores` give a fused NFT: six tenths of the
/// highest score plus four tenths of the average, rounded, and at most 200.
pub open spec fn fusion_boost(scores: Seq<u16>) -> int {
    if scores.len() == 0 {
        0
    } else {
        let count = scores.len() as int;
        // highest * 6/10 + (total / count) * 4/10, over the common denominator 5 * count
        let blend = rounded(3 * highest_score(scores) * count + 2 * total_score(scores), 5 * count);
        if blend > 200 {
            200
        } else {
            blend
        }
    }
}

/// Calculates the fusion boost from the rarity scores of the parent NFTs.
pub fn calculate_fusion_boost(parent_scores: &[u16]) -> (boost: u16)
    ensures
        boost == fusion_boost(parent_scores@),
        boost <= 200,
{
    let count = parent_scores.len();
    if count == 0 {
        return 0;
    }
    let mut highest: u16 = 0;
    let mut total: u128 = 0;
    let mut i: usize = 0;
    while i < count
        invariant
            count == parent_scores@.len(),
            i <= count,
            highest == highest_score(parent_scores@.take(i as int)),
            total == total_score(parent_scores@.take(i as int)),
            total <= 65535 * i,
        decreases count - i,
    {
        let score = parent_scores[i];
        proof {
            let next = parent_scores@.take(i + 1);
            assert(next.drop_last() =~= parent_scores@.take(i as int));
            assert(next.last() == score);
        }
        if score > highest {
            highest = score;
        }
        total = total + score as u128;
        i += 1;
    }
    assert(parent_scores@.take(count as int) =~= parent_scores@);
    let n = count as u128;
    let weighted = 3 * highest as u128;
    assert(weighted * n <= 196605 * 0x1_0000_0000_0000_0000) by (nonlinear_arith)
        requires
            weighted <= 196605,
            n <= 0x1_0000_0000_0000_0000,
    ;
    let blended = weighted * n + 2 * total;
    assert(blended == 3 * highest_score(parent_scores@) * (count as int) + 2 * total_score(
        parent_scores@,
    )) by (nonlinear_arith)
        requires
            blended == weighted * n + 2 * total,
            weighted == 3 * highest_score(parent_scores@),
            n == count as int,
            total == total_score(parent_scores@),
    ;
    let blend = (2 * blended + 5 * n) / (10 * n);
    if blend > 200 {
        200
    } else {
        blend as u16
    }
}

/// The score that every NFT starts from.
pub const BASE_SCORE: u16 = 10;

/// The highest score that traits alone can give.
pub const MAX_TRAIT_SCORE: u16 = 1000;

/// The highest score that a fused NFT can have.
pub const MAX_FUSED_SCORE: u16 = 2000;

/// The place of the last of `types` that is named `name`.
pub open spec fn latest_type_index(types: Seq<TraitType>, name: Seq<char>) -> Option<int>
    decreases types.len(),
{
    if types.len() == 0 {
        None
    } else if types.last().name@ == name {
        Some(types.len() - 1)
    } else {
        latest_type_index(types.drop_last(), name)
    }
}

/// The highest weight among `values`, 0 where there is none.
pub open spec fn highest_weight(values: Seq<TraitValue>) -> int
    decreases values.len(),
{
    if values.len() == 0 {
        0
    } else if values.last().rarity_weight > highest_weight(values.drop_last()) {
        values.last().rarity_weight as int
    } else {
        highest_weight(values.drop_last())
    }
}

/// What a value of weight `weight` adds to the score in a type whose highest
/// weight is `highest`: five times as much as the highest weight is of its
/// own, rounded down, and 50 for a weight of 0.
pub open spec fn weight_bonus(highest: int, weight: int) -> int {
    if weight > 0 {
        5 * highest / weight
    } else {
        50
    }
}

/// Whether a value is scarce: capped below 100 and used at least once.
pub open spec fn is_scarce(value: TraitValue) -> bool {
    value.available_supply matches Some(cap) && cap < 100 && value.used_supply > 0
}

/// What a scarce value adds to the score on top: a tenth of what its cap
/// lacks to 100, rounded down.
pub open spec fn scarcity_bonus(value: TraitValue) -> int {
    match value.available_supply {
        Some(cap) => if is_scarce(value) {
            (100 - cap) / 10
        } else {
            0
        },
        None => 0,
    }
}

/// What the pair of names adds to the score: nothing where the last type of
/// that name, or its first value of that name, does not exist.
pub open spec fn trait_score(types: Seq<TraitType>, trait_name: Seq<char>, value_name: Seq<char>) -> int {
    match latest_type_index(types, trait_name) {
        None => 0,
        Some(place) => {
            let values = types[place].trait_values@;
            match value_index(values, value_name) {
                None => 0,
                Some(found) => weight_bonus(
                    highest_weight(values),
                    values[found].rarity_weight as int,
                ) + scarcity_bonus(values[found]),
            }
        },
    }
}

/// The base score plus what each of the selected pairs adds.
pub open spec fn uncapped_score(types: Seq<TraitType>, selected: Seq<(String, String)>) -> int
    decreases selected.len(),
{
    if selected.len() == 0 {
        BASE_SCORE as int
    } else {
        uncapped_score(types, selected.drop_last()) + trait_score(
            types,
            selected.last().0@,
            selected.last().1@,
        )
    }
}

/// The rarity score of an NFT with the selected values: at most 1000.
pub open spec fn rarity_score(types: Seq<TraitType>, selected: Seq<(String, String)>) -> int {
    if uncapped_score(types, selected) > MAX_TRAIT_SCORE {
        MAX_TRAIT_SCORE as int
    } else {
        uncapped_score(types, selected)
    }
}

/// No pair of names takes anything off the score.
pub proof fn lemma_trait_score_not_negative(
    types: Seq<TraitType>,
    trait_name: Seq<char>,
    value_name: Seq<char>,
)
    ensures
        0 <= trait_score(types, trait_name, value_name),
{
    match latest_type_index(types, trait_name) {
        None => {},
        Some(place) => {
            let values = types[place].trait_values@;
            match value_index(values, value_name) {
                None => {},
                Some(found) => {
                    lemma_highest_weight(values, found);
                    let highest = highest_weight(values);
                    let weight = values[found].rarity_weight as int;
                    if weight > 0 {
                        assert(0 <= 5 * highest / weight) by (nonlinear_arith)
                            requires
                                0 <= highest,
                                0 < weight,
                        ;
                    }
                },
            }
        },
    }
}

/// The highest weight is a weight of 16 bits and no lower than any other.
pub proof fn lemma_highest_weight(values: Seq<TraitValue>, place: int)
    ensures
        0 <= highest_weight(values) <= 65535,
        0 <= place < values.len() ==> values[place].rarity_weight <= highest_weight(values),
    decreases values.len(),
{
    if values.len() > 0 {
        lemma_highest_weight(values.drop_last(), place);
    }
}

/// The rarity score never falls as values are selected on top, scarce ones or
/// others: the score of a selection is at most the score of the selection
/// with `more` added.
pub proof fn lemma_score_grows_with_selection(
    types: Seq<TraitType>,
    selected: Seq<(String, String)>,
    more: Seq<(String, String)>,
)
    ensures
        uncapped_score(types, selected) <= uncapped_score(types, selected + more),
        rarity_score(types, selected) <= rarity_score(types, selected + more),
        BASE_SCORE <= rarity_score(types, selected) <= MAX_TRAIT_SCORE,
    decreases more.len(),
{
    lemma_score_at_least_base(types, selected);
    if more.len() == 0 {
        assert(selected + more =~= selected);
    } else {
        lemma_score_grows_with_selection(types, selected, more.drop_last());
        assert((selected + more).drop_last() =~= selected + more.drop_last());
        lemma_trait_score_not_negative(types, more.last().0@, more.last().1@);
    }
}

/// A selected value that is scarce adds its cap's distance to 100, a tenth of
/// it, on top of what its weight adds; one that is not scarce adds its weight's
/// part alone.
pub proof fn lemma_scarce_value_adds(types: Seq<TraitType>, trait_name: Seq<char>, value_name: Seq<char>)
    requires
        latest_type_index(types, trait_name) is Some,
        value_index(
            types[latest_type_index(types, trait_name).unwrap()].trait_values@,
            value_name,
        ) is Some,
    ensures
        ({
            let values = types[latest_type_index(types, trait_name).unwrap()].trait_values@;
            let value = values[value_index(values, value_name).unwrap()];
            let by_weight = weight_bonus(highest_weight(values), value.rarity_weight as int);
            &&& trait_score(types, trait_name, value_name) >= by_weight
            &&& is_scarce(value) ==> trait_score(types, trait_name, value_name) == by_weight + (100
                - value.available_supply.unwrap()) / 10
            &&& !is_scarce(value) ==> trait_score(types, trait_name, value_name) == by_weight
        }),
{
}

/// Whether two lists of trait types have the same types and values by name
/// and by weight, whatever the supplies of the values.
pub open spec fn same_weights(types: Seq<TraitType>, others: Seq<TraitType>) -> bool {
    &&& types.len() == others.len()
    &&& forall|i: int|
        0 <= i < types.len() ==> {
            &&& (#[trigger] types[i]).name@ == others[i].name@
            &&& types[i].trait_values@.len() == others[i].trait_values@.len()
            &&& forall|j: int|
                0 <= j < types[i].trait_values@.len() ==> {
                    &&& (#[trigger] types[i].trait_values@[j]).name@
                        == others[i].trait_values@[j].name@
                    &&& types[i].trait_values@[j].rarity_weight
                        == others[i].trait_values@[j].rarity_weight
                }
        }
}

/// Whether every value that is scarce in `types` is scarce in `others`, and
/// capped no higher there.
pub open spec fn no_less_scarce(types: Seq<TraitType>, others: Seq<TraitType>) -> bool {
    forall|i: int, j: int|
        0 <= i < types.len() && 0 <= j < types[i].trait_values@.len() ==> scarcity_bonus(
            #[trigger] types[i].trait_values@[j],
        ) <= scarcity_bonus(others[i].trait_values@[j])
}

/// The rarity score never falls as more of the values become scarce: where
/// two lists of trait types differ in the supplies of their values alone, and
/// every value adds as much for scarcity in the second as in the first, the
/// second gives every selection as high a score.
pub proof fn lemma_score_grows_with_scarcity(
    types: Seq<TraitType>,
    others: Seq<TraitType>,
    selected: Seq<(String, String)>,
)
    requires
        same_weights(types, others),
        no_less_scarce(types, others),
    ensures
        uncapped_score(types, selected) <= uncapped_score(others, selected),
        rarity_score(types, selected) <= rarity_score(others, selected),
    decreases selected.len(),
{
    if selected.len() > 0 {
        lemma_score_grows_with_scarcity(types, others, selected.drop_last());
        let trait_name = selected.last().0@;
        let value_name = selected.last().1@;
        lemma_same_names_same_type(types, others, trait_name);
        match latest_type_index(types, trait_name) {
            None => {},
            Some(place) => {
                let values = types[place].trait_values@;
                let other_values = others[place].trait_values@;
                assert(types[place].name@ == others[place].name@);
                lemma_same_names_same_value(values, other_values, value_name);
                match value_index(values, value_name) {
                    None => {},
                    Some(found) => {
                        assert(values[found].rarity_weight == other_values[found].rarity_weight);
                        assert(scarcity_bonus(types[place].trait_values@[found])
                            <= scarcity_bonus(others[place].trait_values@[found]));
                    },
                }
            },
        }
    }
}

/// Lists of types with the same names have the last type of a name at the
/// same place.
proof fn lemma_same_names_same_type(types: Seq<TraitType>, others: Seq<TraitType>, name: Seq<char>)
    requires
        types.len() == others.len(),
        forall|i: int| 0 <= i < types.len() ==> (#[trigger] types[i]).name@ == others[i].name@,
    ensures
        latest_type_index(types, name) == latest_type_index(others, name),
        latest_type_index(types, name) matches Some(place) ==> 0 <= place < types.len(),
    decreases types.len(),
{
    if types.len() > 0 {
        assert(types.last().name@ == others.last().name@) by {
            assert(types[types.len() - 1].name@ == others[types.len() - 1].name@);
        }
        assert forall|i: int| 0 <= i < types.drop_last().len() implies (
        #[trigger] types.drop_last()[i]).name@ == others.drop_last()[i].name@ by {
            assert(types[i].name@ == others[i].name@);
        }
        lemma_same_names_same_type(types.drop_last(), others.drop_last(), name);
    }
}

/// Lists of values with the same names and weights have the first value of a
/// name at the same place, and the same highest weight.
proof fn lemma_same_names_same_value(values: Seq<TraitValue>, others: Seq<TraitValue>, name: Seq<char>)
    requires
        values.len() == others.len(),
        forall|j: int|
            0 <= j < values.len() ==> (#[trigger] values[j]).name@ == others[j].name@
                && values[j].rarity_weight == others[j].rarity_weight,
    ensures
        value_index(values, name) == value_index(others, name),
        value_index(values, name) matches Some(found) ==> 0 <= found < values.len(),
        highest_weight(values) == highest_weight(others),
    decreases values.len(),
{
    if values.len() > 0 {
        assert(values.last().name@ == others.last().name@ && values.last().rarity_weight
            == others.last().rarity_weight) by {
            assert(values[values.len() - 1].name@ == others[values.len() - 1].name@);
        }
        assert forall|j: int| 0 <= j < values.drop_last().len() implies (
        #[trigger] values.drop_last()[j]).name@ == others.drop_last()[j].name@
            && values.drop_last()[j].rarity_weight == others.drop_last()[j].rarity_weight by {
            assert(values[j].name@ == others[j].name@);
        }
        lemma_same_names_same_value(values.drop_last(), others.drop_last(), name);
    }
}

/// No selection scores below the base score.
proof fn lemma_score_at_least_base(types: Seq<TraitType>, selected: Seq<(String, String)>)
    ensures
        BASE_SCORE <= uncapped_score(types, selected),
    decreases selected.len(),
{
    if selected.len() > 0 {
        lemma_score_at_least_base(types, selected.drop_last());
        lemma_trait_score_not_negative(types, selected.last().0@, selected.last().1@);
    }
}

/// The place of the last of the types that is named `name`.
pub fn find_latest_type_index(types: &[TraitType], name: &String) -> (found: Option<usize>)
    ensures
        match found {
            Some(place) => latest_type_index(types@, name@) == Some(place as int) && place
                < types@.len(),
            None => latest_type_index(types@, name@) is None,
        },
{
    let mut found: Option<usize> = None;
    let mut i: usize = 0;
    while i < types.len()
        invariant
            i <= types@.len(),
            match found {
                Some(place) => latest_type_index(types@.take(i as int), name@) == Some(
                    place as int,
                ) && place < i,
                None => latest_type_index(types@.take(i as int), name@) is None,
            },
        decreases types@.len() - i,
    {
        proof {
            assert(types@.take(i + 1).drop_last() =~= types@.take(i as int));
        }
        if types[i].name == *name {
            found = Some(i);
        }
        i += 1;
    }
    assert(types@.take(i as int) =~= types@);
    found
}

/// The highest weight among the values.
pub fn highest_weight_of(values: &Vec<TraitValue>) -> (highest: u16)
    ensures
        highest == highest_weight(values@),
{
    let mut highest: u16 = 0;
    let mut i: usize = 0;
    while i < values.len()
        invariant
            i <= values@.len(),
            highest == highest_weight(values@.take(i as int)),
        decreases values@.len() - i,
    {
        proof {
            assert(values@.take(i + 1).drop_last() =~= values@.take(i as int));
        }
        if values[i].rarity_weight > highest {
            highest = values[i].rarity_weight;
        }
        i += 1;
    }
    assert(values@.take(i as int) =~= values@);
    highest
}

/// What the pair of names adds to the score.
pub fn score_of_trait(trait_types: &[TraitType], trait_name: &String, value_name: &String) -> (added:
    u32)
    ensures
        added == trait_score(trait_types@, trait_name@, value_name@),
{
    let trait_type = match find_latest_type_index(trait_types, trait_name) {
        Some(place) => &trait_types[place],
        None => { return 0; },
    };
    let value = match find_value_index(&trait_type.trait_values, value_name) {
        Some(found) => &trait_type.trait_values[found],
        None => { return 0; },
    };
    let max_weight = highest_weight_of(&trait_type.trait_values);
    let rarity_bonus: u32 = if value.rarity_weight > 0 {
        assert(5 * max_weight / (value.rarity_weight as int) <= 5 * max_weight) by (nonlinear_arith)
            requires
                value.rarity_weight > 0,
                max_weight >= 0,
        ;
        5 * (max_weight as u32) / (value.rarity_weight as u32)
    } else {
        50
    };
    let scarcity: u32 = match value.available_supply {
        Some(max_supply) => if max_supply < 100 && value.used_supply > 0 {
            (100 - max_supply) / 10
        } else {
            0
        },
        None => 0,
    };
    rarity_bonus + scarcity
}

/// Calculates the rarity score of an NFT from its trait values. The score
/// starts at 10. Each pair that names a type and a value of it adds five times
/// as much as the highest weight in the type is of the value's weight, or 50
/// for a weight of 0; a value capped below 100 and used at least once adds a
/// tenth of what its cap lacks to 100. The score is at most 1000.
pub fn calculate_rarity_score(trait_types: &[TraitType], trait_values: &[(String, String)]) -> (score:
    u16)
    ensures
        score == rarity_score(trait_types@, trait_values@),
        BASE_SCORE <= score <= MAX_TRAIT_SCORE,
{
    let mut base_score: u32 = BASE_SCORE as u32;
    let mut i: usize = 0;
    while i < trait_values.len()
        invariant
            i <= trait_values@.len(),
            base_score == rarity_score(trait_types@, trait_values@.take(i as int)),
            BASE_SCORE <= base_score <= MAX_TRAIT_SCORE,
        decreases trait_values@.len() - i,
    {
        proof {
            assert(trait_values@.take(i + 1).drop_last() =~= trait_values@.take(i as int));
            lemma_score_at_least_base(trait_types@, trait_values@.take(i as int));
            lemma_trait_score_not_negative(
                trait_types@,
                trait_values@[i as int].0@,
                trait_values@[i as int].1@,
            );
        }
        let added = score_of_trait(trait_types, &trait_values[i].0, &trait_values[i].1);
        base_score = if added >= MAX_TRAIT_SCORE as u32 - base_score {
            MAX_TRAIT_SCORE as u32
        } else {
            base_score + added
        };
        i += 1;
    }
    assert(trait_values@.take(i as int) =~= trait_values@);
    base_score as u16
}

/// By how much the trait score of an NFT of the given fusion level is
/// multiplied, as a fraction: 1, 1.1, 1.2 and 1.35 for the levels 0 to 3, and
/// 1.5 above.
pub open spec fn level_multiplier(fusion_level: u8) -> (int, int) {
    if fusion_level == 0 {
        (1, 1)
    } else if fusion_level == 1 {
        (11, 10)
    } else if fusion_level == 2 {
        (6, 5)
    } else if fusion_level == 3 {
        (27, 20)
    } else {
        (3, 2)
    }
}

/// The rarity score of a fused NFT: its trait score times the multiplier of
/// its level, rounded, plus the boost of its parents; at most 2000.
pub open spec fn fused_rarity(
    types: Seq<TraitType>,
    selected: Seq<(String, String)>,
    parent_scores: Seq<u16>,
    fusion_level: u8,
) -> int {
    let (numerator, denominator) = level_multiplier(fusion_level);
    let score = rounded(rarity_score(types, selected) * numerator, denominator) + fusion_boost(
        parent_scores,
    );
    if score > MAX_FUSED_SCORE {
        MAX_FUSED_SCORE as int
    } else {
        score
    }
}

/// Calculates the rarity score of a fused NFT: the score of its traits times
/// the multiplier of its fusion level, rounded to the nearest integer, plus
/// the boost that the scores of its parents give. The score is at most 2000.
pub fn calculate_fused_nft_rarity(
    trait_types: &[TraitType],
    trait_values: &[(String, String)],
    parent_scores: &[u16],
    fusion_level: u8,
) -> (score: u16)
    ensures
        score == fused_rarity(trait_types@, trait_values@, parent_scores@, fusion_level),
        score <= MAX_FUSED_SCORE,
{
    let base_score = calculate_rarity_score(trait_types, trait_values) as u32;
    let fusion_boost = calculate_fusion_boost(parent_scores) as u32;
    let (numerator, denominator): (u32, u32) = match fusion_level {
        0 => (1, 1),
        1 => (11, 10),
        2 => (6, 5),
        3 => (27, 20),
        _ => (3, 2),
    };
    assert(base_score * numerator <= 27000) by (nonlinear_arith)
        requires
            base_score <= 1000,
            numerator <= 27,
    ;
    let multiplied = (2 * (base_score * numerator) + denominator) / (2 * denominator);
    let final_score = multiplied + fusion_boost;
    if final_score > MAX_FUSED_SCORE as u32 {
        MAX_FUSED_SCORE
    } else {
        final_score as u16
    }
}

} // verus!
