use crate::errors::MarketplaceError;
use crate::state::{Address, CollectionTraitConfig, MetadataFormat, TraitType, TraitValue};
use vstd::arithmetic::div_mod::{lemma_fundamental_div_mod, lemma_mod_multiples_vanish};
use vstd::bytes::{spec_u64_to_le_bytes, u64_to_le_bytes};
use vstd::prelude::*;
use vstd::string::{StrSliceExecFns, StringExecFns};

verus! {

/// The place of the first of `values` that is named `name`.
pub open spec fn value_index(values: Seq<TraitValue>, name: Seq<char>) -> Option<int>
    decreases values.len(),
{
    if values.len() == 0 {
        None
    } else {
        match value_index(values.drop_last(), name) {
            Some(earlier) => Some(earlier),
            None => if values.last().name@ == name {
                Some(values.len() - 1)
            } else {
                None
            },
        }
    }
}

/// The place of the first of `types` that is named `name`.
pub open spec fn type_index(types: Seq<TraitType>, name: Seq<char>) -> Option<int>
    decreases types.len(),
{
    if types.len() == 0 {
        None
    } else {
        match type_index(types.drop_last(), name) {
            Some(earlier) => Some(earlier),
            None => if types.last().name@ == name {
                Some(types.len() - 1)
            } else {
                None
            },
        }
    }
}

/// What `value_index` finds is in range, carries the name, and is the first to
/// do so; where it finds nothing, no value carries the name.
pub proof fn lemma_value_index(values: Seq<TraitValue>, name: Seq<char>)
    ensures
        match value_index(values, name) {
            Some(found) => {
                &&& 0 <= found < values.len()
                &&& values[found].name@ == name
                &&& forall|i: int| 0 <= i < found ==> (#[trigger] values[i]).name@ != name
            },
            None => forall|i: int| 0 <= i < values.len() ==> (#[trigger] values[i]).name@ != name,
        },
    decreases values.len(),
{
    if values.len() > 0 {
        lemma_value_index(values.drop_last(), name);
        assert(forall|i: int|
            0 <= i < values.len() - 1 ==> values.drop_last()[i] == #[trigger] values[i]);
    }
}

/// What `type_index` finds is in range, carries the name, and is the first to
/// do so; where it finds nothing, no type carries the name.
pub proof fn lemma_type_index(types: Seq<TraitType>, name: Seq<char>)
    ensures
        match type_index(types, name) {
            Some(found) => {
                &&& 0 <= found < types.len()
                &&& types[found].name@ == name
                &&& forall|i: int| 0 <= i < found ==> (#[trigger] types[i]).name@ != name
            },
            None => forall|i: int| 0 <= i < types.len() ==> (#[trigger] types[i]).name@ != name,
        },
    decreases types.len(),
{
    if types.len() > 0 {
        lemma_type_index(types.drop_last(), name);
        assert(forall|i: int|
            0 <= i < types.len() - 1 ==> types.drop_last()[i] == #[trigger] types[i]);
    }
}

/// The place of the first value of the type that is named `name`.
pub fn find_value_index(values: &Vec<TraitValue>, name: &String) -> (found: Option<usize>)
    ensures
        match found {
            Some(place) => value_index(values@, name@) == Some(place as int) && place
                < values@.len(),
            None => value_index(values@, name@) is None,
        },
{
    let mut i: usize = 0;
    while i < values.len()
        invariant
            i <= values@.len(),
            value_index(values@.take(i as int), name@) is None,
        decreases values@.len() - i,
    {
        proof {
            assert(values@.take(i + 1).drop_last() =~= values@.take(i as int));
        }
        if values[i].name == *name {
            proof {
                lemma_index_stays(values@, name@, i + 1);
            }
            return Some(i);
        }
        i += 1;
    }
    assert(values@.take(i as int) =~= values@);
    None
}

/// What is found among the first `count` values is what is found among all.
proof fn lemma_index_stays(values: Seq<TraitValue>, name: Seq<char>, count: int)
    requires
        0 <= count <= values.len(),
        value_index(values.take(count), name) is Some,
    ensures
        value_index(values, name) == value_index(values.take(count), name),
    decreases values.len() - count,
{
    if count < values.len() {
        assert(values.take(count + 1).drop_last() =~= values.take(count));
        lemma_index_stays(values, name, count + 1);
    } else {
        assert(values.take(count) =~= values);
    }
}

/// The place of the first of the types that is named `name`.
pub fn find_type_index(types: &[TraitType], name: &String) -> (found: Option<usize>)
    ensures
        match found {
            Some(place) => type_index(types@, name@) == Some(place as int) && place < types@.len(),
            None => type_index(types@, name@) is None,
        },
{
    let mut i: usize = 0;
    while i < types.len()
        invariant
            i <= types@.len(),
            type_index(types@.take(i as int), name@) is None,
        decreases types@.len() - i,
    {
        proof {
            assert(types@.take(i + 1).drop_last() =~= types@.take(i as int));
        }
        if types[i].name == *name {
            proof {
                lemma_type_index_stays(types@, name@, i + 1);
            }
            return Some(i);
        }
        i += 1;
    }
    assert(types@.take(i as int) =~= types@);
    None
}

/// What is found among the first `count` types is what is found among all.
proof fn lemma_type_index_stays(types: Seq<TraitType>, name: Seq<char>, count: int)
    requires
        0 <= count <= types.len(),
        type_index(types.take(count), name) is Some,
    ensures
        type_index(types, name) == type_index(types.take(count), name),
    decreases types.len() - count,
{
    if count < types.len() {
        assert(types.take(count + 1).drop_last() =~= types.take(count));
        lemma_type_index_stays(types, name, count + 1);
    } else {
        assert(types.take(count) =~= types);
    }
}

/// Makes a trait type of a collection. A type without values is an invalid
/// trait configuration.
pub fn create_trait_type(
    collection: &Address,
    name: String,
    is_required: bool,
    trait_values: Vec<TraitValue>,
) -> (made: Result<TraitType, MarketplaceError>)
    ensures
        made == if trait_values@.len() == 0 {
            Err::<TraitType, MarketplaceError>(MarketplaceError::InvalidTraitConfig)
        } else {
            Ok::<TraitType, MarketplaceError>(
                TraitType { collection: *collection, name, is_required, trait_values },
            )
        },
{
    if trait_values.len() == 0 {
        return Err(MarketplaceError::InvalidTraitConfig);
    }
    Ok(TraitType { collection: *collection, name, is_required, trait_values })
}

/// Finds the first value of the type that is named `value_name`.
pub fn find_trait_value<'a>(trait_type: &'a TraitType, value_name: &str) -> (found: Result<
    &'a TraitValue,
    MarketplaceError,
>)
    ensures
        match value_index(trait_type.trait_values@, value_name@) {
            Some(place) => found == Ok::<&TraitValue, MarketplaceError>(
                &trait_type.trait_values@[place],
            ),
            None => found == Err::<&TraitValue, MarketplaceError>(
                MarketplaceError::TraitValueNotFound,
            ),
        },
{
    let wanted = String::from_str(value_name);
    match find_value_index(&trait_type.trait_values, &wanted) {
        Some(place) => Ok(&trait_type.trait_values[place]),
        None => Err(MarketplaceError::TraitValueNotFound),
    }
}

/// What SHA-256 makes of `data`: 32 bytes.
pub uninterp spec fn sha256_hash(data: Seq<u8>) -> Seq<u8>;

/// Hashes `data` with `solana_program::hash::hash`, which is SHA-256, and
/// hands back the 32 bytes of the hash. The hash of given bytes is always the
/// same; nothing else is claimed of it.
#[verifier::external_body]
fn hash_bytes(data: &Vec<u8>) -> (digest: [u8; 32])
    ensures
        digest@ == sha256_hash(data@),
{
    solana_program::hash::hash(data.as_slice()).to_bytes()
}

/// What a seed is the hash of: the slot in eight bytes, lowest first, then
/// the two keys, then the caller's own bytes.
pub open spec fn seed_entropy(
    recent_slot: u64,
    collection_key: Address,
    user_key: Address,
    additional_entropy: Seq<u8>,
) -> Seq<u8> {
    spec_u64_to_le_bytes(recent_slot) + collection_key.bytes@ + user_key.bytes@
        + additional_entropy
}

/// Adds `bytes` to the end of `buffer`.
fn extend_with(buffer: &mut Vec<u8>, bytes: &[u8])
    ensures
        final(buffer)@ == old(buffer)@ + bytes@,
{
    let mut i: usize = 0;
    while i < bytes.len()
        invariant
            i <= bytes@.len(),
            buffer@ == old(buffer)@ + bytes@.take(i as int),
        decreases bytes@.len() - i,
    {
        buffer.push(bytes[i]);
        assert(bytes@.take(i + 1) =~= bytes@.take(i as int).push(bytes@[i as int]));
        i += 1;
    }
    assert(bytes@.take(i as int) =~= bytes@);
}

/// Makes the seed of a trait generation out of a recent slot, the collection,
/// the user and any further bytes: the SHA-256 hash of them in that order.
pub fn generate_random_seed(
    recent_slot: u64,
    collection_key: &Address,
    user_key: &Address,
    additional_entropy: &[u8],
) -> (seed: [u8; 32])
    ensures
        seed@ == sha256_hash(
            seed_entropy(recent_slot, *collection_key, *user_key, additional_entropy@),
        ),
{
    let mut entropy = u64_to_le_bytes(recent_slot);
    extend_with(&mut entropy, collection_key.bytes.as_slice());
    extend_with(&mut entropy, user_key.bytes.as_slice());
    extend_with(&mut entropy, additional_entropy);
    hash_bytes(&entropy)
}

/// The weights of those of `values` that have supply left, added up.
pub open spec fn remaining_weight(values: Seq<TraitValue>) -> int
    decreases values.len(),
{
    if values.len() == 0 {
        0
    } else {
        remaining_weight(values.drop_last()) + if values.last().has_supply() {
            values.last().rarity_weight as int
        } else {
            0
        }
    }
}

/// The number that the four bytes of `seed` from `offset` on make, lowest
/// byte first. The seed is read round and round: the first byte is the one at
/// what `offset` leaves when divided by 32, and after the last byte of the seed
/// comes its first.
pub open spec fn seed_draw(seed: Seq<u8>, offset: int) -> int {
    let start = offset % 32;
    seed[start] + 0x100 * seed[(start + 1) % 32] + 0x1_0000 * seed[(start + 2) % 32] + 0x100_0000
        * seed[(start + 3) % 32]
}

/// The place of the value that `draw` falls on: the first with supply left
/// at which the weights of the values with supply left, added up in order,
/// exceed the draw.
pub open spec fn drawn_index(values: Seq<TraitValue>, draw: int) -> Option<int>
    decreases values.len(),
{
    if values.len() == 0 {
        None
    } else {
        match drawn_index(values.drop_last(), draw) {
            Some(earlier) => Some(earlier),
            None => if values.last().has_supply() && draw < remaining_weight(values) {
                Some(values.len() - 1)
            } else {
                None
            },
        }
    }
}

/// The place of the value selected from `values` by `seed` at `offset`; nothing
/// where no value with supply left has any weight.
pub open spec fn selected_index(values: Seq<TraitValue>, seed: Seq<u8>, offset: int) -> Option<int> {
    if remaining_weight(values) == 0 {
        None
    } else {
        drawn_index(values, seed_draw(seed, offset) % remaining_weight(values))
    }
}

/// A draw below the weights added up falls on a value; the value it falls on
/// has supply left.
pub proof fn lemma_draw_falls(values: Seq<TraitValue>, draw: int)
    requires
        0 <= draw,
    ensures
        draw < remaining_weight(values) ==> drawn_index(values, draw) is Some,
        drawn_index(values, draw) matches Some(place) ==> 0 <= place < values.len()
            && values[place].has_supply(),
    decreases values.len(),
{
    if values.len() > 0 {
        lemma_draw_falls(values.drop_last(), draw);
    }
}

/// What a draw falls on among the first `count` values, it falls on among all.
proof fn lemma_draw_stays(values: Seq<TraitValue>, draw: int, count: int)
    requires
        0 <= count <= values.len(),
        drawn_index(values.take(count), draw) is Some,
    ensures
        drawn_index(values, draw) == drawn_index(values.take(count), draw),
    decreases values.len() - count,
{
    if count < values.len() {
        assert(values.take(count + 1).drop_last() =~= values.take(count));
        lemma_draw_stays(values, draw, count + 1);
    } else {
        assert(values.take(count) =~= values);
    }
}

/// The weights of the values with supply left, added up.
pub fn total_remaining_weight(values: &Vec<TraitValue>) -> (total: u128)
    ensures
        total == remaining_weight(values@),
{
    let mut total: u128 = 0;
    let mut i: usize = 0;
    while i < values.len()
        invariant
            i <= values@.len(),
            total == remaining_weight(values@.take(i as int)),
            total <= 65535 * i,
        decreases values@.len() - i,
    {
        proof {
            assert(values@.take(i + 1).drop_last() =~= values@.take(i as int));
        }
        if values[i].supply_left() {
            total = total + values[i].rarity_weight as u128;
        }
        i += 1;
    }
    assert(values@.take(i as int) =~= values@);
    total
}

/// The number that the four bytes of the seed from `offset` on make.
pub fn draw_from_seed(seed: &[u8; 32], offset: usize) -> (draw: u32)
    ensures
        draw == seed_draw(seed@, offset as int),
{
    let start = offset % 32;
    let b0 = seed[start] as u32;
    let b1 = seed[(start + 1) % 32] as u32;
    let b2 = seed[(start + 2) % 32] as u32;
    let b3 = seed[(start + 3) % 32] as u32;
    b0 + 0x100 * b1 + 0x1_0000 * b2 + 0x100_0000 * b3
}

/// Selects a value of the type by weight. The draw is the number that four
/// bytes of the seed make, reduced modulo the weights of the values with supply
/// left, added up; the value selected is the first with supply left at which
/// those weights, added up in order, exceed the draw. A value without supply
/// left is never selected, and the walk always ends on a value, so that the
/// supply is never found exceeded. Where no value with supply left has any
/// weight, the trait configuration is invalid.
pub fn select_weighted_trait_value<'a>(trait_type: &'a TraitType, seed: &[u8; 32], offset: usize) -> (selected:
    Result<&'a TraitValue, MarketplaceError>)
    ensures
        match selected_index(trait_type.trait_values@, seed@, offset as int) {
            Some(place) => selected == Ok::<&TraitValue, MarketplaceError>(
                &trait_type.trait_values@[place],
            ),
            None => selected == Err::<&TraitValue, MarketplaceError>(
                MarketplaceError::InvalidTraitConfig,
            ),
        },
        remaining_weight(trait_type.trait_values@) == 0 <==> selected is Err,
        selected matches Ok(value) ==> value.has_supply(),
{
    let values = &trait_type.trait_values;
    let total_weight = total_remaining_weight(values);
    if total_weight == 0 {
        return Err(MarketplaceError::InvalidTraitConfig);
    }
    let rand_value: u128 = draw_from_seed(seed, offset) as u128 % total_weight;
    let mut cumulative_weight: u128 = 0;
    let mut i: usize = 0;
    while i < values.len()
        invariant
            i <= values@.len(),
            cumulative_weight == remaining_weight(values@.take(i as int)),
            cumulative_weight <= 65535 * i,
            drawn_index(values@.take(i as int), rand_value as int) is None,
            values@ == trait_type.trait_values@,
            remaining_weight(values@) > 0,
            rand_value == seed_draw(seed@, offset as int) % remaining_weight(values@),
        decreases values@.len() - i,
    {
        proof {
            assert(values@.take(i + 1).drop_last() =~= values@.take(i as int));
        }
        if values[i].supply_left() {
            cumulative_weight = cumulative_weight + values[i].rarity_weight as u128;
            if rand_value < cumulative_weight {
                proof {
                    lemma_draw_stays(values@, rand_value as int, i + 1);
                }
                return Ok(&values[i]);
            }
        }
        i += 1;
    }
    proof {
        // The draw is below the weights added up, so the walk has ended on a
        // value before it came here.
        assert(values@.take(i as int) =~= values@);
        lemma_draw_falls(values@, rand_value as int);
    }
    Err(MarketplaceError::TraitSupplyExceeded)
}

/// Why the supply of the value named `name` cannot be used once more, if it
/// cannot.
pub open spec fn update_trait_supply_fault(values: Seq<TraitValue>, name: Seq<char>) -> Option<
    MarketplaceError,
> {
    match value_index(values, name) {
        None => Some(MarketplaceError::TraitValueNotFound),
        Some(place) => if !values[place].has_supply() {
            Some(MarketplaceError::TraitSupplyExceeded)
        } else if values[place].used_supply == u32::MAX {
            Some(MarketplaceError::CalculationOverflow)
        } else {
            None
        },
    }
}

/// `value` used once more.
pub open spec fn used_once_more(value: TraitValue) -> TraitValue {
    TraitValue { used_supply: (value.used_supply + 1) as u32, ..value }
}

/// Counts one more use of the first value of the type that is named
/// `value_name`. Fails where the type has no such value, with a trait supply
/// exceeded where the value has no supply left, or where the count of a value
/// without cap overflows; the type then stays as it was.
pub fn update_trait_supply(trait_type: &mut TraitType, value_name: &str) -> (done: Result<
    (),
    MarketplaceError,
>)
    ensures
        final(trait_type).collection == old(trait_type).collection,
        final(trait_type).name == old(trait_type).name,
        final(trait_type).is_required == old(trait_type).is_required,
        old(trait_type).within_supply() ==> final(trait_type).within_supply(),
        match update_trait_supply_fault(old(trait_type).trait_values@, value_name@) {
            Some(fault) => done == Err::<(), MarketplaceError>(fault)
                && final(trait_type).trait_values@ == old(trait_type).trait_values@,
            None => {
                let place = value_index(old(trait_type).trait_values@, value_name@).unwrap();
                &&& done is Ok
                &&& final(trait_type).trait_values@ == old(trait_type).trait_values@.update(
                    place,
                    used_once_more(old(trait_type).trait_values@[place]),
                )
            },
        },
{
    let wanted = String::from_str(value_name);
    let place = match find_value_index(&trait_type.trait_values, &wanted) {
        Some(place) => place,
        None => { return Err(MarketplaceError::TraitValueNotFound); },
    };
    if !trait_type.trait_values[place].supply_left() {
        return Err(MarketplaceError::TraitSupplyExceeded);
    }
    let used = match trait_type.trait_values[place].used_supply.checked_add(1) {
        Some(used) => used,
        None => { return Err(MarketplaceError::CalculationOverflow); },
    };
    let mut value = trait_type.trait_values.remove(place);
    value.used_supply = used;
    trait_type.trait_values.insert(place, value);
    assert(trait_type.trait_values@ =~= old(trait_type).trait_values@.update(
        place as int,
        used_once_more(old(trait_type).trait_values@[place as int]),
    ));
    Ok(())
}

/// The names of the type and of the value that `seed` selects for
/// `trait_type` at `offset`, where it selects one.
pub open spec fn selection_of(trait_type: TraitType, seed: Seq<u8>, offset: int) -> Option<
    (Seq<char>, Seq<char>),
> {
    match selected_index(trait_type.trait_values@, seed, offset) {
        Some(place) => Some((trait_type.name@, trait_type.trait_values@[place].name@)),
        None => None,
    }
}

/// The draw at offset `4 * place` is the draw at four times what `place`
/// leaves when divided by eight.
proof fn lemma_draw_wraps(seed: Seq<u8>, place: int)
    requires
        0 <= place,
    ensures
        seed_draw(seed, (place % 8) * 4) == seed_draw(seed, 4 * place),
{
    let rounds = place / 8;
    let rest = place % 8;
    lemma_fundamental_div_mod(place, 8);
    assert(4 * place == 32 * rounds + 4 * rest);
    lemma_mod_multiples_vanish(rounds, 4 * rest, 32);
    assert((4 * place) % 32 == (4 * rest) % 32);
    assert((place % 8) * 4 == 4 * rest);
}

/// Draws one value for each of the trait types, in their order, each from its
/// own four bytes of the seed: the type at place `i` draws at offset `4 * i`.
/// The result names every type with the value drawn for it, so that no
/// required type is missing; no value without supply left is drawn. It fails
/// with an invalid trait configuration where a type has no value with supply
/// left and a weight.
pub fn auto_generate_traits(
    trait_types: &[TraitType],
    _config: &CollectionTraitConfig,
    seed: &[u8; 32],
) -> (generated: Result<Vec<(String, String)>, MarketplaceError>)
    ensures
        match generated {
            Ok(selected) => {
                &&& selected@.len() == trait_types@.len()
                &&& forall|i: int|
                    0 <= i < trait_types@.len() ==> selection_of(trait_types@[i], seed@, 4 * i)
                        == Some(((#[trigger] selected@[i]).0@, selected@[i].1@))
            },
            Err(fault) => {
                &&& fault == MarketplaceError::InvalidTraitConfig
                &&& exists|i: int|
                    0 <= i < trait_types@.len() && selection_of(
                        #[trigger] trait_types@[i],
                        seed@,
                        4 * i,
                    ) is None
            },
        },
{
    let mut selected_traits: Vec<(String, String)> = Vec::new();
    let mut i: usize = 0;
    while i < trait_types.len()
        invariant
            i <= trait_types@.len(),
            selected_traits@.len() == i,
            forall|k: int|
                0 <= k < i ==> selection_of(trait_types@[k], seed@, 4 * k) == Some(
                    ((#[trigger] selected_traits@[k]).0@, selected_traits@[k].1@),
                ),
        decreases trait_types@.len() - i,
    {
        let trait_type = &trait_types[i];
        let offset = (i % 8) * 4;
        proof {
            lemma_draw_wraps(seed@, i as int);
        }
        let trait_value = match select_weighted_trait_value(trait_type, seed, offset) {
            Ok(trait_value) => trait_value,
            Err(fault) => {
                assert(selection_of(trait_types@[i as int], seed@, 4 * i) is None);
                return Err(MarketplaceError::InvalidTraitConfig);
            },
        };
        selected_traits.push((trait_type.name.clone(), trait_value.name.clone()));
        i += 1;
    }
    Ok(selected_traits)
}

/// Whether one of the `provided` pairs names the trait type `name`.
pub open spec fn names_type(provided: Seq<(String, String)>, name: Seq<char>) -> bool {
    exists|j: int| 0 <= j < provided.len() && (#[trigger] provided[j]).0@ == name
}

/// Whether a required trait type is named by none of the `provided` pairs.
pub open spec fn required_missing(types: Seq<TraitType>, provided: Seq<(String, String)>) -> bool {
    exists|i: int|
        0 <= i < types.len() && (#[trigger] types[i]).is_required && !names_type(
            provided,
            types[i].name@,
        )
}

/// Why the pair of names cannot be looked up, if it cannot: there is no such
/// type, or the first type of that name has no such value.
pub open spec fn lookup_fault(types: Seq<TraitType>, trait_name: Seq<char>, value_name: Seq<char>) -> Option<
    MarketplaceError,
> {
    match type_index(types, trait_name) {
        None => Some(MarketplaceError::TraitTypeNotFound),
        Some(place) => match value_index(types[place].trait_values@, value_name) {
            None => Some(MarketplaceError::TraitValueNotFound),
            Some(_) => None,
        },
    }
}

/// The first type that is named `trait_name`.
pub open spec fn looked_up_type(types: Seq<TraitType>, trait_name: Seq<char>) -> TraitType {
    types[type_index(types, trait_name).unwrap()]
}

/// The first value named `value_name` of the first type named `trait_name`.
pub open spec fn looked_up(types: Seq<TraitType>, trait_name: Seq<char>, value_name: Seq<char>) -> TraitValue {
    let values = looked_up_type(types, trait_name).trait_values@;
    values[value_index(values, value_name).unwrap()]
}

/// Why the pair of names cannot be used for an NFT, if it cannot: it cannot be
/// looked up, or the value has no supply left.
pub open spec fn pair_fault(types: Seq<TraitType>, trait_name: Seq<char>, value_name: Seq<char>) -> Option<
    MarketplaceError,
> {
    match lookup_fault(types, trait_name, value_name) {
        Some(fault) => Some(fault),
        None => if looked_up(types, trait_name, value_name).has_supply() {
            None
        } else {
            Some(MarketplaceError::TraitSupplyExceeded)
        },
    }
}

/// The fault of the first of the `provided` pairs that has one.
pub open spec fn first_pair_fault(types: Seq<TraitType>, provided: Seq<(String, String)>) -> Option<
    MarketplaceError,
>
    decreases provided.len(),
{
    if provided.len() == 0 {
        None
    } else {
        match first_pair_fault(types, provided.drop_last()) {
            Some(fault) => Some(fault),
            None => pair_fault(types, provided.last().0@, provided.last().1@),
        }
    }
}

/// The lookup fault of the first of the `selected` pairs that has one.
pub open spec fn first_lookup_fault(types: Seq<TraitType>, selected: Seq<(String, String)>) -> Option<
    MarketplaceError,
>
    decreases selected.len(),
{
    if selected.len() == 0 {
        None
    } else {
        match first_lookup_fault(types, selected.drop_last()) {
            Some(fault) => Some(fault),
            None => lookup_fault(types, selected.last().0@, selected.last().1@),
        }
    }
}

/// Why the `provided` pairs are not valid traits of an NFT, if they are not.
pub open spec fn validation_fault(types: Seq<TraitType>, provided: Seq<(String, String)>) -> Option<
    MarketplaceError,
> {
    if required_missing(types, provided) {
        Some(MarketplaceError::RequiredTraitMissing)
    } else {
        first_pair_fault(types, provided)
    }
}

/// Whether one of the pairs names the trait type `name`.
pub fn is_type_named(provided: &[(String, String)], name: &String) -> (named: bool)
    ensures
        named == names_type(provided@, name@),
{
    let mut j: usize = 0;
    while j < provided.len()
        invariant
            j <= provided@.len(),
            forall|k: int| 0 <= k < j ==> (#[trigger] provided@[k]).0@ != name@,
        decreases provided@.len() - j,
    {
        if provided[j].0 == *name {
            return true;
        }
        j += 1;
    }
    false
}

/// Looks up the first type named `trait_name` and its first value named
/// `value_name`.
pub fn look_up<'a>(trait_types: &'a [TraitType], trait_name: &String, value_name: &String) -> (found:
    Result<(&'a TraitType, &'a TraitValue), MarketplaceError>)
    ensures
        match lookup_fault(trait_types@, trait_name@, value_name@) {
            Some(fault) => found == Err::<(&TraitType, &TraitValue), MarketplaceError>(fault),
            None => found == Ok::<(&TraitType, &TraitValue), MarketplaceError>(
                (
                    &looked_up_type(trait_types@, trait_name@),
                    &looked_up(trait_types@, trait_name@, value_name@),
                ),
            ),
        },
{
    let trait_type = match find_type_index(trait_types, trait_name) {
        Some(place) => &trait_types[place],
        None => { return Err(MarketplaceError::TraitTypeNotFound); },
    };
    match find_value_index(&trait_type.trait_values, value_name) {
        Some(place) => Ok((trait_type, &trait_type.trait_values[place])),
        None => Err(MarketplaceError::TraitValueNotFound),
    }
}

/// Validates traits that were provided by hand. Every required trait type has
/// to be named by one of the pairs, else a required trait is missing. Then, for
/// each pair in order: its type has to exist, the type has to have the value,
/// and the value has to have supply left.
pub fn validate_traits(trait_types: &[TraitType], provided_traits: &[(String, String)]) -> (valid:
    Result<(), MarketplaceError>)
    ensures
        valid == match validation_fault(trait_types@, provided_traits@) {
            Some(fault) => Err::<(), MarketplaceError>(fault),
            None => Ok::<(), MarketplaceError>(()),
        },
{
    let mut i: usize = 0;
    while i < trait_types.len()
        invariant
            i <= trait_types@.len(),
            forall|k: int|
                0 <= k < i ==> !((#[trigger] trait_types@[k]).is_required && !names_type(
                    provided_traits@,
                    trait_types@[k].name@,
                )),
        decreases trait_types@.len() - i,
    {
        if trait_types[i].is_required && !is_type_named(provided_traits, &trait_types[i].name) {
            return Err(MarketplaceError::RequiredTraitMissing);
        }
        i += 1;
    }
    let mut j: usize = 0;
    while j < provided_traits.len()
        invariant
            j <= provided_traits@.len(),
            first_pair_fault(trait_types@, provided_traits@.take(j as int)) is None,
            !required_missing(trait_types@, provided_traits@),
        decreases provided_traits@.len() - j,
    {
        proof {
            assert(provided_traits@.take(j + 1).drop_last() =~= provided_traits@.take(j as int));
        }
        let value = match look_up(trait_types, &provided_traits[j].0, &provided_traits[j].1) {
            Ok((_, value)) => value,
            Err(fault) => {
                proof {
                    lemma_pair_fault_stays(trait_types@, provided_traits@, j + 1);
                }
                return Err(fault);
            },
        };
        if !value.supply_left() {
            proof {
                lemma_pair_fault_stays(trait_types@, provided_traits@, j + 1);
            }
            return Err(MarketplaceError::TraitSupplyExceeded);
        }
        j += 1;
    }
    assert(provided_traits@.take(j as int) =~= provided_traits@);
    Ok(())
}

/// The first fault among the first `count` pairs is the first fault among all.
proof fn lemma_pair_fault_stays(types: Seq<TraitType>, provided: Seq<(String, String)>, count: int)
    requires
        0 <= count <= provided.len(),
        first_pair_fault(types, provided.take(count)) is Some,
    ensures
        first_pair_fault(types, provided) == first_pair_fault(types, provided.take(count)),
    decreases provided.len() - count,
{
    if count < provided.len() {
        assert(provided.take(count + 1).drop_last() =~= provided.take(count));
        lemma_pair_fault_stays(types, provided, count + 1);
    } else {
        assert(provided.take(count) =~= provided);
    }
}

/// `uri` with a slash at its end: added, unless it ends in one.
pub open spec fn with_slash(uri: Seq<char>) -> Seq<char> {
    if uri.len() > 0 && uri.last() == '/' {
        uri
    } else {
        uri.push('/')
    }
}

/// `base` followed by the URI postfix of each selected value, in order and
/// each after a slash; a value without postfix adds nothing.
pub open spec fn standard_uri(base: Seq<char>, types: Seq<TraitType>, selected: Seq<(String, String)>) -> Seq<
    char,
>
    decreases selected.len(),
{
    if selected.len() == 0 {
        base
    } else {
        let before = standard_uri(base, types, selected.drop_last());
        let postfix = looked_up(types, selected.last().0@, selected.last().1@).uri_postfix@;
        if postfix.len() == 0 {
            before
        } else {
            with_slash(before) + postfix
        }
    }
}

/// The name of a type, a colon, and the name of a value of it.
pub open spec fn identifier(trait_name: Seq<char>, value_name: Seq<char>) -> Seq<char> {
    trait_name + seq![':'] + value_name
}

/// The identifiers of the selected values, in order, with an underscore
/// between each two.
pub open spec fn joined_identifiers(selected: Seq<(String, String)>) -> Seq<char>
    decreases selected.len(),
{
    if selected.len() == 0 {
        Seq::empty()
    } else if selected.len() == 1 {
        identifier(selected.last().0@, selected.last().1@)
    } else {
        joined_identifiers(selected.drop_last()) + seq!['_'] + identifier(
            selected.last().0@,
            selected.last().1@,
        )
    }
}

/// Why no metadata URI can be made, if none can.
pub open spec fn metadata_uri_fault(
    format: MetadataFormat,
    types: Seq<TraitType>,
    selected: Seq<(String, String)>,
) -> Option<MarketplaceError> {
    match format {
        MetadataFormat::Custom => None,
        _ => first_lookup_fault(types, selected),
    }
}

/// The metadata URI of an NFT with the selected values.
pub open spec fn metadata_uri(
    format: MetadataFormat,
    base: Seq<char>,
    types: Seq<TraitType>,
    selected: Seq<(String, String)>,
) -> Seq<char> {
    match format {
        MetadataFormat::StandardJson => standard_uri(base, types, selected),
        MetadataFormat::CompressedJson => with_slash(base) + joined_identifiers(selected),
        MetadataFormat::Custom => base,
    }
}

/// Puts a slash at the end of `uri` unless it ends in one.
pub fn ensure_slash(uri: &mut String)
    ensures
        final(uri)@ == with_slash(old(uri)@),
{
    let length = uri.as_str().unicode_len();
    if length == 0 || uri.as_str().get_char(length - 1) != '/' {
        proof {
            reveal_strlit("/");
        }
        uri.append("/");
        assert(uri@ =~= old(uri)@.push('/'));
    }
}

/// Makes the metadata URI of an NFT with the given traits. In the standard
/// format the base URI is followed by the URI postfix of each value, in order
/// and each after a slash; in the compressed format by a slash and the
/// `type:value` identifiers joined by underscores; in a custom format it is
/// the base URI as it stands. In the first two formats every pair has to name
/// a type and a value of it: the first that does not gives the fault.
pub fn generate_metadata_uri(
    config: &CollectionTraitConfig,
    trait_values: &[(String, String)],
    trait_types: &[TraitType],
) -> (made: Result<String, MarketplaceError>)
    ensures
        match metadata_uri_fault(config.metadata_format, trait_types@, trait_values@) {
            Some(fault) => made == Err::<String, MarketplaceError>(fault),
            None => made matches Ok(uri) && uri@ == metadata_uri(
                config.metadata_format,
                config.base_uri@,
                trait_types@,
                trait_values@,
            ),
        },
{
    let mut uri = config.base_uri.clone();
    match config.metadata_format {
        MetadataFormat::StandardJson => {
            let mut i: usize = 0;
            while i < trait_values.len()
                invariant
                    i <= trait_values@.len(),
                    config.metadata_format == MetadataFormat::StandardJson,
                    first_lookup_fault(trait_types@, trait_values@.take(i as int)) is None,
                    uri@ == standard_uri(
                        config.base_uri@,
                        trait_types@,
                        trait_values@.take(i as int),
                    ),
                decreases trait_values@.len() - i,
            {
                proof {
                    assert(trait_values@.take(i + 1).drop_last() =~= trait_values@.take(i as int));
                }
                let value = match look_up(trait_types, &trait_values[i].0, &trait_values[i].1) {
                    Ok((_, value)) => value,
                    Err(fault) => {
                        proof {
                            lemma_lookup_fault_stays(trait_types@, trait_values@, i + 1);
                        }
                        return Err(fault);
                    },
                };
                if !value.uri_postfix.as_str().is_empty() {
                    ensure_slash(&mut uri);
                    uri.append(value.uri_postfix.as_str());
                }
                i += 1;
            }
            assert(trait_values@.take(i as int) =~= trait_values@);
        },
        MetadataFormat::CompressedJson => {
            let mut identifiers = String::new();
            let mut i: usize = 0;
            while i < trait_values.len()
                invariant
                    i <= trait_values@.len(),
                    config.metadata_format == MetadataFormat::CompressedJson,
                    first_lookup_fault(trait_types@, trait_values@.take(i as int)) is None,
                    identifiers@ == joined_identifiers(trait_values@.take(i as int)),
                decreases trait_values@.len() - i,
            {
                proof {
                    assert(trait_values@.take(i + 1).drop_last() =~= trait_values@.take(i as int));
                    reveal_strlit("_");
                    reveal_strlit(":");
                }
                let (trait_type, value) = match look_up(
                    trait_types,
                    &trait_values[i].0,
                    &trait_values[i].1,
                ) {
                    Ok(found) => found,
                    Err(fault) => {
                        proof {
                            lemma_lookup_fault_stays(trait_types@, trait_values@, i + 1);
                        }
                        return Err(fault);
                    },
                };
                proof {
                    lemma_type_index(trait_types@, trait_values@[i as int].0@);
                    lemma_value_index(trait_type.trait_values@, trait_values@[i as int].1@);
                }
                if i > 0 {
                    identifiers.append("_");
                }
                identifiers.append(trait_type.name.as_str());
                identifiers.append(":");
                identifiers.append(value.name.as_str());
                assert(identifiers@ =~= joined_identifiers(trait_values@.take(i + 1)));
                i += 1;
            }
            assert(trait_values@.take(i as int) =~= trait_values@);
            ensure_slash(&mut uri);
            uri.append(identifiers.as_str());
        },
        MetadataFormat::Custom => {},
    }
    Ok(uri)
}

/// The first lookup fault among the first `count` pairs is the first among all.
proof fn lemma_lookup_fault_stays(types: Seq<TraitType>, selected: Seq<(String, String)>, count: int)
    requires
        0 <= count <= selected.len(),
        first_lookup_fault(types, selected.take(count)) is Some,
    ensures
        first_lookup_fault(types, selected) == first_lookup_fault(types, selected.take(count)),
    decreases selected.len() - count,
{
    if count < selected.len() {
        assert(selected.take(count + 1).drop_last() =~= selected.take(count));
        lemma_lookup_fault_stays(types, selected, count + 1);
    } else {
        assert(selected.take(count) =~= selected);
    }
}

} // verus!
