use nft_fusion_marketplace::errors::MarketplaceError;
use nft_fusion_marketplace::modules::traits::{
    auto_generate_traits, create_trait_type, draw_from_seed, ensure_slash, find_trait_value,
    find_type_index, find_value_index, generate_metadata_uri, generate_random_seed,
    is_type_named, look_up, select_weighted_trait_value, total_remaining_weight,
    update_trait_supply, validate_traits,
};
use nft_fusion_marketplace::state::{
    Address, CollectionTraitConfig, MetadataFormat, TraitType, TraitValue,
};

fn key(byte: u8) -> Address {
    Address { bytes: [byte; 32] }
}

fn value(name: &str, weight: u16, cap: Option<u32>, used: u32) -> TraitValue {
    TraitValue {
        name: String::from(name),
        uri_postfix: format!("{}.png", name.to_lowercase()),
        rarity_weight: weight,
        available_supply: cap,
        used_supply: used,
    }
}

fn kind(name: &str, required: bool, values: Vec<TraitValue>) -> TraitType {
    TraitType {
        collection: key(4),
        name: String::from(name),
        is_required: required,
        trait_values: values,
    }
}

fn background() -> TraitType {
    kind(
        "Background",
        true,
        vec![
            value("Blue", 10, None, 0),
            value("Red", 30, Some(5), 5),
            value("Gold", 60, Some(5), 4),
        ],
    )
}

fn eyes() -> TraitType {
    kind("Eyes", false, vec![value("Green", 1, None, 0), value("Laser", 1, Some(1), 0)])
}

fn seed_with(bytes: &[(usize, u8)]) -> [u8; 32] {
    let mut seed = [0u8; 32];
    for &(place, byte) in bytes {
        seed[place] = byte;
    }
    seed
}

fn pair(kind: &str, value: &str) -> (String, String) {
    (String::from(kind), String::from(value))
}

fn config(format: MetadataFormat, base: &str) -> CollectionTraitConfig {
    CollectionTraitConfig {
        collection: key(4),
        base_uri: String::from(base),
        auto_generation_enabled: true,
        metadata_format: format,
        trait_types: vec![key(50), key(51)],
    }
}

#[test]
fn trait_type_needs_values() {
    assert_eq!(
        create_trait_type(&key(4), String::from("Hat"), true, vec![]),
        Err(MarketplaceError::InvalidTraitConfig)
    );
    assert_eq!(
        create_trait_type(&key(4), String::from("Eyes"), false, eyes().trait_values),
        Ok(eyes())
    );
}

#[test]
fn first_value_of_a_name_is_found() {
    let doubled = kind("Hat", false, vec![value("Cap", 1, None, 0), value("Cap", 2, None, 0)]);
    assert_eq!(find_trait_value(&doubled, "Cap").map(|found| found.rarity_weight), Ok(1));
    assert_eq!(find_trait_value(&doubled, "cap"), Err(MarketplaceError::TraitValueNotFound));
    assert_eq!(find_trait_value(&background(), "Gold"), Ok(&value("Gold", 60, Some(5), 4)));
    assert_eq!(find_value_index(&background().trait_values, &String::from("Red")), Some(1));
    assert_eq!(find_value_index(&background().trait_values, &String::from("")), None);
    let types = [background(), eyes(), background()];
    assert_eq!(find_type_index(&types, &String::from("Background")), Some(0));
    assert_eq!(find_type_index(&types, &String::from("Eyes")), Some(1));
    assert_eq!(find_type_index(&types, &String::from("Mouth")), None);
}

#[test]
fn seed_is_the_sha256_of_its_inputs() {
    let seed = generate_random_seed(1, &key(1), &key(2), b"abc");
    assert_eq!(
        seed,
        [
            20, 154, 230, 193, 52, 223, 121, 22, 56, 81, 22, 1, 114, 131, 159, 234, 227, 70, 112,
            240, 231, 247, 13, 191, 210, 213, 196, 160, 222, 82, 44, 11
        ]
    );
    let other = generate_random_seed(0x0102030405060708, &key(7), &key(9), &[]);
    assert_eq!(
        other,
        [
            225, 112, 0, 198, 223, 182, 67, 165, 97, 56, 110, 154, 193, 177, 20, 5, 49, 194, 147,
            53, 163, 76, 252, 43, 159, 152, 99, 103, 88, 11, 148, 176
        ]
    );
    assert_eq!(generate_random_seed(1, &key(1), &key(2), b"abc"), seed);
    assert_ne!(generate_random_seed(2, &key(1), &key(2), b"abc"), seed);
    assert_ne!(generate_random_seed(1, &key(2), &key(1), b"abc"), seed);
}

#[test]
fn draw_reads_four_bytes_lowest_first() {
    let seed = seed_with(&[(0, 0x78), (1, 0x56), (2, 0x34), (3, 0x12), (30, 1), (31, 2)]);
    assert_eq!(draw_from_seed(&seed, 0), 0x1234_5678);
    assert_eq!(draw_from_seed(&seed, 1), 0x0012_3456);
    assert_eq!(draw_from_seed(&seed, 30), 0x5678_0201);
    assert_eq!(draw_from_seed(&seed, 31), 0x3456_7802);
    assert_eq!(draw_from_seed(&seed, 32), 0x1234_5678);
    assert_eq!(draw_from_seed(&seed, 62), 0x5678_0201);
    assert_eq!(draw_from_seed(&seed, usize::MAX), draw_from_seed(&seed, usize::MAX % 32));
    assert_eq!(draw_from_seed(&[255; 32], 7), u32::MAX);
}

#[test]
fn weights_of_exhausted_values_do_not_count() {
    assert_eq!(total_remaining_weight(&background().trait_values), 70);
    assert_eq!(total_remaining_weight(&eyes().trait_values), 2);
    assert_eq!(total_remaining_weight(&vec![]), 0);
    assert_eq!(total_remaining_weight(&vec![value("Old", 9, Some(0), 0)]), 0);
}

#[test]
fn selection_walks_the_values_with_supply() {
    let kind = background();
    let name = |seed: [u8; 32], offset: usize| {
        select_weighted_trait_value(&kind, &seed, offset).map(|value| value.name.clone())
    };
    assert_eq!(name(seed_with(&[]), 0), Ok(String::from("Blue")));
    assert_eq!(name(seed_with(&[(0, 9)]), 0), Ok(String::from("Blue")));
    // Red is exhausted: a draw of 10 falls on Gold.
    assert_eq!(name(seed_with(&[(0, 10)]), 0), Ok(String::from("Gold")));
    assert_eq!(name(seed_with(&[(0, 69)]), 0), Ok(String::from("Gold")));
    assert_eq!(name(seed_with(&[(0, 70)]), 0), Ok(String::from("Blue")));
    // 256 modulo 70 is 46.
    assert_eq!(name(seed_with(&[(1, 1)]), 0), Ok(String::from("Gold")));
    assert_eq!(name(seed_with(&[(1, 1)]), 1), Ok(String::from("Blue")));
    assert_eq!(name(seed_with(&[(0, 10)]), 32), Ok(String::from("Gold")));
    assert_eq!(name(seed_with(&[(31, 10)]), 31), Ok(String::from("Gold")));
}

#[test]
fn selection_never_returns_an_exhausted_value() {
    let kind = background();
    for byte in 0..=255u8 {
        for offset in [0usize, 3, 29, 31, 40] {
            let seed = [byte; 32];
            let selected = select_weighted_trait_value(&kind, &seed, offset).unwrap();
            assert_ne!(selected.name, "Red");
            assert!(selected.available_supply.map_or(true, |cap| selected.used_supply < cap));
        }
    }
}

#[test]
fn selection_fails_without_remaining_weight() {
    let seed = [7u8; 32];
    let exhausted = kind("Hat", true, vec![value("Cap", 5, Some(2), 2), value("Top", 9, Some(0), 0)]);
    assert_eq!(
        select_weighted_trait_value(&exhausted, &seed, 0),
        Err(MarketplaceError::InvalidTraitConfig)
    );
    let weightless = kind("Hat", true, vec![value("Cap", 0, None, 0)]);
    assert_eq!(
        select_weighted_trait_value(&weightless, &seed, 0),
        Err(MarketplaceError::InvalidTraitConfig)
    );
    let empty = kind("Hat", true, vec![]);
    assert_eq!(
        select_weighted_trait_value(&empty, &seed, 0),
        Err(MarketplaceError::InvalidTraitConfig)
    );
}

#[test]
fn selection_skips_values_without_weight() {
    let kind = kind("Hat", true, vec![value("Cap", 0, None, 0), value("Top", 3, None, 0)]);
    for byte in 0..10u8 {
        let seed = seed_with(&[(0, byte)]);
        assert_eq!(select_weighted_trait_value(&kind, &seed, 0).unwrap().name, "Top");
    }
}

#[test]
fn generation_draws_each_type_from_its_own_bytes() {
    let types = [background(), eyes()];
    let cfg = config(MetadataFormat::StandardJson, "https://x");
    // Background draws 10 from the bytes at 0, Eyes draws 1 from the bytes at 4.
    let seed = seed_with(&[(0, 10), (4, 1)]);
    assert_eq!(
        auto_generate_traits(&types, &cfg, &seed),
        Ok(vec![pair("Background", "Gold"), pair("Eyes", "Laser")])
    );
    assert_eq!(
        auto_generate_traits(&types, &cfg, &[0; 32]),
        Ok(vec![pair("Background", "Blue"), pair("Eyes", "Green")])
    );
    assert_eq!(auto_generate_traits(&[], &cfg, &seed), Ok(vec![]));
}

#[test]
fn generation_wraps_round_the_seed() {
    let types: Vec<TraitType> = (0..10).map(|_| eyes()).collect();
    let cfg = config(MetadataFormat::StandardJson, "https://x");
    // The ninth type reads the bytes at 32, which are those at 0.
    let seed = seed_with(&[(0, 1), (4, 0)]);
    let generated = auto_generate_traits(&types, &cfg, &seed).unwrap();
    let values: Vec<&str> = generated.iter().map(|(_, value)| value.as_str()).collect();
    assert_eq!(
        values,
        ["Laser", "Green", "Green", "Green", "Green", "Green", "Green", "Green", "Laser", "Green"]
    );
}

#[test]
fn generation_fails_on_a_type_without_values_to_draw() {
    let types = [eyes(), kind("Hat", false, vec![value("Cap", 5, Some(2), 2)])];
    let cfg = config(MetadataFormat::StandardJson, "https://x");
    assert_eq!(
        auto_generate_traits(&types, &cfg, &[0; 32]),
        Err(MarketplaceError::InvalidTraitConfig)
    );
}

#[test]
fn provided_traits_are_validated_in_order() {
    let types = [background(), eyes()];
    assert_eq!(validate_traits(&types, &[pair("Background", "Blue")]), Ok(()));
    assert_eq!(
        validate_traits(&types, &[pair("Eyes", "Laser"), pair("Background", "Gold")]),
        Ok(())
    );
    assert_eq!(
        validate_traits(&types, &[pair("Eyes", "Green")]),
        Err(MarketplaceError::RequiredTraitMissing)
    );
    assert_eq!(validate_traits(&types, &[]), Err(MarketplaceError::RequiredTraitMissing));
    assert_eq!(
        validate_traits(&types, &[pair("Background", "Blue"), pair("Mouth", "Smile")]),
        Err(MarketplaceError::TraitTypeNotFound)
    );
    assert_eq!(
        validate_traits(&types, &[pair("Background", "Pink")]),
        Err(MarketplaceError::TraitValueNotFound)
    );
    assert_eq!(
        validate_traits(&types, &[pair("Background", "Red")]),
        Err(MarketplaceError::TraitSupplyExceeded)
    );
    // The first faulty pair decides.
    assert_eq!(
        validate_traits(&types, &[pair("Background", "Red"), pair("Mouth", "Smile")]),
        Err(MarketplaceError::TraitSupplyExceeded)
    );
    assert_eq!(
        validate_traits(&types, &[pair("Eyes", "Blue"), pair("Background", "Red")]),
        Err(MarketplaceError::TraitValueNotFound)
    );
    // A missing required type is reported before any faulty pair.
    assert_eq!(
        validate_traits(&types, &[pair("Mouth", "Smile")]),
        Err(MarketplaceError::RequiredTraitMissing)
    );
    assert_eq!(validate_traits(&[], &[]), Ok(()));
    assert_eq!(validate_traits(&[eyes()], &[]), Ok(()));
}

#[test]
fn naming_and_lookup() {
    let provided = [pair("Eyes", "Green"), pair("Background", "Blue")];
    assert!(is_type_named(&provided, &String::from("Background")));
    assert!(!is_type_named(&provided, &String::from("Green")));
    assert!(!is_type_named(&[], &String::from("Eyes")));
    let types = [background(), eyes()];
    let found = look_up(&types, &String::from("Eyes"), &String::from("Laser")).unwrap();
    assert_eq!(found.0.name, "Eyes");
    assert_eq!(found.1, &value("Laser", 1, Some(1), 0));
    assert_eq!(
        look_up(&types, &String::from("Laser"), &String::from("Eyes")),
        Err(MarketplaceError::TraitTypeNotFound)
    );
    assert_eq!(
        look_up(&types, &String::from("Eyes"), &String::from("Gold")),
        Err(MarketplaceError::TraitValueNotFound)
    );
}

#[test]
fn standard_uri_appends_each_postfix() {
    let types = [background(), eyes()];
    let selected = [pair("Background", "Blue"), pair("Eyes", "Laser")];
    assert_eq!(
        generate_metadata_uri(&config(MetadataFormat::StandardJson, "https://x"), &selected, &types),
        Ok(String::from("https://x/blue.png/laser.png"))
    );
    assert_eq!(
        generate_metadata_uri(&config(MetadataFormat::StandardJson, "https://x/"), &selected, &types),
        Ok(String::from("https://x/blue.png/laser.png"))
    );
    assert_eq!(
        generate_metadata_uri(&config(MetadataFormat::StandardJson, ""), &selected[..1], &types),
        Ok(String::from("/blue.png"))
    );
    assert_eq!(
        generate_metadata_uri(&config(MetadataFormat::StandardJson, "https://x"), &[], &types),
        Ok(String::from("https://x"))
    );
}

#[test]
fn standard_uri_skips_values_without_postfix() {
    let mut plain = value("Plain", 1, None, 0);
    plain.uri_postfix = String::new();
    let mut slashed = value("Dir", 1, None, 0);
    slashed.uri_postfix = String::from("dir/");
    let types = [kind("Skin", false, vec![plain, slashed]), eyes()];
    assert_eq!(
        generate_metadata_uri(
            &config(MetadataFormat::StandardJson, "https://x"),
            &[pair("Skin", "Plain"), pair("Eyes", "Green")],
            &types
        ),
        Ok(String::from("https://x/green.png"))
    );
    assert_eq!(
        generate_metadata_uri(
            &config(MetadataFormat::StandardJson, "https://x"),
            &[pair("Skin", "Dir"), pair("Skin", "Plain"), pair("Eyes", "Green")],
            &types
        ),
        Ok(String::from("https://x/dir/green.png"))
    );
}

#[test]
fn compressed_uri_joins_identifiers() {
    let types = [background(), eyes()];
    let selected = [pair("Background", "Blue"), pair("Eyes", "Laser")];
    assert_eq!(
        generate_metadata_uri(&config(MetadataFormat::CompressedJson, "https://x"), &selected, &types),
        Ok(String::from("https://x/Background:Blue_Eyes:Laser"))
    );
    assert_eq!(
        generate_metadata_uri(
            &config(MetadataFormat::CompressedJson, "https://x/"),
            &selected[1..],
            &types
        ),
        Ok(String::from("https://x/Eyes:Laser"))
    );
    assert_eq!(
        generate_metadata_uri(&config(MetadataFormat::CompressedJson, "https://x"), &[], &types),
        Ok(String::from("https://x/"))
    );
}

#[test]
fn custom_uri_is_the_base_uri() {
    let types = [background()];
    assert_eq!(
        generate_metadata_uri(
            &config(MetadataFormat::Custom, "ipfs://abc"),
            &[pair("Mouth", "Smile")],
            &types
        ),
        Ok(String::from("ipfs://abc"))
    );
}

#[test]
fn uri_needs_known_types_and_values() {
    let types = [background(), eyes()];
    for format in [MetadataFormat::StandardJson, MetadataFormat::CompressedJson] {
        assert_eq!(
            generate_metadata_uri(
                &config(format, "https://x"),
                &[pair("Eyes", "Green"), pair("Mouth", "Smile")],
                &types
            ),
            Err(MarketplaceError::TraitTypeNotFound)
        );
        assert_eq!(
            generate_metadata_uri(
                &config(format, "https://x"),
                &[pair("Eyes", "Red"), pair("Mouth", "Smile")],
                &types
            ),
            Err(MarketplaceError::TraitValueNotFound)
        );
        // Supply does not matter to a URI.
        assert!(generate_metadata_uri(
            &config(format, "https://x"),
            &[pair("Background", "Red")],
            &types
        )
        .is_ok());
    }
}

#[test]
fn slash_is_added_once() {
    let mut uri = String::from("a");
    ensure_slash(&mut uri);
    assert_eq!(uri, "a/");
    ensure_slash(&mut uri);
    assert_eq!(uri, "a/");
    let mut empty = String::new();
    ensure_slash(&mut empty);
    assert_eq!(empty, "/");
    let mut wide = String::from("é/ü");
    ensure_slash(&mut wide);
    assert_eq!(wide, "é/ü/");
}

#[test]
fn supply_is_counted_up() {
    let mut kind = background();
    assert_eq!(update_trait_supply(&mut kind, "Gold"), Ok(()));
    assert_eq!(
        kind,
        TraitType {
            trait_values: vec![
                value("Blue", 10, None, 0),
                value("Red", 30, Some(5), 5),
                value("Gold", 60, Some(5), 5),
            ],
            ..background()
        }
    );
    assert_eq!(update_trait_supply(&mut kind, "Gold"), Err(MarketplaceError::TraitSupplyExceeded));
    assert_eq!(update_trait_supply(&mut kind, "Blue"), Ok(()));
    assert_eq!(kind.trait_values[0].used_supply, 1);
    assert_eq!(kind.trait_values[2].used_supply, 5);
}

#[test]
fn supply_update_fails_and_changes_nothing() {
    let mut kind = background();
    assert_eq!(update_trait_supply(&mut kind, "Red"), Err(MarketplaceError::TraitSupplyExceeded));
    assert_eq!(update_trait_supply(&mut kind, "Pink"), Err(MarketplaceError::TraitValueNotFound));
    assert_eq!(kind, background());
    let mut full = kind_with_full_count();
    assert_eq!(update_trait_supply(&mut full, "Max"), Err(MarketplaceError::CalculationOverflow));
    assert_eq!(full, kind_with_full_count());
    // A capped value at the highest count is exhausted, not overflowing.
    let mut capped = kind_with_full_count();
    capped.trait_values[0].available_supply = Some(u32::MAX);
    assert_eq!(update_trait_supply(&mut capped, "Max"), Err(MarketplaceError::TraitSupplyExceeded));
    assert_eq!(capped.trait_values[0].used_supply, u32::MAX);
}

fn kind_with_full_count() -> TraitType {
    kind("Hat", false, vec![value("Max", 1, None, u32::MAX)])
}
