use ezemoji::CharGroups;
use ezemoji::EZEmojis;
use ezemoji::EmojiGroups;
use ezemoji::create_emoji_data;
use ezemoji::create_smile;

#[test]
fn test_emojis() {}

#[test]
fn every_builtin_group_is_present_and_nonempty() {
    let r: EZEmojis<u32> = EZEmojis::default();
    let groups = [
        EmojiGroups::Emojis,
        EmojiGroups::Japanese,
        EmojiGroups::Smile,
        EmojiGroups::Moon,
        EmojiGroups::Earth,
        EmojiGroups::Plant,
        EmojiGroups::Clock,
        EmojiGroups::Shape,
        EmojiGroups::Arrow,
        EmojiGroups::HorizontalDominos,
        EmojiGroups::VerticalDominos,
        EmojiGroups::Cards,
        EmojiGroups::NumberedBalls,
        EmojiGroups::NumberedCubes,
        EmojiGroups::LargeLetter,
        EmojiGroups::Crab,
        EmojiGroups::All,
    ];
    for g in groups {
        let key = CharGroups::Standard(g);
        let points = r.get_u32(&key).expect("builtin group must be present");
        assert!(!points.is_empty());
    }
}

#[test]
fn decoded_length_matches_raw_length() {
    let mut r: EZEmojis<u32> = EZEmojis::default();
    let smile = CharGroups::Standard(EmojiGroups::Smile);
    assert_eq!(
        r.get_char(&smile).unwrap().len(),
        r.get_u32(&smile).unwrap().len()
    );
    let custom = CharGroups::Custom(3);
    r.add(custom, vec![65, 0xD800, 66, 0x110000]);
    assert_eq!(
        r.get_char(&custom).unwrap().len(),
        r.get_u32(&custom).unwrap().len()
    );
}

#[test]
fn absent_key_returns_nothing_from_both_accessors() {
    let r: EZEmojis<u32> = EZEmojis::default();
    let key = CharGroups::Custom(42);
    assert_eq!(r.get_u32(&key), None);
    assert_eq!(r.get_char(&key), None);
}

#[test]
fn adding_twice_is_idempotent() {
    let mut r: EZEmojis<u32> = EZEmojis::default();
    let key = CharGroups::Custom(7);
    let value = vec![100, 200, 300];
    r.add(key, value.clone());
    assert_eq!(r.get_u32(&key), Some(&value));
    r.add(key, value.clone());
    assert_eq!(r.get_u32(&key), Some(&value));
}

#[test]
fn last_write_wins() {
    let mut r: EZEmojis<u32> = EZEmojis::default();
    let key = CharGroups::Custom(7);
    r.add(key, vec![1, 2, 3]);
    r.add(key, vec![9]);
    assert_eq!(r.get_u32(&key), Some(&vec![9]));
}

#[test]
fn adding_overrides_a_builtin_group() {
    let mut r: EZEmojis<u32> = EZEmojis::default();
    let key = CharGroups::Standard(EmojiGroups::Smile);
    r.add(key, vec![65]);
    assert_eq!(r.get_u32(&key), Some(&vec![65]));
    assert_eq!(r.get_char(&key), Some(vec!['A']));
}

#[test]
fn invalid_scalar_decodes_to_space_in_place() {
    let mut r: EZEmojis<u32> = EZEmojis::default();
    let key = CharGroups::Custom(1);
    r.add(key, vec![65, 0xD800, 66]);
    assert_eq!(r.get_char(&key), Some(vec!['A', ' ', 'B']));
}

#[test]
fn value_beyond_the_scalar_maximum_decodes_to_space() {
    let mut r: EZEmojis<u32> = EZEmojis::default();
    let key = CharGroups::Custom(2);
    r.add(key, vec![0x110000, 0x10FFFF]);
    let decoded = r.get_char(&key).unwrap();
    assert_eq!(decoded[0], ' ');
    assert_eq!(decoded[1], char::from_u32(0x10FFFF).unwrap());
}

#[test]
fn empty_sequence_is_present_but_empty() {
    let mut r: EZEmojis<u32> = EZEmojis::default();
    let key = CharGroups::Custom(11);
    r.add(key, vec![]);
    assert_eq!(r.get_u32(&key), Some(&vec![]));
    assert_eq!(r.get_char(&key), Some(vec![]));
}

#[test]
fn fresh_registry_smile_matches_the_builder() {
    let r: EZEmojis<u32> = EZEmojis::default();
    let key = CharGroups::Standard(EmojiGroups::Smile);
    assert_eq!(r.get_u32(&key), Some(&create_smile()));
    assert_eq!(
        r.get_u32(&key),
        Some(&vec![128512, 128513, 128514, 128515, 128516, 128517, 128518])
    );
}

#[test]
fn fresh_registry_crab_decodes_to_the_crab_glyph() {
    let r: EZEmojis<u32> = EZEmojis::default();
    let key = CharGroups::Standard(EmojiGroups::Crab);
    assert_eq!(r.get_u32(&key), Some(&vec![129408]));
    let crab = char::from_u32(0x1F980).unwrap();
    assert_eq!(r.get_char(&key), Some(vec![crab]));
}

#[test]
fn create_emoji_data_matches_default() {
    let built: EZEmojis<u32> = create_emoji_data();
    let defaulted: EZEmojis<u32> = EZEmojis::default();
    let key = CharGroups::Standard(EmojiGroups::All);
    assert_eq!(built.get_u32(&key), defaulted.get_u32(&key));
}

#[test]
fn keys_compare_structurally() {
    let standard: CharGroups<u32> = CharGroups::from(EmojiGroups::Smile);
    assert_eq!(standard, CharGroups::Standard(EmojiGroups::Smile));
    let custom = CharGroups::custom(7u32);
    assert_eq!(custom, CharGroups::Custom(7));
    assert_ne!(standard, custom);
    let converted: CharGroups<u32> = EmojiGroups::Crab.into();
    assert_eq!(converted, CharGroups::Standard(EmojiGroups::Crab));
}
