use ezemoji::create_all;
use ezemoji::create_arrows;
use ezemoji::create_bold_large_letters;
use ezemoji::create_cards;
use ezemoji::create_cards_clubs;
use ezemoji::create_cards_diamonds;
use ezemoji::create_cards_hearts;
use ezemoji::create_clock;
use ezemoji::create_crab;
use ezemoji::create_earth;
use ezemoji::create_emojis;
use ezemoji::create_hdominos;
use ezemoji::create_jap;
use ezemoji::create_letter_ball_solid;
use ezemoji::create_letter_cube_solid;
use ezemoji::create_moon;
use ezemoji::create_plant;
use ezemoji::create_shape;
use ezemoji::create_smile;
use ezemoji::create_vdominos;

fn range(lo: u32, hi: u32) -> Vec<u32> {
    (lo..=hi).collect()
}

#[test]
fn smile_is_the_seven_smiling_faces() {
    assert_eq!(
        create_smile(),
        vec![128512, 128513, 128514, 128515, 128516, 128517, 128518]
    );
}

#[test]
fn crab_is_the_single_crab_symbol() {
    assert_eq!(create_crab(), vec![129408]);
}

#[test]
fn emojis_concatenates_three_blocks() {
    let mut expected = range(129292, 129400);
    expected.extend(range(129402, 129482));
    expected.extend(range(129484, 129535));
    assert_eq!(create_emojis(), expected);
}

#[test]
fn japanese_block_boundaries() {
    let v = create_jap();
    assert_eq!(v.first(), Some(&65382));
    assert_eq!(v.last(), Some(&65437));
    assert_eq!(v.len(), 56);
}

#[test]
fn simple_range_groups() {
    assert_eq!(create_moon(), range(127760, 127773));
    assert_eq!(create_earth(), range(127757, 127760));
    assert_eq!(create_plant(), range(127793, 127827));
    assert_eq!(create_clock(), range(128336, 128359));
    assert_eq!(create_shape(), range(128992, 129003));
    assert_eq!(create_hdominos(), range(127024, 127073));
    assert_eq!(create_vdominos(), range(127074, 127123));
    assert_eq!(create_letter_ball_solid(), range(127312, 127337));
    assert_eq!(create_letter_cube_solid(), range(127344, 127369));
    assert_eq!(create_bold_large_letters(), range(127462, 127487));
}

#[test]
fn card_suits() {
    assert_eq!(create_cards_hearts(), range(127137, 127166));
    assert_eq!(create_cards_diamonds(), range(127169, 127182));
    assert_eq!(create_cards_clubs(), range(127185, 127198));
}

#[test]
fn cards_are_hearts_then_clubs_then_diamonds() {
    let mut expected = range(127137, 127166);
    expected.extend(range(127185, 127198));
    expected.extend(range(127169, 127182));
    assert_eq!(create_cards(), expected);
}

#[test]
fn arrows_hold_one_block_twice() {
    let mut expected = range(129024, 129035);
    expected.extend(range(129040, 129095));
    expected.extend(range(129168, 129195));
    expected.extend(range(129168, 129195));
    expected.extend(range(129104, 129113));
    let arrows = create_arrows();
    assert_eq!(arrows, expected);
    assert_eq!(arrows.len(), 134);
}

#[test]
fn all_concatenates_the_groups_in_order() {
    let mut expected = create_moon();
    expected.extend(create_earth());
    expected.extend(create_plant());
    expected.extend(create_clock());
    expected.extend(create_shape());
    expected.extend(create_arrows());
    expected.extend(create_hdominos());
    expected.extend(create_vdominos());
    expected.extend(create_cards());
    expected.extend(create_crab());
    expected.extend(create_letter_ball_solid());
    expected.extend(create_letter_cube_solid());
    expected.extend(create_bold_large_letters());
    let all = create_all();
    assert_eq!(all, expected);
    assert_eq!(all.len(), 460);
    assert_eq!(all.first(), Some(&127760));
    assert_eq!(all.last(), Some(&127487));
}
