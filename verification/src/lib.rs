//! A registry of character groups: named collections of Unicode code points
//! (emoji blocks, card suits, dominoes, and so on) that can be looked up
//! either as raw `u32` code points or as decoded characters. Callers may
//! extend the registry with their own groups under custom keys.

mod groups;
mod registry;

pub use groups::CharGroups;
pub use groups::CustomKey;
pub use groups::EmojiGroups;
pub use groups::all_codepoints;
pub use groups::arrow_codepoints;
pub use groups::cards_codepoints;
pub use groups::clock_codepoints;
pub use groups::clubs_codepoints;
pub use groups::codepoint_range;
pub use groups::codepoints_of;
pub use groups::crab_codepoints;
pub use groups::create_all;
pub use groups::create_arrows;
pub use groups::create_bold_large_letters;
pub use groups::create_cards;
pub use groups::create_cards_clubs;
pub use groups::create_cards_diamonds;
pub use groups::create_cards_hearts;
pub use groups::create_clock;
pub use groups::create_crab;
pub use groups::create_earth;
pub use groups::create_emojis;
pub use groups::create_hdominos;
pub use groups::create_jap;
pub use groups::create_letter_ball_solid;
pub use groups::create_letter_cube_solid;
pub use groups::create_moon;
pub use groups::create_plant;
pub use groups::create_shape;
pub use groups::create_smile;
pub use groups::create_vdominos;
pub use groups::diamonds_codepoints;
pub use groups::earth_codepoints;
pub use groups::emojis_codepoints;
pub use groups::hearts_codepoints;
pub use groups::horizontal_dominos_codepoints;
pub use groups::japanese_codepoints;
pub use groups::large_letter_codepoints;
pub use groups::lemma_codepoints_nonempty;
pub use groups::moon_codepoints;
pub use groups::numbered_balls_codepoints;
pub use groups::numbered_cubes_codepoints;
pub use groups::plant_codepoints;
pub use groups::shape_codepoints;
pub use groups::smile_codepoints;
pub use groups::vertical_dominos_codepoints;
pub use registry::EZEmojis;
pub use registry::builtin_groups;
pub use registry::create_emoji_data;
pub use registry::decode_all;
pub use registry::decode_codepoint;
pub use registry::is_scalar_value;
pub use registry::lemma_add_idempotent;
pub use registry::lemma_add_overwrites;
pub use registry::lemma_builtin_groups_nonempty;
pub use registry::lemma_decode_preserves_length;
pub use registry::lemma_decode_substitution;
