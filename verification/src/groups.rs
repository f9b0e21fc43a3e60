//! Group keys and the built-in category builders.
//!
//! A group is identified by a [`CharGroups`] key: either one of the built-in
//! [`EmojiGroups`] categories, or a caller-supplied custom key. Each built-in
//! category is a fixed, ordered sequence of Unicode code points, given by a
//! builder function and pinned down by the spec functions in this module.

use vstd::prelude::*;

verus! {

/// The built-in character groups.
///
/// Each variant names a curated block of Unicode code points; `All` is a
/// fixed concatenation of most (deliberately not all) of the other groups.
#[derive(Debug, Clone, Copy, Hash, PartialEq, Eq, Structural)]
pub enum EmojiGroups {
    Emojis,
    Japanese,
    Smile,
    Moon,
    Earth,
    Plant,
    Clock,
    Shape,
    Arrow,
    HorizontalDominos,
    VerticalDominos,
    Cards,
    NumberedBalls,
    NumberedCubes,
    LargeLetter,
    Crab,
    All,
}

/// A registry key: a built-in group or a caller-defined custom group.
///
/// Keys compare structurally: two `Standard` keys are equal exactly when
/// their groups match, and a `Standard` key never equals a `Custom` key.
#[derive(Debug, Clone, Copy, Hash, PartialEq, Eq)]
pub enum CharGroups<T> {
    /// One of the built-in groups.
    Standard(EmojiGroups),
    /// A caller-defined group.
    Custom(T),
}

/// The capability a custom key type must supply to serve as a registry key:
/// an executable equality test that agrees with logical equality.
pub trait CustomKey: Sized {
    /// Decides equality of two keys, agreeing with logical equality.
    fn eq_key(&self, other: &Self) -> (r: bool)
        ensures
            r == (self == other),
    ;
}

impl CustomKey for u32 {
    fn eq_key(&self, other: &Self) -> (r: bool) {
        *self == *other
    }
}

impl CustomKey for u64 {
    fn eq_key(&self, other: &Self) -> (r: bool) {
        *self == *other
    }
}

impl<T> From<EmojiGroups> for CharGroups<T> {
    fn from(v: EmojiGroups) -> Self {
        CharGroups::Standard(v)
    }
}

impl<T> vstd::std_specs::convert::FromSpecImpl<EmojiGroups> for CharGroups<T> {
    open spec fn obeys_from_spec() -> bool {
        true
    }

    open spec fn from_spec(v: EmojiGroups) -> Self {
        CharGroups::Standard(v)
    }
}

impl<T> CharGroups<T> {
    /// Wraps a caller-defined key.
    pub fn custom(v: T) -> (r: Self)
        ensures
            r == CharGroups::<T>::Custom(v),
    {
        CharGroups::Custom(v)
    }
}

impl<T: CustomKey> CharGroups<T> {
    /// Decides equality of two keys, agreeing with logical equality.
    pub fn same_as(&self, other: &Self) -> (r: bool)
        ensures
            r == (self == other),
    {
        match (self, other) {
            (CharGroups::Standard(a), CharGroups::Standard(b)) => *a == *b,
            (CharGroups::Custom(a), CharGroups::Custom(b)) => a.eq_key(b),
            _ => false,
        }
    }
}

/// The inclusive range of code points `[lo, hi]`, in increasing order;
/// empty when `lo > hi`.
pub open spec fn codepoint_range(lo: int, hi: int) -> Seq<u32> {
    Seq::new(if lo <= hi { (hi + 1 - lo) as nat } else { 0 }, |j: int| (lo + j) as u32)
}

/// Supplemental symbols and pictographs: three adjacent blocks.
pub open spec fn emojis_codepoints() -> Seq<u32> {
    codepoint_range(129292, 129400) + codepoint_range(129402, 129482) + codepoint_range(
        129484,
        129535,
    )
}

/// Halfwidth Katakana letters and punctuation.
pub open spec fn japanese_codepoints() -> Seq<u32> {
    codepoint_range(65382, 65437)
}

/// The block of smiling faces.
pub open spec fn smile_codepoints() -> Seq<u32> {
    codepoint_range(128512, 128518)
}

/// Moon phase symbols.
pub open spec fn moon_codepoints() -> Seq<u32> {
    codepoint_range(127760, 127773)
}

/// Globe symbols.
pub open spec fn earth_codepoints() -> Seq<u32> {
    codepoint_range(127757, 127760)
}

/// Plant symbols.
pub open spec fn plant_codepoints() -> Seq<u32> {
    codepoint_range(127793, 127827)
}

/// Clock face symbols.
pub open spec fn clock_codepoints() -> Seq<u32> {
    codepoint_range(128336, 128359)
}

/// Coloured geometric shapes.
pub open spec fn shape_codepoints() -> Seq<u32> {
    codepoint_range(128992, 129003)
}

/// Arrow symbols; the fixed contents of this group repeat one block.
pub open spec fn arrow_codepoints() -> Seq<u32> {
    codepoint_range(129024, 129035) + codepoint_range(129040, 129095) + codepoint_range(
        129168,
        129195,
    ) + codepoint_range(129168, 129195) + codepoint_range(129104, 129113)
}

/// Horizontal domino tiles.
pub open spec fn horizontal_dominos_codepoints() -> Seq<u32> {
    codepoint_range(127024, 127073)
}

/// Vertical domino tiles.
pub open spec fn vertical_dominos_codepoints() -> Seq<u32> {
    codepoint_range(127074, 127123)
}

/// Playing cards of the heart suit.
pub open spec fn hearts_codepoints() -> Seq<u32> {
    codepoint_range(127137, 127166)
}

/// Playing cards of the diamond suit.
pub open spec fn diamonds_codepoints() -> Seq<u32> {
    codepoint_range(127169, 127182)
}

/// Playing cards of the club suit.
pub open spec fn clubs_codepoints() -> Seq<u32> {
    codepoint_range(127185, 127198)
}

/// All playing cards: hearts, then clubs, then diamonds.
pub open spec fn cards_codepoints() -> Seq<u32> {
    hearts_codepoints() + clubs_codepoints() + diamonds_codepoints()
}

/// Negative circled Latin letters.
pub open spec fn numbered_balls_codepoints() -> Seq<u32> {
    codepoint_range(127312, 127337)
}

/// Negative squared Latin letters.
pub open spec fn numbered_cubes_codepoints() -> Seq<u32> {
    codepoint_range(127344, 127369)
}

/// Regional indicator letters.
pub open spec fn large_letter_codepoints() -> Seq<u32> {
    codepoint_range(127462, 127487)
}

/// The single crab symbol.
pub open spec fn crab_codepoints() -> Seq<u32> {
    seq![129408u32]
}

/// The aggregate group: a fixed concatenation of most of the other groups,
/// deliberately omitting the emoji, Japanese and smile groups.
pub open spec fn all_codepoints() -> Seq<u32> {
    moon_codepoints() + earth_codepoints() + plant_codepoints() + clock_codepoints()
        + shape_codepoints() + arrow_codepoints() + horizontal_dominos_codepoints()
        + vertical_dominos_codepoints() + cards_codepoints() + crab_codepoints()
        + numbered_balls_codepoints() + numbered_cubes_codepoints() + large_letter_codepoints()
}

/// The ordered code points of each built-in group.
pub open spec fn codepoints_of(g: EmojiGroups) -> Seq<u32> {
    match g {
        EmojiGroups::Emojis => emojis_codepoints(),
        EmojiGroups::Japanese => japanese_codepoints(),
        EmojiGroups::Smile => smile_codepoints(),
        EmojiGroups::Moon => moon_codepoints(),
        EmojiGroups::Earth => earth_codepoints(),
        EmojiGroups::Plant => plant_codepoints(),
        EmojiGroups::Clock => clock_codepoints(),
        EmojiGroups::Shape => shape_codepoints(),
        EmojiGroups::Arrow => arrow_codepoints(),
        EmojiGroups::HorizontalDominos => horizontal_dominos_codepoints(),
        EmojiGroups::VerticalDominos => vertical_dominos_codepoints(),
        EmojiGroups::Cards => cards_codepoints(),
        EmojiGroups::NumberedBalls => numbered_balls_codepoints(),
        EmojiGroups::NumberedCubes => numbered_cubes_codepoints(),
        EmojiGroups::LargeLetter => large_letter_codepoints(),
        EmojiGroups::Crab => crab_codepoints(),
        EmojiGroups::All => all_codepoints(),
    }
}

/// Every built-in group holds at least one code point.
pub proof fn lemma_codepoints_nonempty(g: EmojiGroups)
    ensures
        codepoints_of(g).len() > 0,
{
}

/// Appends the inclusive range `[lo, hi]` of code points to `v`.
fn push_range(v: &mut Vec<u32>, lo: u32, hi: u32)
    requires
        lo <= hi,
        hi < u32::MAX,
    ensures
        final(v)@ == old(v)@ + codepoint_range(lo as int, hi as int),
{
    proof {
        assert(old(v)@ + codepoint_range(lo as int, lo as int - 1) =~= old(v)@);
    }
    let mut n: u32 = lo;
    while n <= hi
        invariant
            lo <= n <= hi + 1,
            hi < u32::MAX,
            v@ == old(v)@ + codepoint_range(lo as int, n as int - 1),
        decreases hi + 1 - n,
    {
        v.push(n);
        proof {
            assert(v@ =~= old(v)@ + codepoint_range(lo as int, n as int));
        }
        n = n + 1;
    }
}

/// Builds a vector holding the inclusive range `[lo, hi]` of code points.
fn range_vec(lo: u32, hi: u32) -> (r: Vec<u32>)
    requires
        lo <= hi,
        hi < u32::MAX,
    ensures
        r@ == codepoint_range(lo as int, hi as int),
{
    let mut r: Vec<u32> = Vec::new();
    push_range(&mut r, lo, hi);
    proof {
        assert(r@ =~= codepoint_range(lo as int, hi as int));
    }
    r
}

/// Builds the supplemental symbols and pictographs group.
pub fn create_emojis() -> (r: Vec<u32>)
    ensures
        r@ == codepoints_of(EmojiGroups::Emojis),
{
    let mut e = range_vec(129292, 129400);
    let mut second = range_vec(129402, 129482);
    e.append(&mut second);
    let mut third = range_vec(129484, 129535);
    e.append(&mut third);
    e
}

/// Builds the smiling face group.
pub fn create_smile() -> (r: Vec<u32>)
    ensures
        r@ == codepoints_of(EmojiGroups::Smile),
{
    range_vec(128512, 128518)
}

/// Builds the halfwidth Katakana group.
pub fn create_jap() -> (r: Vec<u32>)
    ensures
        r@ == codepoints_of(EmojiGroups::Japanese),
{
    range_vec(65382, 65437)
}

/// Builds the moon phase group.
pub fn create_moon() -> (r: Vec<u32>)
    ensures
        r@ == codepoints_of(EmojiGroups::Moon),
{
    range_vec(127760, 127773)
}

/// Builds the globe group.
pub fn create_earth() -> (r: Vec<u32>)
    ensures
        r@ == codepoints_of(EmojiGroups::Earth),
{
    range_vec(127757, 127760)
}

/// Builds the plant group.
pub fn create_plant() -> (r: Vec<u32>)
    ensures
        r@ == codepoints_of(EmojiGroups::Plant),
{
    range_vec(127793, 127827)
}

/// Builds the clock face group.
pub fn create_clock() -> (r: Vec<u32>)
    ensures
        r@ == codepoints_of(EmojiGroups::Clock),
{
    range_vec(128336, 128359)
}

/// Builds the coloured shape group.
pub fn create_shape() -> (r: Vec<u32>)
    ensures
        r@ == codepoints_of(EmojiGroups::Shape),
{
    range_vec(128992, 129003)
}

/// Builds the single-symbol crab group.
pub fn create_crab() -> (r: Vec<u32>)
    ensures
        r@ == codepoints_of(EmojiGroups::Crab),
{
    let mut r: Vec<u32> = Vec::new();
    r.push(129408);
    proof {
        assert(r@ =~= crab_codepoints());
    }
    r
}

/// Builds the arrow group, with its doubled block.
pub fn create_arrows() -> (r: Vec<u32>)
    ensures
        r@ == codepoints_of(EmojiGroups::Arrow),
{
    let mut a = range_vec(129024, 129035);
    let mut second = range_vec(129040, 129095);
    a.append(&mut second);
    let mut third = range_vec(129168, 129195);
    a.append(&mut third);
    let mut fourth = range_vec(129168, 129195);
    a.append(&mut fourth);
    let mut fifth = range_vec(129104, 129113);
    a.append(&mut fifth);
    a
}

/// Builds the aggregate group in its fixed concatenation order.
pub fn create_all() -> (r: Vec<u32>)
    ensures
        r@ == codepoints_of(EmojiGroups::All),
{
    let mut a = create_moon();
    let mut earth = create_earth();
    a.append(&mut earth);
    let mut plant = create_plant();
    a.append(&mut plant);
    let mut clock = create_clock();
    a.append(&mut clock);
    let mut shape = create_shape();
    a.append(&mut shape);
    let mut arrows = create_arrows();
    a.append(&mut arrows);
    let mut hdominos = create_hdominos();
    a.append(&mut hdominos);
    let mut vdominos = create_vdominos();
    a.append(&mut vdominos);
    let mut cards = create_cards();
    a.append(&mut cards);
    let mut crab = create_crab();
    a.append(&mut crab);
    let mut balls = create_letter_ball_solid();
    a.append(&mut balls);
    let mut cubes = create_letter_cube_solid();
    a.append(&mut cubes);
    let mut letters = create_bold_large_letters();
    a.append(&mut letters);
    a
}

/// Builds the horizontal domino group.
pub fn create_hdominos() -> (r: Vec<u32>)
    ensures
        r@ == codepoints_of(EmojiGroups::HorizontalDominos),
{
    range_vec(127024, 127073)
}

/// Builds the vertical domino group.
pub fn create_vdominos() -> (r: Vec<u32>)
    ensures
        r@ == codepoints_of(EmojiGroups::VerticalDominos),
{
    range_vec(127074, 127123)
}

/// Builds the heart suit of playing cards.
pub fn create_cards_hearts() -> (r: Vec<u32>)
    ensures
        r@ == hearts_codepoints(),
{
    range_vec(127137, 127166)
}

/// Builds the diamond suit of playing cards.
pub fn create_cards_diamonds() -> (r: Vec<u32>)
    ensures
        r@ == diamonds_codepoints(),
{
    range_vec(127169, 127182)
}

/// Builds the club suit of playing cards.
pub fn create_cards_clubs() -> (r: Vec<u32>)
    ensures
        r@ == clubs_codepoints(),
{
    range_vec(127185, 127198)
}

/// Builds the playing card group: hearts, then clubs, then diamonds.
pub fn create_cards() -> (r: Vec<u32>)
    ensures
        r@ == codepoints_of(EmojiGroups::Cards),
{
    let mut h = create_cards_hearts();
    let mut clubs = create_cards_clubs();
    h.append(&mut clubs);
    let mut diamonds = create_cards_diamonds();
    h.append(&mut diamonds);
    h
}

/// Builds the circled letter group.
pub fn create_letter_ball_solid() -> (r: Vec<u32>)
    ensures
        r@ == codepoints_of(EmojiGroups::NumberedBalls),
{
    range_vec(127312, 127337)
}

/// Builds the squared letter group.
pub fn create_letter_cube_solid() -> (r: Vec<u32>)
    ensures
        r@ == codepoints_of(EmojiGroups::NumberedCubes),
{
    range_vec(127344, 127369)
}

/// Builds the regional indicator letter group.
pub fn create_bold_large_letters() -> (r: Vec<u32>)
    ensures
        r@ == codepoints_of(EmojiGroups::LargeLetter),
{
    range_vec(127462, 127487)
}

} // verus!
