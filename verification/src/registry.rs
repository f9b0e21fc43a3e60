//! The group registry: a keyed table from group keys to ordered code-point
//! sequences, with accessors for the raw code points and for their decoded
//! characters.
//!
//! The table is modelled as a [`Map`] from keys to code-point sequences.
//! Inserting under an existing key replaces its whole sequence; lookups on
//! absent keys return nothing. Decoding substitutes the space character for
//! any stored value that is not a Unicode scalar value, so the decoded
//! sequence always has one character per stored code point.

use vstd::prelude::*;

use crate::groups::CharGroups;
use crate::groups::CustomKey;
use crate::groups::EmojiGroups;
use crate::groups::codepoints_of;
use crate::groups::create_all;
use crate::groups::create_arrows;
use crate::groups::create_bold_large_letters;
use crate::groups::create_cards;
use crate::groups::create_clock;
use crate::groups::create_crab;
use crate::groups::create_earth;
use crate::groups::create_emojis;
use crate::groups::create_hdominos;
use crate::groups::create_jap;
use crate::groups::create_letter_ball_solid;
use crate::groups::create_letter_cube_solid;
use crate::groups::create_moon;
use crate::groups::create_plant;
use crate::groups::create_shape;
use crate::groups::create_smile;
use crate::groups::create_vdominos;
use crate::groups::lemma_codepoints_nonempty;

verus! {

/// A code point that can stand alone as a character: any value outside the
/// surrogate range and no greater than the largest Unicode scalar value.
pub open spec fn is_scalar_value(n: u32) -> bool {
    n < 0xD800 || (0xE000 <= n && n <= 0x10FFFF)
}

/// The character a stored code point decodes to: itself when it is a valid
/// scalar value, and the space character otherwise.
pub open spec fn decode_codepoint(n: u32) -> char {
    if is_scalar_value(n) {
        n as char
    } else {
        ' '
    }
}

/// Pointwise decoding of a whole code-point sequence; the length is kept.
pub open spec fn decode_all(s: Seq<u32>) -> Seq<char> {
    s.map_values(|n: u32| decode_codepoint(n))
}

/// Relies on char::from_u32: it returns the character with the given value
/// exactly on Unicode scalar values, and nothing otherwise.
pub assume_specification[ char::from_u32 ](n: u32) -> (r: Option<char>)
    ensures
        r == (if is_scalar_value(n) {
            Some(n as char)
        } else {
            None::<char>
        }),
;

/// The table a fresh registry holds: every built-in group, under its
/// `Standard` key, with its fixed code points.
pub open spec fn builtin_groups<T>() -> Map<CharGroups<T>, Seq<u32>> {
    Map::new(
        |k: CharGroups<T>| k is Standard,
        |k: CharGroups<T>| codepoints_of(k->Standard_0),
    )
}

/// True when some entry of `s` carries the key `k`.
spec fn has_key<T>(s: Seq<(CharGroups<T>, Vec<u32>)>, k: CharGroups<T>) -> bool {
    exists|i: int| 0 <= i < s.len() && s[i].0 == k
}

/// An index of an entry of `s` carrying the key `k`.
spec fn index_of_key<T>(s: Seq<(CharGroups<T>, Vec<u32>)>, k: CharGroups<T>) -> int {
    choose|i: int| 0 <= i < s.len() && s[i].0 == k
}

/// The registry: a table from group keys to ordered code-point sequences.
///
/// A fresh registry holds every built-in group; `add` inserts further
/// entries or replaces existing ones whole.
pub struct EZEmojis<T: CustomKey> {
    list: Vec<(CharGroups<T>, Vec<u32>)>,
}

impl<T: CustomKey> EZEmojis<T> {
    /// Each key appears in at most one entry.
    #[verifier::type_invariant]
    spec fn wf(self) -> bool {
        forall|i: int, j: int|
            0 <= i < j < self.list@.len() ==> self.list@[i].0 != self.list@[j].0
    }
}

impl<T: CustomKey> View for EZEmojis<T> {
    type V = Map<CharGroups<T>, Seq<u32>>;

    closed spec fn view(&self) -> Map<CharGroups<T>, Seq<u32>> {
        Map::new(
            |k: CharGroups<T>| has_key(self.list@, k),
            |k: CharGroups<T>| self.list@[index_of_key(self.list@, k)].1@,
        )
    }
}

/// An entry of a duplicate-free list is what the table view returns.
proof fn lemma_view_entry<T: CustomKey>(r: &EZEmojis<T>, i: int)
    requires
        r.wf(),
        0 <= i < r.list@.len(),
    ensures
        r@.contains_key(r.list@[i].0),
        r@[r.list@[i].0] == r.list@[i].1@,
{
    let s = r.list@;
    let k = s[i].0;
    assert(has_key(s, k));
    let j = index_of_key(s, k);
    if j < i {
        assert(s[j].0 != s[i].0);
    } else if i < j {
        assert(s[i].0 != s[j].0);
    }
}

/// A key carried by no entry is absent from the table view.
proof fn lemma_view_absent<T: CustomKey>(r: &EZEmojis<T>, k: CharGroups<T>)
    requires
        forall|j: int| 0 <= j < r.list@.len() ==> r.list@[j].0 != k,
    ensures
        !r@.contains_key(k),
{
}

impl<T: CustomKey> EZEmojis<T> {
    /// The index of the entry carrying `key`, if one exists.
    fn find_index(&self, key: &CharGroups<T>) -> (r: Option<usize>)
        ensures
            match r {
                Some(i) => i < self.list@.len() && self.list@[i as int].0 == *key,
                None => forall|j: int| 0 <= j < self.list@.len() ==> self.list@[j].0 != *key,
            },
    {
        let mut n: usize = 0;
        while n < self.list.len()
            invariant
                n <= self.list@.len(),
                forall|j: int| 0 <= j < n ==> self.list@[j].0 != *key,
            decreases self.list@.len() - n,
        {
            if self.list[n].0.same_as(key) {
                return Some(n);
            }
            n = n + 1;
        }
        None
    }

    /// Inserts or replaces the sequence stored under `key`: the table after
    /// the call maps `key` to `value` and every other key as before.
    pub fn add(&mut self, key: CharGroups<T>, value: Vec<u32>)
        ensures
            final(self)@ == old(self)@.insert(key, value@),
    {
        proof {
            use_type_invariant(&*self);
        }
        let ghost olds = old(self).list@;
        let found = self.find_index(&key);
        let mut list: Vec<(CharGroups<T>, Vec<u32>)> = Vec::new();
        core::mem::swap(&mut list, &mut self.list);
        match found {
            Some(i) => {
                let ghost ii = i as int;
                list.remove(i);
                proof {
                    let mids = list@;
                    assert forall|j: int| 0 <= j < mids.len() implies (#[trigger] mids[j]
                        == olds[j] && j < olds.len()) || (mids[j] == olds[j + 1] && j + 1
                        < olds.len()) by {
                        if j < ii {
                            assert(mids[j] == olds[j]);
                        } else {
                            assert(mids[j] == olds[j + 1]);
                        }
                    };
                    assert forall|j: int| 0 <= j < mids.len() implies (#[trigger] mids[j]).0
                        != key by {
                        if j < ii {
                            assert(mids[j] == olds[j]);
                            assert(olds[j].0 != olds[ii].0);
                        } else {
                            assert(mids[j] == olds[j + 1]);
                            assert(olds[ii].0 != olds[j + 1].0);
                        }
                    };
                    assert forall|x: int, y: int| 0 <= x < y < mids.len() implies (
                    #[trigger] mids[x]).0 != (#[trigger] mids[y]).0 by {
                        if y < ii {
                            assert(mids[x] == olds[x] && mids[y] == olds[y]);
                        } else if x < ii {
                            assert(mids[x] == olds[x] && mids[y] == olds[y + 1]);
                        } else {
                            assert(mids[x] == olds[x + 1] && mids[y] == olds[y + 1]);
                        }
                    };
                    assert forall|k: CharGroups<T>| has_key(olds, k) && k != key implies
                        #[trigger] has_key(mids, k) by {
                        let c = index_of_key(olds, k);
                        if c < ii {
                            assert(mids[c] == olds[c]);
                        } else if c == ii {
                            assert(false);
                        } else {
                            assert(mids[c - 1] == olds[c]);
                        }
                    };
                }
            },
            None => {
                proof {
                    let mids = list@;
                    assert forall|j: int| 0 <= j < mids.len() implies (#[trigger] mids[j]
                        == olds[j] && j < olds.len()) || (mids[j] == olds[j + 1] && j + 1
                        < olds.len()) by {};
                    assert(forall|j: int| 0 <= j < mids.len() ==> (#[trigger] mids[j]).0 != key);
                    assert(forall|x: int, y: int|
                        0 <= x < y < mids.len() ==> (#[trigger] mids[x]).0 != (
                        #[trigger] mids[y]).0);
                    assert forall|k: CharGroups<T>| has_key(olds, k) && k != key implies
                        #[trigger] has_key(mids, k) by {
                        let c = index_of_key(olds, k);
                        assert(mids[c] == olds[c]);
                    };
                }
            },
        }
        let ghost mids = list@;
        list.push((key, value));
        proof {
            let news = list@;
            assert forall|x: int, y: int| 0 <= x < y < news.len() implies news[x].0 != news[y].0 by {
                if y == news.len() - 1 {
                    assert(news[x] == mids[x]);
                    assert(mids[x].0 != key);
                } else {
                    assert(news[x] == mids[x] && news[y] == mids[y]);
                }
            };
        }
        core::mem::swap(&mut list, &mut self.list);
        proof {
            let news = self.list@;
            let oldm = old(self)@;
            assert(self.wf());
            lemma_view_entry(&*self, news.len() - 1);
            assert forall|k: CharGroups<T>| #[trigger] self@.contains_key(k) && k != key implies
                oldm.contains_key(k) && self@[k] == oldm[k] by {
                assert(has_key(news, k));
                let a = index_of_key(news, k);
                assert(0 <= a < news.len() && news[a].0 == k);
                assert(a != news.len() - 1);
                assert(news[a] == mids[a]);
                let c: int = if mids[a] == olds[a] {
                    a
                } else {
                    a + 1
                };
                assert(0 <= c < olds.len() && olds[c] == mids[a]);
                assert(has_key(olds, k));
                let d = index_of_key(olds, k);
                assert(0 <= d < olds.len() && olds[d].0 == k);
                if d < c {
                    assert(olds[d].0 != olds[c].0);
                } else if c < d {
                    assert(olds[c].0 != olds[d].0);
                }
                assert(oldm[k] == olds[c].1@);
            };
            assert forall|k: CharGroups<T>| #[trigger] oldm.contains_key(k) && k != key implies
                self@.contains_key(k) by {
                assert(has_key(olds, k));
                assert(has_key(mids, k));
                let j = index_of_key(mids, k);
                assert(news[j] == mids[j]);
                assert(has_key(news, k));
            };
            assert(self@ =~= oldm.insert(key, value@));
        }
    }

    /// Returns the decoded characters stored under `key`, one character per
    /// code point, or nothing when `key` is absent.
    pub fn get_char(&self, key: &CharGroups<T>) -> (r: Option<Vec<char>>)
        ensures
            match r {
                Some(cs) => self@.contains_key(*key) && cs@ == decode_all(self@[*key]),
                None => !self@.contains_key(*key),
            },
    {
        proof {
            use_type_invariant(&*self);
        }
        match self.find_index(key) {
            Some(i) => {
                proof {
                    lemma_view_entry(self, i as int);
                }
                Some(decode_vec(&self.list[i].1))
            },
            None => {
                proof {
                    lemma_view_absent(self, *key);
                }
                None
            },
        }
    }

    /// Returns the raw code points stored under `key`, or nothing when
    /// `key` is absent.
    pub fn get_u32(&self, key: &CharGroups<T>) -> (r: Option<&Vec<u32>>)
        ensures
            match r {
                Some(v) => self@.contains_key(*key) && v@ == self@[*key],
                None => !self@.contains_key(*key),
            },
    {
        proof {
            use_type_invariant(&*self);
        }
        match self.find_index(key) {
            Some(i) => {
                proof {
                    lemma_view_entry(self, i as int);
                }
                Some(&self.list[i].1)
            },
            None => {
                proof {
                    lemma_view_absent(self, *key);
                }
                None
            },
        }
    }
}

impl<T: CustomKey> Default for EZEmojis<T> {
    /// A fresh registry holds exactly the built-in groups.
    fn default() -> (r: Self)
        ensures
            r@ == builtin_groups::<T>(),
    {
        create_emoji_data()
    }
}

/// Decodes every code point of `v`, substituting the space character for
/// values that are not Unicode scalar values.
fn decode_vec(v: &Vec<u32>) -> (r: Vec<char>)
    ensures
        r@ == decode_all(v@),
{
    let mut out: Vec<char> = Vec::new();
    proof {
        assert(out@ =~= decode_all(v@.take(0)));
    }
    let mut n: usize = 0;
    while n < v.len()
        invariant
            n <= v@.len(),
            out@ == decode_all(v@.take(n as int)),
        decreases v@.len() - n,
    {
        let c = char::from_u32(v[n]).unwrap_or(' ');
        out.push(c);
        proof {
            assert(out@ =~= decode_all(v@.take(n as int + 1)));
        }
        n = n + 1;
    }
    proof {
        assert(v@.take(v@.len() as int) =~= v@);
    }
    out
}

/// Builds the registry table holding every built-in group.
pub fn create_emoji_data<T: CustomKey>() -> (r: EZEmojis<T>)
    ensures
        r@ == builtin_groups::<T>(),
{
    let mut r = EZEmojis::<T> { list: Vec::new() };
    r.add(EmojiGroups::Emojis.into(), create_emojis());
    r.add(EmojiGroups::Smile.into(), create_smile());
    r.add(EmojiGroups::Japanese.into(), create_jap());
    r.add(EmojiGroups::Moon.into(), create_moon());
    r.add(EmojiGroups::Earth.into(), create_earth());
    r.add(EmojiGroups::Plant.into(), create_plant());
    r.add(EmojiGroups::Clock.into(), create_clock());
    r.add(EmojiGroups::Shape.into(), create_shape());
    r.add(EmojiGroups::Arrow.into(), create_arrows());
    r.add(EmojiGroups::HorizontalDominos.into(), create_hdominos());
    r.add(EmojiGroups::VerticalDominos.into(), create_vdominos());
    r.add(EmojiGroups::Cards.into(), create_cards());
    r.add(EmojiGroups::NumberedBalls.into(), create_letter_ball_solid());
    r.add(EmojiGroups::NumberedCubes.into(), create_letter_cube_solid());
    r.add(EmojiGroups::LargeLetter.into(), create_bold_large_letters());
    r.add(EmojiGroups::Crab.into(), create_crab());
    r.add(EmojiGroups::All.into(), create_all());
    proof {
        assert forall|k: CharGroups<T>| #[trigger] builtin_groups::<T>().contains_key(k) implies
            r@.contains_key(k) && r@[k] == builtin_groups::<T>()[k] by {
            let g = k->Standard_0;
            assert(k == CharGroups::<T>::Standard(g));
        };
        assert(r@ =~= builtin_groups::<T>());
    }
    r
}

/// A fresh registry holds every built-in group, with at least one code
/// point.
pub proof fn lemma_builtin_groups_nonempty<T>(g: EmojiGroups)
    ensures
        builtin_groups::<T>().contains_key(CharGroups::Standard(g)),
        builtin_groups::<T>()[CharGroups::Standard(g)] == codepoints_of(g),
        codepoints_of(g).len() > 0,
{
    lemma_codepoints_nonempty(g);
}

/// Decoding preserves length: the decoded sequence holds one character per
/// stored code point.
pub proof fn lemma_decode_preserves_length(s: Seq<u32>)
    ensures
        decode_all(s).len() == s.len(),
{
}

/// Decode substitution: a value that is not a Unicode scalar value decodes
/// to the space character at its own position, while a valid value keeps
/// its numeric value; positions never shift.
pub proof fn lemma_decode_substitution(s: Seq<u32>, i: int)
    requires
        0 <= i < s.len(),
    ensures
        is_scalar_value(s[i]) ==> decode_all(s)[i] as u32 == s[i],
        !is_scalar_value(s[i]) ==> decode_all(s)[i] == ' ',
{
}

/// Adding the same key and sequence twice leaves the same table as adding
/// it once.
pub proof fn lemma_add_idempotent<T>(
    m: Map<CharGroups<T>, Seq<u32>>,
    k: CharGroups<T>,
    v: Seq<u32>,
)
    ensures
        m.insert(k, v).insert(k, v) == m.insert(k, v),
{
    assert(m.insert(k, v).insert(k, v) =~= m.insert(k, v));
}

/// The last write wins: adding under a key replaces the whole stored
/// sequence, with no merging.
pub proof fn lemma_add_overwrites<T>(
    m: Map<CharGroups<T>, Seq<u32>>,
    k: CharGroups<T>,
    v1: Seq<u32>,
    v2: Seq<u32>,
)
    ensures
        m.insert(k, v1).insert(k, v2) == m.insert(k, v2),
{
    assert(m.insert(k, v1).insert(k, v2) =~= m.insert(k, v2));
}

} // verus!
