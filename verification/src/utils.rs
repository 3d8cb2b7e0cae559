//! Row-aligned image geometry and the path-keyed multimap of the watch
//! registry.

use vstd::prelude::*;
use vstd::arithmetic::div_mod::{
    lemma_fundamental_div_mod, lemma_mod_multiples_basic, lemma_small_mod,
};

verus! {

/// Bytes taken by one texel of the four-channel, eight-bit formats that are
/// copied between textures and host buffers.
pub const BYTES_PER_PIXEL: u32 = 4;

/// Bytes of one tightly packed row of `width` texels.
pub open spec fn unpadded_stride(width: nat) -> nat {
    4 * width
}

/// `stride` is a legal padded row stride for `width` texels under `align`:
/// a multiple of `align` that holds the row and wastes less than one
/// alignment unit.
pub open spec fn is_padded_stride(stride: nat, width: nat, align: nat) -> bool {
    &&& stride % align == 0
    &&& unpadded_stride(width) <= stride
    &&& stride < unpadded_stride(width) + align
}

/// The padded row stride: the least multiple of `align` that is not below
/// the unpadded stride.
pub open spec fn padded_stride(width: nat, align: nat) -> nat
    recommends
        align > 0,
{
    (((unpadded_stride(width) + align - 1) / (align as int)) * align) as nat
}

/// Bytes of a linear buffer that holds `height` rows of `width` texels, each
/// row padded to `align`.
pub open spec fn linear_size(width: nat, height: nat, align: nat) -> nat
    recommends
        align > 0,
{
    padded_stride(width, align) * height
}

/// The padded stride is a multiple of the alignment, holds the unpadded row,
/// and exceeds it by less than one alignment unit.
pub proof fn lemma_padded_stride_is_padded(width: nat, align: nat)
    requires
        align > 0,
    ensures
        is_padded_stride(padded_stride(width, align), width, align),
{
    let n = (unpadded_stride(width) + align - 1) as int;
    let a = align as int;
    lemma_fundamental_div_mod(n, a);
    lemma_mod_multiples_basic(n / a, a);
    assert((n / a) * a == a * (n / a)) by (nonlinear_arith);
    assert(0 <= n % a < a);
}

/// Only one stride is a legal padded stride: any two agree.
pub proof fn lemma_padded_stride_unique(s1: nat, s2: nat, width: nat, align: nat)
    requires
        align > 0,
        is_padded_stride(s1, width, align),
        is_padded_stride(s2, width, align),
    ensures
        s1 == s2,
{
    if s1 < s2 {
        lemma_multiples_apart(s1 as int, s2 as int, align as int);
    } else if s2 < s1 {
        lemma_multiples_apart(s2 as int, s1 as int, align as int);
    }
}

/// Two distinct multiples of `a` are at least `a` apart.
proof fn lemma_multiples_apart(x: int, y: int, a: int)
    requires
        a > 0,
        0 <= x < y,
        x % a == 0,
        y % a == 0,
    ensures
        y - x >= a,
{
    lemma_fundamental_div_mod(x, a);
    lemma_fundamental_div_mod(y, a);
    let p = x / a;
    let q = y / a;
    assert(p < q) by (nonlinear_arith)
        requires
            a > 0,
            a * p < a * q,
    ;
    assert(a * q - a * p >= a) by (nonlinear_arith)
        requires
            a > 0,
            p + 1 <= q,
    ;
}

/// Tells whether the padded row stride of `width` texels under `align` can
/// be held in 32 bits, as `ImageDimentions` holds it.
pub fn stride_fits(width: u32, align: u32) -> (fits: bool)
    requires
        align > 0,
    ensures
        fits == (padded_stride(width as nat, align as nat) <= u32::MAX),
{
    assert(width * BYTES_PER_PIXEL <= 4 * u32::MAX);
    let unpadded: u64 = width as u64 * BYTES_PER_PIXEL as u64;
    let rounded: u64 = (unpadded + align as u64 - 1) / align as u64;
    assert(rounded * align <= unpadded + align - 1) by {
        lemma_fundamental_div_mod((unpadded + align - 1) as int, align as int);
        assert(rounded * align == align * rounded) by (nonlinear_arith);
    }
    rounded * align as u64 <= u32::MAX as u64
}

/// Byte layout of a `width` by `height` image whose rows are padded to a
/// required alignment.
#[derive(Debug, Clone, Copy, PartialEq, Eq, Structural)]
pub struct ImageDimentions {
    pub width: u32,
    pub height: u32,
    pub unpadded_bytes_per_row: u32,
    pub padded_bytes_per_row: u32,
}

impl ImageDimentions {
    /// The strides are the ones that `width` and `align` determine.
    pub open spec fn wf(&self, align: nat) -> bool {
        &&& align > 0
        &&& self.unpadded_bytes_per_row == unpadded_stride(self.width as nat)
        &&& self.padded_bytes_per_row == padded_stride(self.width as nat, align)
    }

    /// Bytes of the linear buffer that holds the whole image: the padded
    /// row stride times the height.
    pub open spec fn spec_linear_size(&self) -> nat {
        (self.padded_bytes_per_row * self.height) as nat
    }

    /// Lays out a `width` by `height` image with rows padded to `align`.
    pub fn new(width: u32, height: u32, align: u32) -> (dims: Self)
        requires
            align > 0,
            padded_stride(width as nat, align as nat) <= u32::MAX,
        ensures
            dims.width == width,
            dims.height == height,
            dims.wf(align as nat),
            is_padded_stride(dims.padded_bytes_per_row as nat, width as nat, align as nat),
            dims.spec_linear_size() == linear_size(width as nat, height as nat, align as nat),
    {
        proof {
            lemma_padded_stride_is_padded(width as nat, align as nat);
        }
        let unpadded_bytes_per_row: u32 = width * BYTES_PER_PIXEL;
        let rest: u32 = unpadded_bytes_per_row % align;
        proof {
            if rest != 0 {
                lemma_small_mod((align - rest) as nat, align as nat);
            } else {
                lemma_mod_multiples_basic(1, align as int);
            }
        }
        let row_padding: u32 = (align - rest) % align;
        proof {
            let u = unpadded_bytes_per_row as int;
            let a = align as int;
            lemma_fundamental_div_mod(u, a);
            if rest != 0 {
                lemma_mod_multiples_basic(u / a + 1, a);
                assert((u / a + 1) * a == a * (u / a) + a) by (nonlinear_arith);
            }
            lemma_padded_stride_unique(
                (u + row_padding) as nat,
                padded_stride(width as nat, align as nat),
                width as nat,
                align as nat,
            );
        }
        let padded_bytes_per_row: u32 = unpadded_bytes_per_row + row_padding;
        Self { width, height, unpadded_bytes_per_row, padded_bytes_per_row }
    }

    /// Bytes of the linear buffer that holds the whole image: the padded
    /// row stride times the height.
    pub fn linear_size(&self) -> (size: u64)
        ensures
            size == self.spec_linear_size(),
    {
        assert(self.padded_bytes_per_row * self.height <= u32::MAX * u32::MAX) by (nonlinear_arith)
            requires
                self.padded_bytes_per_row <= u32::MAX,
                self.height <= u32::MAX,
        ;
        self.padded_bytes_per_row as u64 * self.height as u64
    }
}

/// A map from a path to the list of values pushed under it.  Every list keeps
/// the order in which its values were pushed.
#[derive(Debug)]
pub struct ContiniousHashMap<V>(Vec<(String, Vec<V>)>);

/// No two entries share a key.
spec fn keys_distinct<V>(entries: Seq<(Seq<char>, Seq<V>)>) -> bool {
    forall|i: int, j: int| 0 <= i < j < entries.len() ==> entries[i].0 != entries[j].0
}

/// Entry `i` is stored under `key`.
spec fn stored_at<V>(entries: Seq<(Seq<char>, Seq<V>)>, key: Seq<char>, i: int) -> bool {
    0 <= i < entries.len() && entries[i].0 == key
}

/// The map that a list of entries stands for.
spec fn as_map<V>(entries: Seq<(Seq<char>, Seq<V>)>) -> Map<Seq<char>, Seq<V>> {
    Map::new(
        |key: Seq<char>| exists|i: int| stored_at(entries, key, i),
        |key: Seq<char>| entries[choose|i: int| stored_at(entries, key, i)].1,
    )
}

/// With distinct keys, the map holds under each entry's key that entry's
/// list.
proof fn lemma_as_map_entry<V>(entries: Seq<(Seq<char>, Seq<V>)>, i: int)
    requires
        keys_distinct(entries),
        0 <= i < entries.len(),
    ensures
        as_map(entries).contains_key(entries[i].0),
        as_map(entries)[entries[i].0] == entries[i].1,
{
    let key = entries[i].0;
    assert(stored_at(entries, key, i));
    let j = choose|j: int| stored_at(entries, key, j);
    assert(i == j);
}

/// Replacing the list of entry `i` replaces the list under its key.
proof fn lemma_as_map_update<V>(entries: Seq<(Seq<char>, Seq<V>)>, i: int, list: Seq<V>)
    requires
        keys_distinct(entries),
        0 <= i < entries.len(),
    ensures
        keys_distinct(entries.update(i, (entries[i].0, list))),
        as_map(entries.update(i, (entries[i].0, list))) == as_map(entries).insert(
            entries[i].0,
            list,
        ),
{
    let updated = entries.update(i, (entries[i].0, list));
    let expected = as_map(entries).insert(entries[i].0, list);
    assert forall|key: Seq<char>| as_map(updated).contains_key(key) == expected.contains_key(
        key,
    ) by {
        if as_map(updated).contains_key(key) {
            let j = choose|j: int| stored_at(updated, key, j);
            assert(stored_at(entries, key, j));
        }
        if expected.contains_key(key) {
            if key == entries[i].0 {
                assert(stored_at(updated, key, i));
            } else {
                let j = choose|j: int| stored_at(entries, key, j);
                assert(stored_at(updated, key, j));
            }
        }
    }
    assert forall|key: Seq<char>| as_map(updated).contains_key(key) implies as_map(updated)[key]
        == expected[key] by {
        let j = choose|j: int| stored_at(updated, key, j);
        lemma_as_map_entry(updated, j);
        if j != i {
            lemma_as_map_entry(entries, j);
        }
    }
    assert(as_map(updated) =~= expected);
}

/// Appending an entry under a key that is not stored adds that key.
proof fn lemma_as_map_push<V>(entries: Seq<(Seq<char>, Seq<V>)>, key: Seq<char>, list: Seq<V>)
    requires
        keys_distinct(entries),
        forall|i: int| 0 <= i < entries.len() ==> entries[i].0 != key,
    ensures
        keys_distinct(entries.push((key, list))),
        !as_map(entries).contains_key(key),
        as_map(entries.push((key, list))) == as_map(entries).insert(key, list),
{
    let pushed = entries.push((key, list));
    let expected = as_map(entries).insert(key, list);
    let last = entries.len() as int;
    if as_map(entries).contains_key(key) {
        let j = choose|j: int| stored_at(entries, key, j);
        assert(entries[j].0 == key);
    }
    assert forall|other: Seq<char>| as_map(pushed).contains_key(other) == expected.contains_key(
        other,
    ) by {
        if as_map(pushed).contains_key(other) {
            let j = choose|j: int| stored_at(pushed, other, j);
            if j != last {
                assert(stored_at(entries, other, j));
            }
        }
        if expected.contains_key(other) {
            if other == key {
                assert(stored_at(pushed, other, last));
            } else {
                let j = choose|j: int| stored_at(entries, other, j);
                assert(stored_at(pushed, other, j));
            }
        }
    }
    assert forall|other: Seq<char>| as_map(pushed).contains_key(other) implies as_map(
        pushed,
    )[other] == expected[other] by {
        let j = choose|j: int| stored_at(pushed, other, j);
        lemma_as_map_entry(pushed, j);
        if j != last {
            lemma_as_map_entry(entries, j);
        }
    }
    assert(as_map(pushed) =~= expected);
}

impl<V> ContiniousHashMap<V> {
    /// The stored entries as mathematical pairs of path and list.
    spec fn entries(&self) -> Seq<(Seq<char>, Seq<V>)> {
        Seq::new(self.0.len() as nat, |i: int| (self.0[i].0@, self.0[i].1@))
    }

    /// No key is stored twice.
    pub closed spec fn wf(&self) -> bool {
        keys_distinct(self.entries())
    }

    /// The map from each stored path to its list.
    pub closed spec fn view(&self) -> Map<Seq<char>, Seq<V>> {
        as_map(self.entries())
    }

    /// The values pushed under `key` so far, oldest first; empty for a key
    /// that was never used.
    pub open spec fn values(&self, key: Seq<char>) -> Seq<V> {
        if self@.contains_key(key) {
            self@[key]
        } else {
            Seq::empty()
        }
    }

    /// Creates an empty map.
    pub fn new() -> (map: Self)
        ensures
            map.wf(),
            map@ == Map::<Seq<char>, Seq<V>>::empty(),
    {
        let map = ContiniousHashMap(Vec::new());
        assert(map@ =~= Map::<Seq<char>, Seq<V>>::empty());
        map
    }

    /// Appends `value` to the list stored under `key`, starting a new list if
    /// the key is not stored yet.  Other keys keep their lists.
    pub fn push_value(&mut self, key: String, value: V)
        requires
            old(self).wf(),
        ensures
            final(self).wf(),
            final(self)@ == old(self)@.insert(key@, old(self).values(key@).push(value)),
    {
        let ghost before = self.entries();
        let mut i: usize = 0;
        while i < self.0.len()
            invariant
                *self == *old(self),
                before == self.entries(),
                keys_distinct(before),
                i <= self.0.len(),
                forall|j: int| 0 <= j < i ==> self.0[j].0@ != key@,
            decreases self.0.len() - i,
        {
            if self.0[i].0 == key {
                self.0[i].1.push(value);
                proof {
                    let list = before[i as int].1.push(value);
                    lemma_as_map_entry(before, i as int);
                    lemma_as_map_update(before, i as int, list);
                    assert(self.entries() =~= before.update(i as int, (key@, list)));
                }
                return;
            }
            i += 1;
        }
        let mut list: Vec<V> = Vec::new();
        list.push(value);
        self.0.push((key, list));
        proof {
            lemma_as_map_push(before, key@, seq![value]);
            assert(self.entries() =~= before.push((key@, seq![value])));
            assert(Seq::<V>::empty().push(value) =~= seq![value]);
        }
    }

    /// The list stored under `key`, if the key is stored.
    pub fn get(&self, key: &String) -> (list: Option<&Vec<V>>)
        requires
            self.wf(),
        ensures
            match list {
                Some(values) => self@.contains_key(key@) && values@ == self@[key@],
                None => !self@.contains_key(key@),
            },
    {
        let mut i: usize = 0;
        while i < self.0.len()
            invariant
                self.wf(),
                i <= self.0.len(),
                forall|j: int| 0 <= j < i ==> self.0[j].0@ != key@,
            decreases self.0.len() - i,
        {
            if self.0[i].0 == *key {
                proof {
                    lemma_as_map_entry(self.entries(), i as int);
                }
                return Some(&self.0[i].1);
            }
            i += 1;
        }
        proof {
            if self@.contains_key(key@) {
                let j = choose|j: int| stored_at(self.entries(), key@, j);
                assert(self.entries()[j].0 == key@);
            }
        }
        None
    }
}

} // verus!
