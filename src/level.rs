//! The level: its fixed settings, the column cache and the terrain classifier.
//!
//! Ground is described per column `(x, z)` by its surface: the lowest `y` that
//! is air. Every voxel strictly below the surface is ground. The surface of a
//! column is computed from the noise height outside this crate; for integer
//! `y`, "`y` lies below the height" is the same as "`y` lies below the surface".

use std::collections::HashMap;
use vstd::prelude::*;

use crate::voxels::{texture_triple, Voxel, MOSS, STONE};

verus! {

broadcast use vstd::std_specs::hash::group_hash_axioms;

/// Number of distinct values of the low or high half of a column key.
pub const HALF_KEY_SPAN: u64 = 4294967296;

/// Offset that moves an `i32` onto the non-negative range.
pub const I32_OFFSET: i64 = 2147483648;

/// The single integer that a column is stored under.
pub open spec fn column_key(x: i32, z: i32) -> int {
    (x + I32_OFFSET) * (HALF_KEY_SPAN as int) + (z + I32_OFFSET)
}

proof fn lemma_column_key_bounds(x: i32, z: i32)
    ensures
        0 <= column_key(x, z) <= u64::MAX,
{
    let a = x + I32_OFFSET;
    let b = z + I32_OFFSET;
    assert(0 <= a < HALF_KEY_SPAN);
    assert(0 <= b < HALF_KEY_SPAN);
    assert(0 <= a * (HALF_KEY_SPAN as int) <= (HALF_KEY_SPAN - 1) * (HALF_KEY_SPAN as int))
        by (nonlinear_arith)
        requires
            0 <= a < HALF_KEY_SPAN,
    ;
}

proof fn lemma_column_key_injective(x1: i32, z1: i32, x2: i32, z2: i32)
    requires
        column_key(x1, z1) == column_key(x2, z2),
    ensures
        x1 == x2,
        z1 == z2,
{
    let a1 = x1 + I32_OFFSET;
    let b1 = z1 + I32_OFFSET;
    let a2 = x2 + I32_OFFSET;
    let b2 = z2 + I32_OFFSET;
    let n = HALF_KEY_SPAN as int;
    assert(a1 == a2) by (nonlinear_arith)
        requires
            a1 * n + b1 == a2 * n + b2,
            0 <= b1 < n,
            0 <= b2 < n,
            n > 0,
    {
        if a1 < a2 {
            assert(a1 * n + n <= a2 * n);
        } else if a1 > a2 {
            assert(a2 * n + n <= a1 * n);
        }
    }
}

/// Computes the key of a column.
fn key_of_column(x: i32, z: i32) -> (k: u64)
    ensures
        k == column_key(x, z),
{
    proof {
        lemma_column_key_bounds(x, z);
    }
    let a: u64 = ((x as i64) + I32_OFFSET) as u64;
    let b: u64 = ((z as i64) + I32_OFFSET) as u64;
    assert(a * HALF_KEY_SPAN <= (HALF_KEY_SPAN - 1) * HALF_KEY_SPAN) by (nonlinear_arith)
        requires
            a < HALF_KEY_SPAN,
    ;
    a * HALF_KEY_SPAN + b
}

/// Memo of column surfaces, keyed by column. Entries are never removed or
/// changed once stored.
pub struct ColumnHeightCache {
    surfaces: HashMap<u64, i64>,
}

impl View for ColumnHeightCache {
    type V = Map<(i32, i32), i64>;

    closed spec fn view(&self) -> Map<(i32, i32), i64> {
        Map::new(
            |c: (i32, i32)| self.surfaces@.contains_key(column_key(c.0, c.1) as u64),
            |c: (i32, i32)| self.surfaces@[column_key(c.0, c.1) as u64],
        )
    }
}

/// Whether every stored surface is the one that `surface` gives its column.
pub open spec fn agrees_with(cached: Map<(i32, i32), i64>, surface: spec_fn(i32, i32) -> i64) -> bool {
    forall|c: (i32, i32)| #[trigger] cached.contains_key(c) ==> cached[c] == surface(c.0, c.1)
}

/// The voxel at height `y` in a column whose surface is `surface`.
pub open spec fn voxel_below_surface(y: i32, surface: i64) -> Voxel {
    if (y as i64) < surface {
        Voxel::Solid(MOSS)
    } else {
        Voxel::Air
    }
}

impl ColumnHeightCache {
    /// The number of stored entries.
    pub closed spec fn size(&self) -> nat {
        self.surfaces@.len()
    }

    /// Creates an empty cache.
    pub fn new() -> (c: ColumnHeightCache)
        ensures
            c@ == Map::<(i32, i32), i64>::empty(),
            c.size() == 0,
    {
        let c = ColumnHeightCache { surfaces: HashMap::new() };
        assert(c@ =~= Map::<(i32, i32), i64>::empty());
        c
    }

    /// The number of columns stored.
    pub fn len(&self) -> (n: usize)
        ensures
            n == self.size(),
    {
        self.surfaces.len()
    }

    /// The stored surface of a column, if any.
    pub fn get(&self, x: i32, z: i32) -> (r: Option<i64>)
        ensures
            r == (if self@.contains_key((x, z)) {
                Some(self@[(x, z)])
            } else {
                None
            }),
    {
        let k = key_of_column(x, z);
        match self.surfaces.get(&k) {
            Some(s) => Some(*s),
            None => None,
        }
    }

    /// Returns the stored surface of column `(x, z)`. Where none is stored,
    /// calls `compute` once, stores what it returns and returns that; where one
    /// is stored, `compute` is not called.
    pub fn get_or_compute<F: FnOnce() -> i64>(&mut self, x: i32, z: i32, compute: F) -> (r: i64)
        requires
            compute.requires(()),
        ensures
            old(self)@.contains_key((x, z)) ==> r == old(self)@[(x, z)] && final(self)@ == old(
                self,
            )@ && final(self).size() == old(self).size(),
            !old(self)@.contains_key((x, z)) ==> compute.ensures((), r) && final(self)@ == old(
                self,
            )@.insert((x, z), r) && final(self).size() == old(self).size() + 1,
            old(self)@.dom().subset_of(final(self)@.dom()),
            final(self).size() >= old(self).size(),
            final(self)@.contains_key((x, z)) && final(self)@[(x, z)] == r,
    {
        let k = key_of_column(x, z);
        match self.surfaces.get(&k) {
            Some(s) => *s,
            None => {
                let s = compute();
                let ghost before = self@;
                self.surfaces.insert(k, s);
                proof {
                    assert forall|c: (i32, i32)| #[trigger] self@.contains_key(c) == before.insert(
                        (x, z),
                        s,
                    ).contains_key(c) && (self@.contains_key(c) ==> self@[c] == before.insert(
                        (x, z),
                        s,
                    )[c]) by {
                        if column_key(c.0, c.1) == column_key(x, z) {
                            lemma_column_key_injective(c.0, c.1, x, z);
                        }
                        lemma_column_key_bounds(c.0, c.1);
                        lemma_column_key_bounds(x, z);
                    }
                    assert(self@ =~= before.insert((x, z), s));
                }
                s
            },
        }
    }
}

/// Decides per voxel position whether it is ground or air, caching the
/// surface of each column it has seen.
pub struct VoxelClassifier {
    pub cache: ColumnHeightCache,
}

impl VoxelClassifier {
    /// Creates a classifier with an empty cache.
    pub fn new() -> (c: VoxelClassifier)
        ensures
            c.cache@ == Map::<(i32, i32), i64>::empty(),
    {
        VoxelClassifier { cache: ColumnHeightCache::new() }
    }

    /// Classifies the voxel at `(x, y, z)`: mossy ground below the surface of
    /// its column, air at or above it. The surface comes from the cache, or
    /// from `column_surface` when the column has not been seen before.
    pub fn classify<F: FnOnce() -> i64>(&mut self, x: i32, y: i32, z: i32, column_surface: F) -> (r:
        Voxel)
        requires
            column_surface.requires(()),
        ensures
            final(self).cache@.contains_key((x, z)),
            r == voxel_below_surface(y, final(self).cache@[(x, z)]),
            old(self).cache@.contains_key((x, z)) ==> final(self).cache@ == old(self).cache@,
            !old(self).cache@.contains_key((x, z)) ==> column_surface.ensures(
                (),
                final(self).cache@[(x, z)],
            ) && final(self).cache@ == old(self).cache@.insert((x, z), final(self).cache@[(x, z)]),
            old(self).cache@.dom().subset_of(final(self).cache@.dom()),
            final(self).cache.size() >= old(self).cache.size(),
    {
        let surface = self.cache.get_or_compute(x, z, column_surface);
        if (y as i64) < surface {
            Voxel::Solid(MOSS)
        } else {
            Voxel::Air
        }
    }
}

/// One lookup of column `col` that returned `r` took the cache from `before`
/// to `after`, where a computation for a column not yet stored yields what
/// `surface` gives it.
pub open spec fn lookup_step(
    before: Map<(i32, i32), i64>,
    after: Map<(i32, i32), i64>,
    col: (i32, i32),
    r: i64,
    surface: spec_fn(i32, i32) -> i64,
) -> bool {
    if before.contains_key(col) {
        r == before[col] && after == before
    } else {
        r == surface(col.0, col.1) && after == before.insert(col, r)
    }
}

/// Cache transparency for one lookup: from a cache that agrees with the
/// surface function, a lookup returns that function's value, stored or not,
/// and leaves a cache that still agrees with it.
pub proof fn lemma_lookup_transparent(
    before: Map<(i32, i32), i64>,
    after: Map<(i32, i32), i64>,
    col: (i32, i32),
    r: i64,
    surface: spec_fn(i32, i32) -> i64,
)
    requires
        agrees_with(before, surface),
        lookup_step(before, after, col, r, surface),
    ensures
        r == surface(col.0, col.1),
        agrees_with(after, surface),
{
}

/// Cache transparency for a run of lookups: starting from any cache that
/// agrees with the surface function (an empty one, say), the sequence of
/// surfaces returned is exactly the function applied to the sequence of
/// columns, whatever was cached before.
pub proof fn lemma_lookups_transparent(
    caches: Seq<Map<(i32, i32), i64>>,
    cols: Seq<(i32, i32)>,
    results: Seq<i64>,
    surface: spec_fn(i32, i32) -> i64,
)
    requires
        caches.len() == cols.len() + 1,
        results.len() == cols.len(),
        agrees_with(caches[0], surface),
        forall|i: int|
            0 <= i < cols.len() ==> #[trigger] lookup_step(
                caches[i],
                caches[i + 1],
                cols[i],
                results[i],
                surface,
            ),
    ensures
        forall|i: int| 0 <= i < cols.len() ==> #[trigger] results[i] == surface(cols[i].0, cols[i].1),
        agrees_with(caches[cols.len() as int], surface),
    decreases cols.len(),
{
    if cols.len() > 0 {
        let n = cols.len() - 1;
        lemma_lookups_transparent(caches.take(n + 1), cols.take(n), results.take(n), surface);
        assert(lookup_step(caches[n], caches[n + 1], cols[n], results[n], surface));
        assert(caches.take(n + 1)[n] == caches[n]);
        lemma_lookup_transparent(caches[n], caches[n + 1], cols[n], results[n], surface);
        assert forall|i: int| 0 <= i < cols.len() implies #[trigger] results[i] == surface(
            cols[i].0,
            cols[i].1,
        ) by {
            if i < n {
                assert(results.take(n)[i] == results[i]);
                assert(cols.take(n)[i] == cols[i]);
            }
        }
    }
}

/// Determinism of classification: two classifications of the same position,
/// each through a cache that agrees with the surface function (one of them
/// freshly created, say), give the same voxel, namely the one below or above
/// that column's surface.
pub proof fn lemma_classify_deterministic(
    before1: Map<(i32, i32), i64>,
    after1: Map<(i32, i32), i64>,
    r1: Voxel,
    before2: Map<(i32, i32), i64>,
    after2: Map<(i32, i32), i64>,
    r2: Voxel,
    x: i32,
    y: i32,
    z: i32,
    surface: spec_fn(i32, i32) -> i64,
)
    requires
        agrees_with(before1, surface),
        agrees_with(before2, surface),
        lookup_step(before1, after1, (x, z), after1[(x, z)], surface),
        lookup_step(before2, after2, (x, z), after2[(x, z)], surface),
        r1 == voxel_below_surface(y, after1[(x, z)]),
        r2 == voxel_below_surface(y, after2[(x, z)]),
    ensures
        r1 == r2,
        r1 == voxel_below_surface(y, surface(x, z)),
{
    lemma_lookup_transparent(before1, after1, (x, z), after1[(x, z)], surface);
    lemma_lookup_transparent(before2, after2, (x, z), after2[(x, z)], surface);
}

/// Repeating a classification gives the same voxel: after a position was
/// classified, its column is stored, so a second call returns the stored
/// surface whatever its computation would yield.
pub proof fn lemma_classify_repeatable(
    first: Map<(i32, i32), i64>,
    second: Map<(i32, i32), i64>,
    r1: Voxel,
    r2: Voxel,
    x: i32,
    y: i32,
    z: i32,
)
    requires
        first.contains_key((x, z)),
        r1 == voxel_below_surface(y, first[(x, z)]),
        first.contains_key((x, z)) ==> second == first,
        r2 == voxel_below_surface(y, second[(x, z)]),
    ensures
        r1 == r2,
{
}

/// The level's fixed configuration.
#[derive(Clone, Copy, Debug, Default)]
pub struct MainLevel;

impl MainLevel {
    /// How many chunks around the camera are generated.
    pub fn spawning_distance(&self) -> (r: u32)
        ensures
            r == 5,
    {
        5
    }

    /// The texture indices of a material; unknown materials fall back to a
    /// shared triple.
    pub fn texture_index_mapper(&self, mat: u8) -> (r: [u32; 3])
        ensures
            r@ == texture_triple(mat),
    {
        let r: [u32; 3] = if mat == MOSS {
            [0, 2, 1]
        } else if mat == STONE {
            [1, 1, 1]
        } else {
            [3, 3, 3]
        };
        assert(r@ =~= texture_triple(mat));
        r
    }

    /// The voxel texture atlas: its file name and the number of textures it
    /// holds.
    pub fn voxel_texture(&self) -> (r: Option<(String, u32)>)
        ensures
            r matches Some((name, count)) && name@ == "voxels.png"@ && count == 4,
    {
        proof {
            reveal_strlit("voxels.png");
        }
        Some(("voxels.png".to_owned(), 4))
    }
}

} // verus!
