//! The tiles that the daily gas station sync walks: Thailand, Laos, Malaysia
//! and southern China, in 2.5° × 2.5° squares.
//!
//! Coordinates are counted in half degrees, so that every tile corner is an
//! integer: a corner of `n` half degrees lies at `n / 2` degrees.
use vstd::prelude::*;

verus! {

/// A tile: south, west, north and east edges, in half degrees.
pub type Tile = (i32, i32, i32, i32);

/// The side of a tile, in half degrees (2.5°).
pub open spec fn tile_step() -> int {
    5
}

/// South-west corners of the Thailand, Laos and Malaysia grid: latitudes from
/// 1°N while below 23°N, longitudes from 97°E while below 110°E.
pub open spec fn in_first_grid(s: int, w: int) -> bool {
    &&& 2 <= s < 46
    &&& (s - 2) % 5 == 0
    &&& 194 <= w < 220
    &&& (w - 194) % 5 == 0
}

/// South-west corners of the southern China grid: latitudes from 18°N while
/// below 26°N, longitudes from 97°E while below 112°E.
pub open spec fn in_second_grid(s: int, w: int) -> bool {
    &&& 36 <= s < 52
    &&& (s - 36) % 5 == 0
    &&& 194 <= w < 224
    &&& (w - 194) % 5 == 0
}

/// Whether a tile is one of the region's tiles.
pub open spec fn is_region_tile(t: Tile) -> bool {
    &&& in_first_grid(t.0 as int, t.1 as int) || in_second_grid(t.0 as int, t.1 as int)
    &&& t.2 == t.0 + tile_step()
    &&& t.3 == t.1 + tile_step()
}

/// Tiles ordered by south edge, then by west edge.
pub open spec fn tile_before(a: Tile, b: Tile) -> bool {
    a.0 < b.0 || (a.0 == b.0 && a.1 < b.1)
}

/// Whether two tiles share their south-west corner.
pub open spec fn same_corner(a: Tile, b: Tile) -> bool {
    a.0 == b.0 && a.1 == b.1
}

/// Whether some tile of `v` has its south-west corner at (`s`, `w`).
fn has_corner(v: &Vec<Tile>, s: i32, w: i32) -> (r: bool)
    ensures
        r == exists|k: int| 0 <= k < v.len() && (#[trigger] v@[k]).0 == s && v@[k].1 == w,
{
    let mut k: usize = 0;
    while k < v.len()
        invariant
            k <= v.len(),
            forall|m: int| 0 <= m < k ==> !((#[trigger] v@[m]).0 == s && v@[m].1 == w),
        decreases v.len() - k,
    {
        if v[k].0 == s && v[k].1 == w {
            return true;
        }
        k = k + 1;
    }
    false
}

/// The tiles of both grids, each corner once, in the order in which the
/// grids are walked.
fn collect_tiles() -> (v: Vec<Tile>)
    ensures
        forall|k: int| 0 <= k < v.len() ==> is_region_tile(#[trigger] v@[k]),
        forall|i: int, j: int|
            0 <= i < j < v.len() ==> !same_corner(#[trigger] v@[i], #[trigger] v@[j]),
        forall|t: Tile| is_region_tile(t) ==> v@.contains(t),
{
    let step: i32 = 5;
    let mut tiles: Vec<Tile> = Vec::new();
    let mut lat: i32 = 2;
    while lat < 46
        invariant
            step == 5,
            2 <= lat <= 47,
            (lat - 2) % 5 == 0,
            forall|k: int| 0 <= k < tiles.len() ==> is_region_tile(#[trigger] tiles@[k]),
            forall|k: int| 0 <= k < tiles.len() ==> (#[trigger] tiles@[k]).0 < lat,
            forall|k: int| 0 <= k < tiles.len() ==> in_first_grid((#[trigger] tiles@[k]).0 as int, tiles@[k].1 as int),
            forall|i: int, j: int|
                0 <= i < j < tiles.len() ==> tile_before(#[trigger] tiles@[i], #[trigger] tiles@[j]),
            forall|s: int, w: int|
                in_first_grid(s, w) && s < lat ==> #[trigger] tiles@.contains(
                    (s as i32, w as i32, (s + 5) as i32, (w + 5) as i32),
                ),
        decreases 47 - lat,
    {
        let mut lng: i32 = 194;
        while lng < 220
            invariant
                step == 5,
                2 <= lat < 46,
                (lat - 2) % 5 == 0,
                194 <= lng <= 224,
                (lng - 194) % 5 == 0,
                forall|k: int| 0 <= k < tiles.len() ==> is_region_tile(#[trigger] tiles@[k]),
                forall|k: int| 0 <= k < tiles.len() ==> in_first_grid((#[trigger] tiles@[k]).0 as int, tiles@[k].1 as int),
                forall|k: int|
                    0 <= k < tiles.len() ==> (#[trigger] tiles@[k]).0 < lat || (tiles@[k].0 == lat
                        && tiles@[k].1 < lng),
                forall|i: int, j: int|
                    0 <= i < j < tiles.len() ==> tile_before(#[trigger] tiles@[i], #[trigger] tiles@[j]),
                forall|s: int, w: int|
                    in_first_grid(s, w) && (s < lat || (s == lat && w < lng)) ==> #[trigger] tiles@.contains(
                        (s as i32, w as i32, (s + 5) as i32, (w + 5) as i32),
                    ),
            decreases 224 - lng,
        {
            let t: Tile = (lat, lng, lat + step, lng + step);
            let ghost before = tiles@;
            tiles.push(t);
            proof {
                assert(tiles@.last() == t);
                assert forall|s: int, w: int|
                    in_first_grid(s, w) && (s < lat || (s == lat && w < lng + 5)) implies #[trigger] tiles@.contains(
                    (s as i32, w as i32, (s + 5) as i32, (w + 5) as i32),
                ) by {
                    let u = (s as i32, w as i32, (s + 5) as i32, (w + 5) as i32);
                    if s == lat && w >= lng {
                        assert(w == lng);
                        assert(tiles@[tiles.len() - 1] == u);
                    } else {
                        assert(before.contains(u));
                        let k = choose|k: int| 0 <= k < before.len() && before[k] == u;
                        assert(tiles@[k] == u);
                    }
                }
            }
            lng = lng + step;
        }
        proof {
            assert forall|s: int, w: int|
                in_first_grid(s, w) && s < lat + 5 implies #[trigger] tiles@.contains(
                (s as i32, w as i32, (s + 5) as i32, (w + 5) as i32),
            ) by {
                if s >= lat {
                    assert(s == lat);
                    assert(w < lng);
                }
            }
        }
        lat = lat + step;
    }
    proof {
        assert forall|i: int, j: int|
            0 <= i < j < tiles.len() implies !same_corner(#[trigger] tiles@[i], #[trigger] tiles@[j]) by {
            assert(tile_before(tiles@[i], tiles@[j]));
        }
    }
    let mut lat: i32 = 36;
    while lat < 52
        invariant
            step == 5,
            36 <= lat <= 56,
            (lat - 36) % 5 == 0,
            forall|k: int| 0 <= k < tiles.len() ==> is_region_tile(#[trigger] tiles@[k]),
            forall|i: int, j: int|
                0 <= i < j < tiles.len() ==> !same_corner(#[trigger] tiles@[i], #[trigger] tiles@[j]),
            forall|s: int, w: int|
                in_first_grid(s, w) ==> #[trigger] tiles@.contains(
                    (s as i32, w as i32, (s + 5) as i32, (w + 5) as i32),
                ),
            forall|s: int, w: int|
                in_second_grid(s, w) && s < lat ==> #[trigger] tiles@.contains(
                    (s as i32, w as i32, (s + 5) as i32, (w + 5) as i32),
                ),
        decreases 56 - lat,
    {
        let mut lng: i32 = 194;
        while lng < 224
            invariant
                step == 5,
                36 <= lat < 52,
                (lat - 36) % 5 == 0,
                194 <= lng <= 228,
                (lng - 194) % 5 == 0,
                forall|k: int| 0 <= k < tiles.len() ==> is_region_tile(#[trigger] tiles@[k]),
                forall|i: int, j: int|
                    0 <= i < j < tiles.len() ==> !same_corner(#[trigger] tiles@[i], #[trigger] tiles@[j]),
                forall|s: int, w: int|
                    in_first_grid(s, w) ==> #[trigger] tiles@.contains(
                        (s as i32, w as i32, (s + 5) as i32, (w + 5) as i32),
                    ),
                forall|s: int, w: int|
                    in_second_grid(s, w) && (s < lat || (s == lat && w < lng)) ==> #[trigger] tiles@.contains(
                        (s as i32, w as i32, (s + 5) as i32, (w + 5) as i32),
                    ),
            decreases 228 - lng,
        {
            let t: Tile = (lat, lng, lat + step, lng + step);
            let ghost before = tiles@;
            if !has_corner(&tiles, lat, lng) {
                tiles.push(t);
                proof {
                    assert(tiles@[tiles.len() - 1] == t);
                    assert forall|i: int, j: int|
                        0 <= i < j < tiles.len() implies !same_corner(#[trigger] tiles@[i], #[trigger] tiles@[j]) by {
                        if j == tiles.len() - 1 {
                            assert(tiles@[i] == before[i]);
                        } else {
                            assert(tiles@[i] == before[i] && tiles@[j] == before[j]);
                        }
                    }
                }
            } else {
                proof {
                    let k = choose|k: int| 0 <= k < tiles.len() && (#[trigger] tiles@[k]).0 == lat && tiles@[k].1 == lng;
                    assert(is_region_tile(tiles@[k]));
                    assert(tiles@[k] == t);
                }
            }
            proof {
                assert forall|u: Tile| before.contains(u) implies #[trigger] tiles@.contains(u) by {
                    let k = choose|k: int| 0 <= k < before.len() && before[k] == u;
                    assert(tiles@[k] == u);
                }
                assert(tiles@.contains(t)) by {
                    if tiles@.len() > before.len() {
                        assert(tiles@[tiles.len() - 1] == t);
                    } else {
                        let k = choose|k: int| 0 <= k < tiles.len() && (#[trigger] tiles@[k]).0 == lat && tiles@[k].1 == lng;
                        assert(tiles@[k] == t);
                    }
                }
                assert forall|s: int, w: int|
                    in_second_grid(s, w) && (s < lat || (s == lat && w < lng + 5)) implies #[trigger] tiles@.contains(
                    (s as i32, w as i32, (s + 5) as i32, (w + 5) as i32),
                ) by {
                    let u = (s as i32, w as i32, (s + 5) as i32, (w + 5) as i32);
                    if s == lat && w >= lng {
                        assert(w == lng);
                        assert(u == t);
                    } else {
                        assert(before.contains(u));
                    }
                }
                assert forall|s: int, w: int|
                    in_first_grid(s, w) implies #[trigger] tiles@.contains(
                    (s as i32, w as i32, (s + 5) as i32, (w + 5) as i32),
                ) by {
                    let u = (s as i32, w as i32, (s + 5) as i32, (w + 5) as i32);
                    assert(before.contains(u));
                }
            }
            lng = lng + step;
        }
        proof {
            assert forall|s: int, w: int|
                in_second_grid(s, w) && s < lat + 5 implies #[trigger] tiles@.contains(
                (s as i32, w as i32, (s + 5) as i32, (w + 5) as i32),
            ) by {
                if s >= lat {
                    assert(s == lat);
                    assert(w < lng);
                }
            }
        }
        lat = lat + step;
    }
    proof {
        assert forall|t: Tile| is_region_tile(t) implies tiles@.contains(t) by {
            let s = t.0 as int;
            let w = t.1 as int;
            assert(t == (s as i32, w as i32, (s + 5) as i32, (w + 5) as i32));
            if in_first_grid(s, w) {
                assert(tiles@.contains((s as i32, w as i32, (s + 5) as i32, (w + 5) as i32)));
            } else {
                assert(tiles@.contains((s as i32, w as i32, (s + 5) as i32, (w + 5) as i32)));
            }
        }
    }
    tiles
}

/// The tiles of `v` sorted by south edge, then west edge.
fn sort_tiles(v: &Vec<Tile>) -> (r: Vec<Tile>)
    requires
        forall|i: int, j: int| 0 <= i < j < v.len() ==> !same_corner(#[trigger] v@[i], #[trigger] v@[j]),
    ensures
        forall|i: int, j: int| 0 <= i < j < r.len() ==> tile_before(#[trigger] r@[i], #[trigger] r@[j]),
        forall|t: Tile| r@.contains(t) <==> v@.contains(t),
{
    let mut sorted: Vec<Tile> = Vec::new();
    let mut i: usize = 0;
    while i < v.len()
        invariant
            i <= v.len(),
            forall|a: int, b: int| 0 <= a < b < v.len() ==> !same_corner(#[trigger] v@[a], #[trigger] v@[b]),
            forall|a: int, b: int|
                0 <= a < b < sorted.len() ==> tile_before(#[trigger] sorted@[a], #[trigger] sorted@[b]),
            forall|t: Tile| sorted@.contains(t) <==> v@.take(i as int).contains(t),
        decreases v.len() - i,
    {
        let x = v[i];
        let mut p: usize = 0;
        while p < sorted.len() && (sorted[p].0 < x.0 || (sorted[p].0 == x.0 && sorted[p].1 < x.1))
            invariant
                p <= sorted.len(),
                forall|a: int| 0 <= a < p ==> tile_before(#[trigger] sorted@[a], x),
            decreases sorted.len() - p,
        {
            p = p + 1;
        }
        let ghost before = sorted@;
        proof {
            assert forall|a: int| p <= a < before.len() implies tile_before(x, #[trigger] before[a]) by {
                assert(before.contains(before[a]));
                assert(v@.take(i as int).contains(before[a]));
                let m = choose|m: int| 0 <= m < i && v@.take(i as int)[m] == before[a];
                assert(v@[m] == before[a]);
                assert(!same_corner(v@[m], v@[i as int]));
                if a > p {
                    assert(tile_before(before[p as int], before[a]));
                }
            }
        }
        sorted.insert(p, x);
        proof {
            assert(sorted@ == before.insert(p as int, x));
            assert forall|a: int, b: int|
                0 <= a < b < sorted.len() implies tile_before(#[trigger] sorted@[a], #[trigger] sorted@[b]) by {
                if a < p && b < p + 1 {
                    if b == p {
                    } else {
                        assert(sorted@[b] == before[b]);
                    }
                } else if a == p {
                    assert(sorted@[b] == before[b - 1]);
                } else if a < p {
                    assert(sorted@[b] == before[b - 1]);
                    assert(tile_before(before[a], before[p as int]) || p == before.len());
                } else {
                    assert(sorted@[a] == before[a - 1]);
                    assert(sorted@[b] == before[b - 1]);
                }
            }
            assert(v@.take(i + 1) == v@.take(i as int).push(x));
            assert forall|t: Tile| sorted@.contains(t) <==> v@.take(i + 1).contains(t) by {
                if sorted@.contains(t) {
                    let k = choose|k: int| 0 <= k < sorted.len() && sorted@[k] == t;
                    if k < p {
                        assert(before[k] == t);
                        assert(before.contains(t));
                        let m = choose|m: int| 0 <= m < i && v@.take(i as int)[m] == t;
                        assert(v@.take(i + 1)[m] == t);
                    } else if k == p {
                        assert(v@.take(i + 1)[i as int] == t);
                    } else {
                        assert(before[k - 1] == t);
                        assert(before.contains(t));
                        let m = choose|m: int| 0 <= m < i && v@.take(i as int)[m] == t;
                        assert(v@.take(i + 1)[m] == t);
                    }
                }
                if v@.take(i + 1).contains(t) {
                    let m = choose|m: int| 0 <= m < i + 1 && #[trigger] v@.take(i + 1)[m] == t;
                    if m == i {
                        assert(sorted@[p as int] == t);
                    } else {
                        assert(v@.take(i as int)[m] == t);
                        assert(before.contains(t));
                        let k = choose|k: int| 0 <= k < before.len() && before[k] == t;
                        if k < p {
                            assert(sorted@[k] == t);
                        } else {
                            assert(sorted@[k + 1] == t);
                        }
                    }
                }
            }
        }
        i = i + 1;
    }
    assert(v@.take(v.len() as int) == v@);
    sorted
}

/// `v` with consecutive equal tiles kept once (`Vec::dedup`).
fn dedup_tiles(v: &Vec<Tile>) -> (r: Vec<Tile>)
    requires
        forall|i: int, j: int| 0 <= i < j < v.len() ==> tile_before(#[trigger] v@[i], #[trigger] v@[j]),
    ensures
        r@ == v@,
{
    let mut out: Vec<Tile> = Vec::new();
    let mut k: usize = 0;
    while k < v.len()
        invariant
            k <= v.len(),
            out@ == v@.take(k as int),
            forall|i: int, j: int| 0 <= i < j < v.len() ==> tile_before(#[trigger] v@[i], #[trigger] v@[j]),
        decreases v.len() - k,
    {
        let t = v[k];
        if k > 0 && out[out.len() - 1].0 == t.0 && out[out.len() - 1].1 == t.1 {
            assert(tile_before(v@[k - 1], v@[k as int]));
            assert(false);
        } else {
            out.push(t);
        }
        assert(v@.take(k + 1) == v@.take(k as int).push(t));
        k = k + 1;
    }
    assert(v@.take(v.len() as int) == v@);
    out
}

/// The `i`-th region tile, counting the first grid row by row and then the
/// second.
spec fn listed_tile(i: int) -> Tile {
    if i < 54 {
        (
            (2 + 5 * (i / 6)) as i32,
            (194 + 5 * (i % 6)) as i32,
            (7 + 5 * (i / 6)) as i32,
            (199 + 5 * (i % 6)) as i32,
        )
    } else {
        (
            (36 + 5 * ((i - 54) / 6)) as i32,
            (194 + 5 * ((i - 54) % 6)) as i32,
            (41 + 5 * ((i - 54) / 6)) as i32,
            (199 + 5 * ((i - 54) % 6)) as i32,
        )
    }
}

/// The region's 78 tiles: 9 rows of 6 in the first grid, 4 rows of 6 in the
/// second.
spec fn listed_tiles() -> Seq<Tile> {
    Seq::new(78, |i: int| listed_tile(i))
}

proof fn lemma_listed_tiles()
    ensures
        listed_tiles().no_duplicates(),
        forall|t: Tile| is_region_tile(t) <==> listed_tiles().contains(t),
{
    let l = listed_tiles();
    assert forall|i: int, j: int| 0 <= i < l.len() && 0 <= j < l.len() && i != j implies l[i] != l[j] by {
        assert(l[i] == listed_tile(i));
        assert(l[j] == listed_tile(j));
    }
    assert forall|t: Tile| is_region_tile(t) implies l.contains(t) by {
        if in_first_grid(t.0 as int, t.1 as int) {
            let k = 6 * ((t.0 - 2) / 5) + (t.1 - 194) / 5;
            assert(l[k] == listed_tile(k));
            assert(l[k] == t);
        } else {
            let k = 54 + 6 * ((t.0 - 36) / 5) + (t.1 - 194) / 5;
            assert(l[k] == listed_tile(k));
            assert(l[k] == t);
        }
    }
    assert forall|t: Tile| l.contains(t) implies is_region_tile(t) by {
        let k = choose|k: int| 0 <= k < l.len() && l[k] == t;
        assert(l[k] == listed_tile(k));
    }
}

/// The tiles of the sync region, sorted by south edge and then west edge,
/// each corner once.
pub fn region_tiles() -> (r: Vec<Tile>)
    ensures
        forall|i: int, j: int| 0 <= i < j < r.len() ==> tile_before(#[trigger] r@[i], #[trigger] r@[j]),
        forall|t: Tile| r@.contains(t) <==> is_region_tile(t),
        r.len() == 78,
{
    let tiles = collect_tiles();
    let sorted = sort_tiles(&tiles);
    let r = dedup_tiles(&sorted);
    proof {
        assert forall|t: Tile| r@.contains(t) implies is_region_tile(t) by {
            assert(tiles@.contains(t));
            let k = choose|k: int| 0 <= k < tiles.len() && tiles@[k] == t;
            assert(is_region_tile(tiles@[k]));
        }
        lemma_listed_tiles();
        let l = listed_tiles();
        assert(r@.no_duplicates()) by {
            assert forall|i: int, j: int| 0 <= i < r@.len() && 0 <= j < r@.len() && i != j implies r@[i] != r@[j] by {
                if i < j {
                    assert(tile_before(r@[i], r@[j]));
                } else {
                    assert(tile_before(r@[j], r@[i]));
                }
            }
        }
        assert forall|t: Tile| r@.to_set().contains(t) <==> l.to_set().contains(t) by {
            assert(r@.contains(t) <==> is_region_tile(t));
            assert(l.contains(t) <==> is_region_tile(t));
        }
        assert(r@.to_set() =~= l.to_set());
        r@.unique_seq_to_set();
        l.unique_seq_to_set();
    }
    r
}

/// The pause between two tiles, in milliseconds, so that Overpass does not
/// rate-limit the sync.
pub const TILE_PAUSE_MS: u64 = 2500;

/// How far a sync has come: the tile to fetch next, the stations stored so
/// far, and the tiles that failed.
#[derive(Debug, Clone, Copy, PartialEq, Eq)]
pub struct SyncState {
    pub next: usize,
    pub stored: usize,
    pub failed: usize,
}

/// What became of fetching a tile.
#[derive(Debug, Clone, Copy, PartialEq, Eq)]
pub enum SyncEvent {
    /// The tile's stations were fetched and this many were stored.
    Stored(usize),
    /// The tile could not be fetched; it is skipped.
    Failed,
}

/// What the sync does after a tile.
#[derive(Debug, Clone, Copy, PartialEq, Eq)]
pub enum SyncAction {
    /// Wait this many milliseconds, then fetch the next tile.
    Pause(u64),
    /// Stop: every tile has been fetched.
    Done,
}

/// A sync that has not fetched anything yet.
pub fn sync_start() -> (s: SyncState)
    ensures
        s == (SyncState { next: 0, stored: 0, failed: 0 }),
{
    SyncState { next: 0, stored: 0, failed: 0 }
}

/// One step of a sync over `tiles` tiles: the tile `s.next` was fetched (or
/// failed, and is skipped); the sync moves to the next tile, pausing between
/// two tiles and stopping after the last.
pub fn sync_step(s: SyncState, tiles: usize, ev: SyncEvent) -> (r: (SyncState, SyncAction))
    requires
        s.next < tiles,
        ev matches SyncEvent::Stored(n) ==> s.stored + n <= usize::MAX,
        ev is Failed ==> s.failed < usize::MAX,
    ensures
        r.0.next == s.next + 1,
        r.0.stored == match ev {
            SyncEvent::Stored(n) => s.stored + n,
            SyncEvent::Failed => s.stored as int,
        },
        r.0.failed == match ev {
            SyncEvent::Stored(_) => s.failed as int,
            SyncEvent::Failed => s.failed + 1,
        },
        r.1 == (if s.next + 1 < tiles {
            SyncAction::Pause(TILE_PAUSE_MS)
        } else {
            SyncAction::Done
        }),
{
    let next = s.next + 1;
    let state = match ev {
        SyncEvent::Stored(n) => SyncState { next, stored: s.stored + n, failed: s.failed },
        SyncEvent::Failed => SyncState { next, stored: s.stored, failed: s.failed + 1 },
    };
    let action = if next < tiles {
        SyncAction::Pause(TILE_PAUSE_MS)
    } else {
        SyncAction::Done
    };
    (state, action)
}

} // verus!
