//! The annotation store: an insertion-ordered sequence of annotated points
//! with exact-identity deduplication, deletion by pixel value, hover
//! hit-testing, and a newest-first listing for display.

use vstd::prelude::*;

verus! {

use crate::geom::{Rect, ScreenVec};
use crate::mapping::{image_to_screen, image_to_screen_axis};
use crate::math::sat_i64;
use crate::points::{CoordinatePair, PixelCoordinate};
use crate::viewport::DISPLAY_LIMIT;

/// Largest hover radius `hit_test` accepts (a million screen points, in
/// milliunits); keeps squared distances inside the arithmetic range.
pub const HIT_RADIUS_LIMIT: i64 = 1_000_000_000;

/// Whether some stored point carries exactly this pixel value.
pub open spec fn contains_pixel(s: Seq<CoordinatePair>, p: PixelCoordinate) -> bool {
    exists|i: int| 0 <= i < s.len() && s[i].pixels == p
}

/// No two stored points share a pixel value: the store's invariant.
pub open spec fn dedup_free(s: Seq<CoordinatePair>) -> bool {
    forall|i: int, j: int| 0 <= i < j < s.len() ==> s[i].pixels != s[j].pixels
}

/// The point a successful addition appends: the pixel value with no
/// real-world enrichment yet.
pub open spec fn new_pair(p: PixelCoordinate) -> CoordinatePair {
    CoordinatePair { pixels: p, real: None }
}

/// The store's contents after attempting to add `p`: unchanged when the
/// pixel is already present, otherwise extended at the end.
pub open spec fn added(s: Seq<CoordinatePair>, p: PixelCoordinate) -> Seq<CoordinatePair> {
    if contains_pixel(s, p) {
        s
    } else {
        s.push(new_pair(p))
    }
}

/// Index of the first point carrying pixel value `p`; meaningful when one
/// exists.
pub open spec fn first_match(s: Seq<CoordinatePair>, p: PixelCoordinate) -> int
    decreases s.len(),
{
    if s.len() == 0 {
        0
    } else if s[0].pixels == p {
        0
    } else {
        1 + first_match(s.drop_first(), p)
    }
}

/// The store's contents after deleting `p`: the first (and, under the
/// invariant, only) matching point is removed; without a match nothing
/// changes.
pub open spec fn removed(s: Seq<CoordinatePair>, p: PixelCoordinate) -> Seq<CoordinatePair> {
    if contains_pixel(s, p) {
        s.remove(first_match(s, p))
    } else {
        s
    }
}

/// A saved sequence with any duplicate pixel values dropped, keeping the
/// earliest occurrence of each: what loading a persisted (possibly
/// corrupted) point list yields.
pub open spec fn dedup_first(s: Seq<CoordinatePair>) -> Seq<CoordinatePair>
    decreases s.len(),
{
    if s.len() == 0 {
        Seq::empty()
    } else {
        let rest = dedup_first(s.drop_last());
        if contains_pixel(rest, s.last().pixels) {
            rest
        } else {
            rest.push(s.last())
        }
    }
}

/// An index that matches and is preceded by no match is the first match.
proof fn lemma_first_match_at(s: Seq<CoordinatePair>, p: PixelCoordinate, i: int)
    requires
        0 <= i < s.len(),
        s[i].pixels == p,
        forall|j: int| 0 <= j < i ==> s[j].pixels != p,
    ensures
        contains_pixel(s, p),
        first_match(s, p) == i,
    decreases s.len(),
{
    assert(contains_pixel(s, p));
    if i > 0 {
        let t = s.drop_first();
        assert(t[i - 1].pixels == p);
        assert forall|j: int| 0 <= j < i - 1 implies t[j].pixels != p by {
            assert(t[j] == s[j + 1]);
        }
        lemma_first_match_at(t, p, i - 1);
    }
}

/// Scans a point list for an exact pixel match.
fn contains_pixel_vec(v: &Vec<CoordinatePair>, p: PixelCoordinate) -> (r: bool)
    ensures
        r == contains_pixel(v@, p),
{
    let n: usize = v.len();
    let mut i: usize = 0;
    while i < n
        invariant
            n == v@.len(),
            0 <= i <= n,
            forall|j: int| 0 <= j < i ==> v@[j].pixels != p,
        decreases n - i,
    {
        if v[i].pixels == p {
            return true;
        }
        i += 1;
    }
    false
}

/// The insertion-ordered collection of annotated points. Insertion order is
/// creation order, oldest first; that order is what gets persisted, and the
/// newest-first order shown in the UI is derived from it on demand.
pub struct AnnotationStore {
    points: Vec<CoordinatePair>,
}

impl View for AnnotationStore {
    type V = Seq<CoordinatePair>;

    closed spec fn view(&self) -> Seq<CoordinatePair> {
        self.points@
    }
}

impl AnnotationStore {
    /// The invariant: no two points share a pixel value.
    pub open spec fn wf(self) -> bool {
        dedup_free(self@)
    }

    /// An empty store.
    pub fn new() -> (s: AnnotationStore)
        ensures
            s@ == Seq::<CoordinatePair>::empty(),
            s.wf(),
    {
        let s = AnnotationStore { points: Vec::new() };
        proof {
            assert(s@ =~= Seq::<CoordinatePair>::empty());
        }
        s
    }

    /// Number of stored points.
    pub fn len(&self) -> (n: usize)
        ensures
            n == self@.len(),
    {
        self.points.len()
    }

    /// The point at position `i` in insertion order.
    pub fn get(&self, i: usize) -> (r: CoordinatePair)
        requires
            i < self@.len(),
        ensures
            r == self@[i as int],
    {
        self.points[i]
    }

    /// The points in insertion order, as persisted.
    pub fn points(&self) -> (r: &Vec<CoordinatePair>)
        ensures
            r@ == self@,
    {
        &self.points
    }

    /// Rebuilds a store from a persisted point list. The list is taken in
    /// its stored order; should a corrupted save carry two points with the
    /// same pixel value, only the earliest survives, which re-establishes
    /// the store's invariant. Out-of-range coordinates are kept as they
    /// are: they merely project off-screen.
    pub fn from_saved(saved: Vec<CoordinatePair>) -> (s: AnnotationStore)
        ensures
            s.wf(),
            s@ == dedup_first(saved@),
    {
        let n: usize = saved.len();
        let mut points: Vec<CoordinatePair> = Vec::new();
        let mut i: usize = 0;
        proof {
            assert(saved@.subrange(0, 0) =~= Seq::<CoordinatePair>::empty());
        }
        while i < n
            invariant
                n == saved@.len(),
                0 <= i <= n,
                points@ == dedup_first(saved@.subrange(0, i as int)),
                dedup_free(points@),
            decreases n - i,
        {
            let ghost prefix = saved@.subrange(0, i as int);
            let pair: CoordinatePair = saved[i];
            let dup: bool = contains_pixel_vec(&points, pair.pixels);
            if !dup {
                points.push(pair);
                proof {
                    assert(points@[points@.len() - 1].pixels == pair.pixels);
                    assert forall|a: int, b: int|
                        0 <= a < b < points@.len() implies points@[a].pixels
                        != points@[b].pixels by {
                        if b < points@.len() - 1 {
                        } else {
                            assert(!contains_pixel(points@.drop_last(), pair.pixels));
                            assert(points@[a] == points@.drop_last()[a]);
                        }
                    }
                }
            }
            proof {
                let next = saved@.subrange(0, i + 1);
                assert(next.drop_last() =~= prefix);
                assert(next.last() == saved@[i as int]);
            }
            i += 1;
        }
        proof {
            assert(saved@.subrange(0, n as int) =~= saved@);
        }
        AnnotationStore { points }
    }

    /// Adds a point at `pixel` unless one carrying exactly that pixel value
    /// is already stored. On success the created point is appended at the
    /// end and returned; on a duplicate nothing changes and nothing is
    /// returned. This is the sole creation path, so the store's invariant
    /// is maintained here.
    pub fn try_add_point(&mut self, pixel: PixelCoordinate) -> (r: Option<CoordinatePair>)
        requires
            old(self).wf(),
        ensures
            final(self).wf(),
            final(self)@ == added(old(self)@, pixel),
            contains_pixel(final(self)@, pixel),
            contains_pixel(old(self)@, pixel) ==> r is None && final(self)@ == old(self)@,
            !contains_pixel(old(self)@, pixel) ==> r == Some(new_pair(pixel)) && final(self)@
                == old(self)@.push(new_pair(pixel)),
    {
        let n: usize = self.points.len();
        let mut i: usize = 0;
        while i < n
            invariant
                n == self@.len(),
                0 <= i <= n,
                self@ == old(self)@,
                old(self).wf(),
                forall|j: int| 0 <= j < i ==> self@[j].pixels != pixel,
            decreases n - i,
        {
            if self.points[i].pixels == pixel {
                return None;
            }
            i += 1;
        }
        assert(!contains_pixel(self@, pixel));
        let pair = CoordinatePair { pixels: pixel, real: None };
        self.points.push(pair);
        proof {
            assert(self@[old(self)@.len() as int].pixels == pixel);
            assert forall|a: int, b: int|
                0 <= a < b < self@.len() implies self@[a].pixels != self@[b].pixels by {
                if b < old(self)@.len() {
                } else {
                    assert(self@[a] == old(self)@[a]);
                }
            }
        }
        Some(pair)
    }

    /// Deletes the point carrying exactly this pixel value, if any, and
    /// reports whether one was removed. Deleting an absent value is a
    /// defined no-op, not an error.
    pub fn delete(&mut self, pixel: PixelCoordinate) -> (r: bool)
        requires
            old(self).wf(),
        ensures
            final(self).wf(),
            r == contains_pixel(old(self)@, pixel),
            final(self)@ == removed(old(self)@, pixel),
            r ==> final(self)@.len() == old(self)@.len() - 1,
            !r ==> final(self)@ == old(self)@,
    {
        let n: usize = self.points.len();
        let mut i: usize = 0;
        while i < n
            invariant
                n == self@.len(),
                0 <= i <= n,
                self@ == old(self)@,
                old(self).wf(),
                forall|j: int| 0 <= j < i ==> self@[j].pixels != pixel,
            decreases n - i,
        {
            if self.points[i].pixels == pixel {
                proof {
                    lemma_first_match_at(self@, pixel, i as int);
                }
                self.points.remove(i);
                proof {
                    old(self)@.remove_ensures(i as int);
                    assert forall|a: int, b: int|
                        0 <= a < b < self@.len() implies self@[a].pixels != self@[b].pixels by {
                        if a < i as int {
                            assert(self@[a] == old(self)@[a]);
                        } else {
                            assert(self@[a] == old(self)@[a + 1]);
                        }
                        if b < i as int {
                            assert(self@[b] == old(self)@[b]);
                        } else {
                            assert(self@[b] == old(self)@[b + 1]);
                        }
                    }
                }
                return true;
            }
            i += 1;
        }
        assert(!contains_pixel(self@, pixel));
        false
    }

    /// The stored points in display order: newest first, a reversed view of
    /// the insertion order. The stored order itself is untouched.
    pub fn list_for_display(&self) -> (r: Vec<CoordinatePair>)
        ensures
            r@.len() == self@.len(),
            forall|k: int| 0 <= k < self@.len() ==> r@[k] == self@[self@.len() - 1 - k],
            r@ == self@.reverse(),
    {
        let n: usize = self.points.len();
        let mut out: Vec<CoordinatePair> = Vec::new();
        let mut i: usize = n;
        while i > 0
            invariant
                n == self@.len(),
                0 <= i <= n,
                out@.len() == n - i,
                forall|k: int| 0 <= k < out@.len() ==> out@[k] == self@[self@.len() - 1 - k],
            decreases i,
        {
            i -= 1;
            out.push(self.points[i]);
        }
        proof {
            assert(out@ =~= self@.reverse());
        }
        out
    }
}

/// Whether an annotated point's mark, projected onto the screen through the
/// display rectangle, lies within `radius` of `pos` (Euclidean distance,
/// compared squared).
pub open spec fn hits(
    pair: CoordinatePair,
    pos: ScreenVec,
    rect: Rect,
    img_w: int,
    img_h: int,
    radius: int,
) -> bool {
    let sx = sat_i64(image_to_screen_axis(pair.pixels.x as int, rect.min_x as int, rect.width(), img_w));
    let sy = sat_i64(image_to_screen_axis(pair.pixels.y as int, rect.min_y as int, rect.height(), img_h));
    (sx - pos.x) * (sx - pos.x) + (sy - pos.y) * (sy - pos.y) <= radius * radius
}

/// Whether the squared length of `(dx, dy)` is at most `radius` squared.
fn within_radius(dx: i128, dy: i128, radius: i64) -> (b: bool)
    requires
        -0x2_0000_0000_0000_0000 <= dx <= 0x2_0000_0000_0000_0000,
        -0x2_0000_0000_0000_0000 <= dy <= 0x2_0000_0000_0000_0000,
        0 <= radius <= HIT_RADIUS_LIMIT,
    ensures
        b == (dx * dx + dy * dy <= radius * radius),
{
    let r: i128 = radius as i128;
    if dx > r || dx < -r {
        proof {
            assert(dx * dx + dy * dy > r * r) by (nonlinear_arith)
                requires
                    (dx > r || dx < -r),
                    0 <= r,
            ;
        }
        return false;
    }
    if dy > r || dy < -r {
        proof {
            assert(dx * dx + dy * dy > r * r) by (nonlinear_arith)
                requires
                    (dy > r || dy < -r),
                    0 <= r,
            ;
        }
        return false;
    }
    proof {
        assert(0 <= dx * dx <= 1_000_000_000_000_000_000 && 0 <= dy * dy
            <= 1_000_000_000_000_000_000 && 0 <= r * r <= 1_000_000_000_000_000_000)
            by (nonlinear_arith)
            requires
                -1_000_000_000 <= dx <= 1_000_000_000,
                -1_000_000_000 <= dy <= 1_000_000_000,
                0 <= r <= 1_000_000_000,
        ;
    }
    dx * dx + dy * dy <= r * r
}

impl AnnotationStore {
    /// Finds the stored point whose projected mark lies within `radius` of
    /// the pointer, for hover highlighting. When several marks overlap the
    /// pointer, insertion order decides: the first match wins, as a stated
    /// tie-break.
    pub fn hit_test(
        &self,
        pos: ScreenVec,
        rect: &Rect,
        img_w: u32,
        img_h: u32,
        radius: i64,
    ) -> (r: Option<CoordinatePair>)
        requires
            1 <= img_w,
            1 <= img_h,
            rect.bounded(DISPLAY_LIMIT as int),
            0 <= radius <= HIT_RADIUS_LIMIT,
        ensures
            r is None ==> forall|i: int|
                0 <= i < self@.len() ==> !hits(
                    self@[i],
                    pos,
                    *rect,
                    img_w as int,
                    img_h as int,
                    radius as int,
                ),
            r matches Some(q) ==> exists|i: int|
                {
                    &&& 0 <= i < self@.len()
                    &&& self@[i] == q
                    &&& hits(self@[i], pos, *rect, img_w as int, img_h as int, radius as int)
                    &&& forall|j: int|
                        0 <= j < i ==> !hits(
                            self@[j],
                            pos,
                            *rect,
                            img_w as int,
                            img_h as int,
                            radius as int,
                        )
                },
    {
        let n: usize = self.points.len();
        let mut i: usize = 0;
        while i < n
            invariant
                n == self@.len(),
                0 <= i <= n,
                1 <= img_w,
                1 <= img_h,
                rect.bounded(DISPLAY_LIMIT as int),
                0 <= radius <= HIT_RADIUS_LIMIT,
                forall|j: int|
                    0 <= j < i ==> !hits(
                        self@[j],
                        pos,
                        *rect,
                        img_w as int,
                        img_h as int,
                        radius as int,
                    ),
            decreases n - i,
        {
            let pair: CoordinatePair = self.points[i];
            let s: ScreenVec = image_to_screen(pair.pixels, rect, img_w, img_h);
            let dx: i128 = s.x as i128 - pos.x as i128;
            let dy: i128 = s.y as i128 - pos.y as i128;
            if within_radius(dx, dy, radius) {
                assert(hits(self@[i as int], pos, *rect, img_w as int, img_h as int, radius as int));
                return Some(pair);
            }
            assert(!hits(self@[i as int], pos, *rect, img_w as int, img_h as int, radius as int));
            i += 1;
        }
        None
    }
}

/// Law (deduplication): once a pixel value has been added, adding the very
/// same value again is a no-op: the value is present after the first
/// attempt, and a second attempt leaves the contents exactly as they were,
/// so its result is the absent one.
pub proof fn lemma_add_twice(s: Seq<CoordinatePair>, p: PixelCoordinate)
    ensures
        contains_pixel(added(s, p), p),
        added(added(s, p), p) == added(s, p),
{
    if !contains_pixel(s, p) {
        assert(added(s, p)[s.len() as int].pixels == p);
    }
}

/// Law (delete identity): after adding a pixel value that was not yet
/// stored, deleting that value finds it and removes exactly the one added
/// point, restoring the previous contents; deleting the same value again
/// finds nothing.
pub proof fn lemma_delete_after_add(s: Seq<CoordinatePair>, p: PixelCoordinate)
    requires
        !contains_pixel(s, p),
    ensures
        contains_pixel(added(s, p), p),
        removed(added(s, p), p) == s,
        !contains_pixel(removed(added(s, p), p), p),
{
    let t = s.push(new_pair(p));
    assert(t[s.len() as int].pixels == p);
    assert forall|j: int| 0 <= j < s.len() implies t[j].pixels != p by {
        assert(t[j] == s[j]);
    }
    lemma_first_match_at(t, p, s.len() as int);
    assert(t.remove(s.len() as int) =~= s);
}

} // verus!
