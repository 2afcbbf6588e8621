//! The mathematical model of a raster: a width, a height and the pixels in
//! row-major order. Contracts of the executable code are stated over it.

use vstd::arithmetic::div_mod::{lemma_fundamental_div_mod, lemma_fundamental_div_mod_converse};
use vstd::prelude::*;
use vstd::seq_lib::{to_multiset_build, to_multiset_contains, to_multiset_remove};

verus! {

/// One pixel: red, green, blue and alpha, eight bits each.
#[derive(Clone, Copy, Debug, PartialEq, Eq, Hash, Structural)]
pub struct Pixel {
    pub red: u8,
    pub green: u8,
    pub blue: u8,
    pub alpha: u8,
}

impl Pixel {
    /// The channels in the order in which a raster stores them.
    pub open spec fn channel(self, c: int) -> u8 {
        if c == 0 {
            self.red
        } else if c == 1 {
            self.green
        } else if c == 2 {
            self.blue
        } else {
            self.alpha
        }
    }
}

/// A rectangular grid of pixels. Pixel `(x, y)` is column `x` of row `y`,
/// counted from the top left, and stands at `y * width + x` in `pixels`.
#[verifier::ext_equal]
pub struct Grid {
    pub width: nat,
    pub height: nat,
    pub pixels: Seq<Pixel>,
}

impl Grid {
    /// The grid holds exactly one pixel for each of its positions.
    pub open spec fn wf(self) -> bool {
        self.pixels.len() == self.width * self.height
    }

    /// `(x, y)` names a position of the grid.
    pub open spec fn contains(self, x: int, y: int) -> bool {
        0 <= x < self.width && 0 <= y < self.height
    }

    /// The pixel at column `x` of row `y`.
    pub open spec fn at(self, x: int, y: int) -> Pixel {
        self.pixels[y * self.width + x]
    }

    /// The samples of the grid: row after row, and for each pixel its red,
    /// green, blue and alpha.
    pub open spec fn samples(self) -> Seq<u8> {
        Seq::new(4 * self.pixels.len(), |i: int| self.pixels[i / 4].channel(i % 4))
    }

    /// The grid turned by 90 degrees clockwise: width and height change
    /// places, and position `(x, y)` of the result shows what stood at
    /// `(y, height - 1 - x)`.
    pub open spec fn rotated(self) -> Grid {
        Grid {
            width: self.height,
            height: self.width,
            pixels: Seq::new(
                self.width * self.height,
                |j: int| self.at(j / (self.height as int), self.height - 1 - j % (self.height as int)),
            ),
        }
    }
}

/// The pixel whose four channels stand at `4 * index` in a run of samples.
pub open spec fn pixel_of(samples: Seq<u8>, index: int) -> Pixel {
    Pixel {
        red: samples[4 * index],
        green: samples[4 * index + 1],
        blue: samples[4 * index + 2],
        alpha: samples[4 * index + 3],
    }
}

/// The first `count` pixels of a run of samples.
pub open spec fn pixels_of(samples: Seq<u8>, count: nat) -> Seq<Pixel> {
    Seq::new(count, |i: int| pixel_of(samples, i))
}

/// The samples with the four channels of pixel `index` replaced.
pub open spec fn with_pixel(samples: Seq<u8>, index: int, pixel: Pixel) -> Seq<u8> {
    samples.update(4 * index, pixel.red).update(4 * index + 1, pixel.green).update(
        4 * index + 2,
        pixel.blue,
    ).update(4 * index + 3, pixel.alpha)
}

/// In a grid of the given size, position `(x, y)` has an index of its own
/// below `width * height`, from which `x` and `y` can be read back.
pub proof fn lemma_position_index(width: int, height: int, x: int, y: int)
    requires
        0 <= x < width,
        0 <= y < height,
    ensures
        0 <= y * width + x < width * height,
        (y * width + x) / width == y,
        (y * width + x) % width == x,
{
    assert(0 <= y * width && y * width + width <= width * height) by (nonlinear_arith)
        requires
            0 <= y < height,
            0 < width,
    ;
    lemma_fundamental_div_mod_converse(y * width + x, width, y, x);
}

/// Every index below `width * height` is the index of one position
/// `(k % width, k / width)` of the grid.
pub proof fn lemma_index_position(width: int, height: int, k: int)
    requires
        0 <= width,
        0 <= height,
        0 <= k < width * height,
    ensures
        0 <= k % width < width,
        0 <= k / width < height,
        (k / width) * width + k % width == k,
{
    assert(width > 0) by (nonlinear_arith)
        requires
            0 <= width,
            0 <= k < width * height,
    ;
    lemma_fundamental_div_mod(k, width);
    assert(0 <= k % width < width);
    assert((k / width) * width == width * (k / width)) by (nonlinear_arith);
    let q = k / width;
    assert(0 <= q < height) by (nonlinear_arith)
        requires
            0 < width,
            0 <= k < width * height,
            0 <= k - q * width < width,
    ;
}

/// Replacing the four samples of pixel `index` replaces that pixel and
/// leaves every other one as it was.
pub proof fn lemma_with_pixel(samples: Seq<u8>, count: nat, index: int, pixel: Pixel)
    requires
        0 <= index < count,
        4 * count <= samples.len(),
    ensures
        with_pixel(samples, index, pixel).len() == samples.len(),
        pixels_of(with_pixel(samples, index, pixel), count) == pixels_of(samples, count).update(
            index,
            pixel,
        ),
{
    let after = with_pixel(samples, index, pixel);
    assert forall|i: int| 0 <= i < count implies #[trigger] pixels_of(after, count)[i]
        == pixels_of(samples, count).update(index, pixel)[i] by {
        if i == index {
            assert(pixel_of(after, i) == pixel);
        } else {
            assert(pixel_of(after, i) == pixel_of(samples, i));
        }
    }
}

/// Two sequences hold the same values equally often when the places of one
/// can be matched, one to one, with places of the other that hold the same
/// value.
pub proof fn lemma_rearranged_multiset<A>(a: Seq<A>, b: Seq<A>, to: spec_fn(int) -> int)
    requires
        a.len() == b.len(),
        forall|i: int| 0 <= i < a.len() ==> 0 <= #[trigger] to(i) < b.len(),
        forall|i: int, j: int| 0 <= i < j < a.len() ==> #[trigger] to(i) != #[trigger] to(j),
        forall|i: int| 0 <= i < a.len() ==> b[#[trigger] to(i)] == a[i],
    ensures
        a.to_multiset() == b.to_multiset(),
    decreases a.len(),
{
    if a.len() == 0 {
        assert(a =~= b);
    } else {
        let last = a.len() - 1;
        let j = to(last);
        let shorter = a.drop_last();
        let rest = b.remove(j);
        let shifted = |i: int|
            if to(i) < j {
                to(i)
            } else {
                to(i) - 1
            };
        assert forall|i: int| 0 <= i < shorter.len() implies 0 <= #[trigger] shifted(i)
            < rest.len() && rest[shifted(i)] == shorter[i] by {
            assert(to(i) != to(last));
        }
        assert forall|i: int, k: int| 0 <= i < k < shorter.len() implies #[trigger] shifted(i)
            != #[trigger] shifted(k) by {
            assert(to(i) != to(k));
            assert(to(i) != to(last));
            assert(to(k) != to(last));
        }
        lemma_rearranged_multiset(shorter, rest, shifted);
        assert(a =~= shorter.push(a[last]));
        to_multiset_build(shorter, a[last]);
        to_multiset_remove(b, j);
        assert(b.contains(b[j]));
        to_multiset_contains(b, b[j]);
        assert(b.to_multiset() =~= rest.to_multiset().insert(b[j]));
    }
}

impl Grid {
    /// The rotated grid holds one pixel for each of its positions, as many
    /// as the grid itself.
    pub proof fn lemma_rotated_wf(self)
        ensures
            self.rotated().wf(),
            self.rotated().width == self.height,
            self.rotated().height == self.width,
            self.rotated().pixels.len() == self.width * self.height,
    {
        assert(self.width * self.height == self.height * self.width) by (nonlinear_arith);
    }

    /// Rotation correctness: the rotated grid has the dimensions swapped,
    /// and shows at `(height - 1 - y, x)` what the grid shows at `(x, y)`.
    pub proof fn lemma_rotated_at(self, x: int, y: int)
        requires
            self.wf(),
            self.contains(x, y),
        ensures
            self.rotated().wf(),
            self.rotated().width == self.height,
            self.rotated().height == self.width,
            self.rotated().contains(self.height - 1 - y, x),
            self.rotated().at(self.height - 1 - y, x) == self.at(x, y),
    {
        let w = self.width as int;
        let h = self.height as int;
        assert(w * h == h * w) by (nonlinear_arith);
        lemma_position_index(h, w, h - 1 - y, x);
    }

    /// Four rotations bring every grid back to itself, dimensions and
    /// pixels.
    pub proof fn lemma_four_rotations(self)
        requires
            self.wf(),
        ensures
            self.rotated().rotated().rotated().rotated() == self,
    {
        let w = self.width as int;
        let h = self.height as int;
        let once = self.rotated();
        let twice = once.rotated();
        let thrice = twice.rotated();
        let back = thrice.rotated();
        self.lemma_rotated_wf();
        once.lemma_rotated_wf();
        twice.lemma_rotated_wf();
        thrice.lemma_rotated_wf();
        assert forall|k: int| 0 <= k < w * h implies back.pixels[k] == self.pixels[k] by {
            lemma_index_position(w, h, k);
            let x = k % w;
            let y = k / w;
            self.lemma_rotated_at(x, y);
            once.lemma_rotated_at(h - 1 - y, x);
            twice.lemma_rotated_at(w - 1 - x, h - 1 - y);
            thrice.lemma_rotated_at(y, w - 1 - x);
            assert(back.at(x, y) == self.at(x, y));
        }
        assert(back.pixels =~= self.pixels);
    }

    /// Rotation moves pixels and neither makes nor loses one: the rotated
    /// grid holds every pixel value as often as the grid itself.
    pub proof fn lemma_rotated_multiset(self)
        requires
            self.wf(),
        ensures
            self.rotated().pixels.to_multiset() == self.pixels.to_multiset(),
    {
        let w = self.width as int;
        let h = self.height as int;
        let to = |k: int| (k % w) * h + (h - 1 - k / w);
        self.lemma_rotated_wf();
        assert forall|k: int| 0 <= k < self.pixels.len() implies 0 <= #[trigger] to(k)
            < self.rotated().pixels.len() && self.rotated().pixels[to(k)] == self.pixels[k] by {
            lemma_index_position(w, h, k);
            lemma_position_index(h, w, h - 1 - k / w, k % w);
            self.lemma_rotated_at(k % w, k / w);
        }
        assert forall|i: int, k: int| 0 <= i < k < self.pixels.len() implies #[trigger] to(i)
            != #[trigger] to(k) by {
            lemma_index_position(w, h, i);
            lemma_index_position(w, h, k);
            lemma_position_index(h, w, h - 1 - i / w, i % w);
            lemma_position_index(h, w, h - 1 - k / w, k % w);
        }
        lemma_rearranged_multiset(self.pixels, self.rotated().pixels, to);
    }

    /// Rotation is the only grid of swapped dimensions that shows at
    /// `(height - 1 - y, x)` what `self` shows at `(x, y)`: the positions
    /// `(height - 1 - y, x)` are all the positions of the result.
    pub proof fn lemma_rotated_unique(self, other: Grid)
        requires
            self.wf(),
            other.wf(),
            other.width == self.height,
            other.height == self.width,
            forall|x: int, y: int|
                self.contains(x, y) ==> other.at(self.height - 1 - y, x) == #[trigger] self.at(
                    x,
                    y,
                ),
        ensures
            other == self.rotated(),
    {
        let w = self.width as int;
        let h = self.height as int;
        assert(w * h == h * w) by (nonlinear_arith);
        assert forall|j: int| 0 <= j < w * h implies other.pixels[j] == self.rotated().pixels[j] by {
            lemma_index_position(h, w, j);
            let x = j / h;
            let y = h - 1 - j % h;
            assert(self.contains(x, y));
            assert(other.at(h - 1 - y, x) == self.at(x, y));
        }
        assert(other.pixels =~= self.rotated().pixels);
    }
}

} // verus!
