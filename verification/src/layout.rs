//! Arithmetic on raw locations: wrapping element offsets, and spans of evenly
//! spaced elements, which are the model of every block, series, region and
//! iterator of this library.

use vstd::arithmetic::div_mod::lemma_fundamental_div_mod;
use vstd::arithmetic::div_mod::lemma_fundamental_div_mod_converse;
use vstd::prelude::*;

verus! {

/// The number of distinct raw locations: one more than the largest `usize`.
pub open spec fn address_space() -> int {
    usize::MAX + 1
}

/// The location that the integer `x` names once it is wrapped around the
/// address space: `x` itself where it is a location, and otherwise what is
/// left of `x` when whole turns around the address space are taken off.
pub open spec fn wrap(x: int) -> usize {
    if 0 <= x <= usize::MAX {
        x as usize
    } else {
        (x % address_space()) as usize
    }
}

/// Wrapping is reduction modulo the number of locations, for every integer.
pub proof fn lemma_wrap_is_remainder(x: int)
    ensures
        wrap(x) == x % address_space(),
{
    if 0 <= x <= usize::MAX {
        lemma_fundamental_div_mod_converse(x, address_space(), 0, x);
    }
}

/// The location `count` elements of `size` bytes away from `base`, wrapping
/// around the end of the address space in either direction.
pub open spec fn wrapping_offset(base: usize, size: nat, count: int) -> usize {
    wrap(base + size * count)
}

/// A run of `count` elements, `stride` bytes from one to the next, the first
/// of them at `base`.
pub struct Span {
    pub base: usize,
    pub stride: nat,
    pub count: nat,
}

impl Span {
    /// The location of element `i`: `i` strides after the first element. In
    /// a span that fits this is `base + stride * i` and nothing wraps.
    pub open spec fn at(self, i: int) -> usize {
        wrapping_offset(self.base, self.stride, i)
    }

    /// Whether the span starts off the zero location and ends at or below the
    /// top of the address space. The position one past the last element
    /// counts as part of the span, so that a cursor may rest there.
    pub open spec fn fits(self) -> bool {
        self.base != 0 && self.base + self.stride * self.count <= usize::MAX
    }

    /// The span without its first `k` elements.
    pub open spec fn skip(self, k: int) -> Span {
        Span { base: self.at(k), stride: self.stride, count: (self.count - k) as nat }
    }

    /// The first `k` elements of the span.
    pub open spec fn take(self, k: int) -> Span {
        Span { base: self.base, stride: self.stride, count: k as nat }
    }

    /// The span with nothing left in it, its start unmoved.
    pub open spec fn emptied(self) -> Span {
        Span { base: self.base, stride: self.stride, count: 0 }
    }

    /// The elements from index `start` up to, not including, index `end`.
    /// Where `end` lies before `start` nothing is left, and the span starts
    /// at element `start` all the same.
    pub open spec fn slice(self, start: int, end: int) -> Span {
        Span {
            base: self.at(start),
            stride: self.stride,
            count: if start <= end {
                (end - start) as nat
            } else {
                0
            },
        }
    }

    /// The location of element `i`, where the span has such an element.
    pub open spec fn get(self, i: int) -> Option<usize> {
        if 0 <= i < self.count {
            Some(self.at(i))
        } else {
            None
        }
    }

    /// What is left once `n` elements were skipped from the front and the
    /// next one was taken: everything after it, or nothing at all where the
    /// span had no more than `n` elements.
    pub open spec fn after_nth(self, n: int) -> Span {
        if n < self.count {
            self.skip(n + 1)
        } else {
            self.emptied()
        }
    }

    /// What is left once `n` elements were skipped from the back and the
    /// next one was taken: everything before it, or nothing at all where the
    /// span had no more than `n` elements.
    pub open spec fn after_nth_back(self, n: int) -> Span {
        if n < self.count {
            self.take(self.count - 1 - n)
        } else {
            self.emptied()
        }
    }

    /// What is left once the first element was taken `k` times over.
    pub open spec fn after_nexts(self, k: nat) -> Span
        decreases k,
    {
        if k == 0 {
            self
        } else {
            self.after_nth(0).after_nexts((k - 1) as nat)
        }
    }

    /// Inside a span that fits, every position up to and including the one
    /// past the last element is reached without wrapping and is not the zero
    /// location.
    pub proof fn lemma_at(self, i: int)
        requires
            self.fits(),
            0 <= i <= self.count,
        ensures
            self.at(i) == self.base + self.stride * i,
            self.at(i) == wrapping_offset(self.base, self.stride, i),
            self.at(i) >= self.base,
            self.at(i) != 0,
    {
        assert(0 <= self.stride * i <= self.stride * self.count) by (nonlinear_arith)
            requires
                0 <= i <= self.count,
        ;
    }

    /// What is left of a span that fits, after its first `k` elements or
    /// before its element `k`, fits too.
    pub proof fn lemma_parts_fit(self, k: int)
        requires
            self.fits(),
            0 <= k <= self.count,
        ensures
            self.skip(k).fits(),
            self.take(k).fits(),
            self.emptied().fits(),
    {
        self.lemma_at(k);
        assert(self.stride * k + self.stride * (self.count - k) == self.stride * self.count)
            by (nonlinear_arith);
        assert(0 <= self.stride * k <= self.stride * self.count) by (nonlinear_arith)
            requires
                0 <= k <= self.count,
        ;
        assert(self.stride * 0 == 0) by (nonlinear_arith);
    }

    /// A slice of a span that fits, with both ends inside the span, fits.
    pub proof fn lemma_slice_fits(self, start: int, end: int)
        requires
            self.fits(),
            0 <= start <= self.count,
            0 <= end <= self.count,
        ensures
            self.slice(start, end).fits(),
    {
        self.lemma_parts_fit(start);
        if start <= end {
            assert(self.slice(start, end) == self.skip(start).take(end - start));
            self.skip(start).lemma_parts_fit(end - start);
        } else {
            assert(self.slice(start, end) == self.skip(start).emptied());
            self.skip(start).lemma_parts_fit(0);
        }
    }

    /// Element `i` of what is left after the first `k` elements is element
    /// `k + i` of the whole.
    pub proof fn lemma_skip_at(self, k: int, i: int)
        requires
            self.fits(),
            0 <= k,
            0 <= i,
            k + i <= self.count,
        ensures
            self.skip(k).at(i) == self.at(k + i),
    {
        self.lemma_at(k);
        self.lemma_at(k + i);
        assert(self.stride * k + self.stride * i == self.stride * (k + i)) by (nonlinear_arith);
    }

    /// Skipping elements and then skipping more is skipping them all at once.
    pub proof fn lemma_skip_skip(self, a: int, b: int)
        requires
            self.fits(),
            0 <= a,
            0 <= b,
            a + b <= self.count,
        ensures
            self.skip(a).skip(b) == self.skip(a + b),
    {
        self.lemma_skip_at(a, b);
    }

    /// Taking the first element `k` times over yields elements `0` to
    /// `k - 1` in turn, as far as the span has them: before take `k` the
    /// first `k` elements are gone and no others, so that take `k` gives
    /// element `k`. Once the span is used up it stays so, and every further
    /// take gives nothing.
    pub proof fn lemma_successive_nexts(self, k: nat)
        requires
            self.fits(),
        ensures
            self.after_nexts(k) == self.skip(
                if k <= self.count {
                    k as int
                } else {
                    self.count as int
                },
            ),
            self.after_nexts(k).get(0) == self.get(k as int),
            self.after_nexts(k).fits(),
        decreases k,
    {
        assert(self.stride * 0 == 0) by (nonlinear_arith);
        self.lemma_at(0);
        if k == 0 {
            assert(self.skip(0) == self);
        } else if self.count == 0 {
            assert(self.after_nth(0) == self);
            self.lemma_successive_nexts((k - 1) as nat);
        } else {
            let rest = self.after_nth(0);
            self.lemma_parts_fit(1);
            rest.lemma_successive_nexts((k - 1) as nat);
            if k <= self.count {
                self.lemma_skip_skip(1, k - 1);
                self.lemma_parts_fit(k as int);
                self.lemma_skip_at(k as int, 0);
            } else {
                self.lemma_skip_skip(1, self.count - 1);
                self.lemma_parts_fit(self.count as int);
            }
        }
    }

    /// Skipping at least as many elements as a span has leaves nothing: the
    /// take that follows gives nothing, and so does every later one.
    pub proof fn lemma_nth_past_end(self, n: int, k: nat)
        requires
            n >= self.count,
        ensures
            self.get(n) is None,
            self.after_nth(n).count == 0,
            self.after_nth(n).after_nexts(k) == self.after_nth(n),
            self.after_nth(n).after_nexts(k).get(0) is None,
        decreases k,
    {
        if k > 0 {
            assert(self.after_nth(n).after_nth(0) == self.after_nth(n));
            self.lemma_nth_past_end(n, (k - 1) as nat);
        }
    }

    /// With a stride that is not zero, the elements of a span that fits lie
    /// at strictly increasing, and so at distinct, locations.
    pub proof fn lemma_locations_increase(self, i: int, j: int)
        requires
            self.fits(),
            self.stride > 0,
            0 <= i < j <= self.count,
        ensures
            self.at(i) < self.at(j),
    {
        self.lemma_at(i);
        self.lemma_at(j);
        assert(self.stride * i < self.stride * j) by (nonlinear_arith)
            requires
                self.stride > 0,
                i < j,
        ;
    }
}

/// Moving forward by `size * count`, reduced to a `usize`, with a wrapping
/// addition lands where the exact sum does after one reduction.
pub proof fn lemma_wrapping_forward(base: usize, size: usize, count: usize)
    ensures
        vstd::wrapping::usize_specs::wrapping_add(
            base,
            vstd::wrapping::usize_specs::wrapping_mul(size, count),
        ) == wrapping_offset(base, size as nat, count as int),
{
    let r = address_space();
    let p: int = size * count;
    assert(0 <= p) by (nonlinear_arith)
        requires
            p == size * count,
    ;
    let m = p % r;
    let q = p / r;
    lemma_fundamental_div_mod(p, r);
    assert((size as nat * count as nat) % (r as nat) == m) by (nonlinear_arith)
        requires
            p == size * count,
            m == p % r,
            r > 0,
    ;
    assert(r * q + (base + m) == base + p);
    lemma_wrap_is_remainder(base + p);
    if base + m < r {
        lemma_fundamental_div_mod_converse(base + p, r, q, base + m);
    } else {
        assert(r * (q + 1) + (base + m - r) == base + p) by (nonlinear_arith)
            requires
                r * q + (base + m) == base + p,
        ;
        lemma_fundamental_div_mod_converse(base + p, r, q + 1, base + m - r);
    }
}

/// Moving backward by `size * count`, reduced to a `usize`, with a wrapping
/// subtraction lands where the exact difference does after one reduction.
pub proof fn lemma_wrapping_backward(base: usize, size: usize, count: usize)
    ensures
        vstd::wrapping::usize_specs::wrapping_sub(
            base,
            vstd::wrapping::usize_specs::wrapping_mul(size, count),
        ) == wrapping_offset(base, size as nat, -(count as int)),
{
    let r = address_space();
    let p: int = size * count;
    assert(0 <= p) by (nonlinear_arith)
        requires
            p == size * count,
    ;
    let m = p % r;
    let q = p / r;
    lemma_fundamental_div_mod(p, r);
    assert((size as nat * count as nat) % (r as nat) == m) by (nonlinear_arith)
        requires
            p == size * count,
            m == p % r,
            r > 0,
    ;
    assert(size * (-(count as int)) == -p) by (nonlinear_arith)
        requires
            p == size * count,
    ;
    lemma_wrap_is_remainder(base - p);
    if base - m >= 0 {
        assert(r * (-q) + (base - m) == base - p) by (nonlinear_arith)
            requires
                p == r * q + m,
        ;
        lemma_fundamental_div_mod_converse(base - p, r, -q, base - m);
    } else {
        assert(r * (-q - 1) + (base - m + r) == base - p) by (nonlinear_arith)
            requires
                p == r * q + m,
        ;
        lemma_fundamental_div_mod_converse(base - p, r, -q - 1, base - m + r);
    }
}

/// A wrapping move by `count` elements is undone by a wrapping move by
/// `-count` elements.
pub proof fn lemma_wrapping_round_trip(base: usize, size: nat, count: int)
    ensures
        wrapping_offset(wrapping_offset(base, size, count), size, -count) == base,
{
    let r = address_space();
    let x = base + size * count;
    let k = x / r;
    lemma_fundamental_div_mod(x, r);
    let there = wrapping_offset(base, size, count);
    lemma_wrap_is_remainder(x);
    lemma_wrap_is_remainder(there + size * (-count));
    assert(there == x - r * k);
    assert(size * (-count) == -(size * count)) by (nonlinear_arith);
    assert(r * (-k) + base == there + size * (-count)) by (nonlinear_arith)
        requires
            there == x - r * k,
            x == base + size * count,
            size * (-count) == -(size * count),
    ;
    lemma_fundamental_div_mod_converse(there + size * (-count), r, -k, base as int);
}

} // verus!
