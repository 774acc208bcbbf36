use vstd::prelude::*;

verus! {

/// Why a point of a spiral cannot be placed.
#[derive(Debug, Clone, Copy, PartialEq, Eq, Structural)]
pub enum SpiralError {
    /// The spiral was asked to hold no points, or a negative number of them:
    /// the point's parameter `index / total` has no value.
    NonPositiveTotal,
}

/// The `index`-th of `total` points of a spiral, with `total > 0`.
///
/// The point's parameter is the rational `t = index / total`. Its distance from
/// the axis is `5 t` and its angle is `4 pi t` plus the rotation that time adds.
#[derive(Debug, Clone, Copy, PartialEq, Eq, Structural)]
pub struct SpiralSlot {
    index: i32,
    total: i32,
}

impl SpiralSlot {
    /// The slot is well formed: its count of points is positive.
    pub open spec fn wf(self) -> bool {
        self.total_spec() > 0
    }

    #[verifier::type_invariant]
    spec fn inv(self) -> bool {
        self.total > 0
    }

    /// Which point this is, counted from zero.
    pub closed spec fn index_spec(self) -> int {
        self.index as int
    }

    /// How many points the spiral holds.
    pub closed spec fn total_spec(self) -> int {
        self.total as int
    }

    /// The parameter `t` of this point is at most that of `other`, compared as
    /// rationals by cross-multiplying the positive counts.
    pub open spec fn param_le(self, other: SpiralSlot) -> bool {
        self.index_spec() * other.total_spec() <= other.index_spec() * self.total_spec()
    }

    /// Numerator of the point's distance `5 t = 5 index / total` from the axis;
    /// the denominator is `total_spec()`.
    pub open spec fn radius_num(self) -> int {
        5 * self.index_spec()
    }

    /// The distance of this point from the axis is at most that of `other`,
    /// compared as rationals by cross-multiplying the positive counts.
    pub open spec fn radius_le(self, other: SpiralSlot) -> bool {
        self.radius_num() * other.total_spec() <= other.radius_num() * self.total_spec()
    }

    /// Places the `index`-th of `total` points; fails exactly when `total <= 0`.
    pub fn new(index: i32, total: i32) -> (r: Result<SpiralSlot, SpiralError>)
        ensures
            total > 0 <==> r is Ok,
            r matches Ok(s) ==> s.wf() && s.index_spec() == index && s.total_spec() == total,
            r matches Err(e) ==> e == SpiralError::NonPositiveTotal,
    {
        if total > 0 {
            Ok(SpiralSlot { index, total })
        } else {
            Err(SpiralError::NonPositiveTotal)
        }
    }

    pub fn index(&self) -> (r: i32)
        ensures
            r == self.index_spec(),
    {
        self.index
    }

    pub fn total(&self) -> (r: i32)
        ensures
            r == self.total_spec(),
            r > 0,
    {
        proof {
            use_type_invariant(self);
        }
        self.total
    }

    /// The point's distance `5 index / total` from the axis, as the exact
    /// fraction `(numerator, denominator)`; the denominator is `total`.
    pub fn radius(&self) -> (r: (i64, i32))
        ensures
            r.0 == self.radius_num(),
            r.1 == self.total_spec(),
            r.1 > 0,
            self.index_spec() == 0 ==> r.0 == 0,
            0 <= self.index_spec() <= self.total_spec() ==> 0 <= r.0 <= 5 * r.1,
    {
        proof {
            use_type_invariant(self);
        }
        (5 * (self.index as i64), self.total)
    }

    /// The first point of every spiral has distance zero from the axis, so it
    /// sits at the origin whatever the rotation.
    pub proof fn lemma_first_point_on_axis(s: SpiralSlot)
        requires
            s.wf(),
            s.index_spec() == 0,
        ensures
            s.radius_num() == 0,
    {
    }

    /// Along one spiral the parameter, and with it the distance `5 t` of the
    /// point from the axis, never decreases as the index grows from zero.
    pub proof fn lemma_radius_grows(a: SpiralSlot, b: SpiralSlot)
        requires
            a.wf(),
            b.wf(),
            a.total_spec() == b.total_spec(),
            0 <= a.index_spec() <= b.index_spec(),
        ensures
            a.param_le(b),
            a.radius_le(b),
    {
        let t = a.total_spec();
        assert(a.index_spec() * t <= b.index_spec() * t) by (nonlinear_arith)
            requires
                0 <= a.index_spec() <= b.index_spec(),
                t > 0,
        ;
        assert(5 * a.index_spec() * t <= 5 * b.index_spec() * t) by (nonlinear_arith)
            requires
                a.index_spec() * t <= b.index_spec() * t,
        ;
    }
}

} // verus!
