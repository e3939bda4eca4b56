use vstd::prelude::*;

verus! {

/// Dots per inch of a display on which one logical pixel is one physical pixel.
pub const BASE_DPI: u32 = 160;

/// Ratio of physical pixels to logical pixels, held as a fraction
/// `numer / denom` so that a scale such as 2.625 (420 dpi over 160) is exact.
#[derive(Clone, Copy, Debug)]
pub struct DensityScale {
    numer: u32,
    denom: u32,
}

/// Physical rows covered by `logical` logical rows at the scale
/// `numer / denom`: the product, rounded down.
pub open spec fn scale_px(logical: nat, numer: nat, denom: nat) -> nat
    recommends
        denom > 0,
{
    (logical * numer) / denom
}

impl DensityScale {
    #[verifier::type_invariant]
    spec fn inv(self) -> bool {
        self.numer > 0 && self.denom > 0
    }

    pub closed spec fn spec_numer(self) -> nat {
        self.numer as nat
    }

    pub closed spec fn spec_denom(self) -> nat {
        self.denom as nat
    }

    /// Physical rows that `logical` logical rows cover at this scale.
    pub open spec fn physical(self, logical: nat) -> nat {
        scale_px(logical, self.spec_numer(), self.spec_denom())
    }

    /// The scale `numer / denom`; none where either part is zero.
    pub fn new(numer: u32, denom: u32) -> (scale: Option<DensityScale>)
        ensures
            scale is Some <==> numer > 0 && denom > 0,
            scale matches Some(s) ==> s.spec_numer() == numer && s.spec_denom() == denom,
    {
        if numer == 0 || denom == 0 {
            None
        } else {
            Some(DensityScale { numer, denom })
        }
    }

    /// The scale of a display of `dpi` dots per inch; none for `dpi == 0`.
    pub fn from_dpi(dpi: u32) -> (scale: Option<DensityScale>)
        ensures
            scale is Some <==> dpi > 0,
            scale matches Some(s) ==> s.spec_numer() == dpi && s.spec_denom() == BASE_DPI,
    {
        DensityScale::new(dpi, BASE_DPI)
    }

    /// The scale at which physical and logical pixels coincide.
    pub fn identity() -> (scale: DensityScale)
        ensures
            scale.spec_numer() == 1,
            scale.spec_denom() == 1,
    {
        DensityScale { numer: 1, denom: 1 }
    }

    pub fn numer(&self) -> (n: u32)
        ensures
            n == self.spec_numer(),
            n > 0,
    {
        proof {
            use_type_invariant(self);
        }
        self.numer
    }

    pub fn denom(&self) -> (d: u32)
        ensures
            d == self.spec_denom(),
            d > 0,
    {
        proof {
            use_type_invariant(self);
        }
        self.denom
    }

    /// Converts a logical height to physical rows, rounding down.
    pub fn to_physical(&self, logical: u32) -> (px: u64)
        ensures
            px == self.physical(logical as nat),
    {
        proof {
            use_type_invariant(self);
            assert(logical as nat * self.numer as nat <= 0xFFFF_FFFFu64 * 0xFFFF_FFFFu64)
                by (nonlinear_arith)
                requires
                    logical <= 0xFFFF_FFFFu32,
                    self.numer <= 0xFFFF_FFFFu32,
            ;
        }
        let product: u64 = (logical as u64) * (self.numer as u64);
        product / (self.denom as u64)
    }
}

/// A larger logical height never covers fewer physical rows.
pub proof fn lemma_scale_monotonic(a: nat, b: nat, numer: nat, denom: nat)
    requires
        a <= b,
        denom > 0,
    ensures
        scale_px(a, numer, denom) <= scale_px(b, numer, denom),
{
    assert(a * numer <= b * numer) by (nonlinear_arith)
        requires
            a <= b,
    ;
    vstd::arithmetic::div_mod::lemma_div_is_ordered(
        (a * numer) as int,
        (b * numer) as int,
        denom as int,
    );
}

} // verus!
