use vstd::prelude::*;
use crate::density::scale_px;
use crate::error::CaptureError;

verus! {

/// Geometry of the page as measured once at the start of a session, in
/// logical pixels. Both heights are positive.
#[derive(Clone, Copy, Debug)]
pub struct PageMetrics {
    total_scrollable_height: u32,
    viewport_height: u32,
}

/// How a fragment is to be cropped, in logical rows.
#[derive(Clone, Copy, Debug, PartialEq, Eq, Structural)]
pub struct CropDirective {
    /// Rows to remove from the top because the fragment before shows them
    /// already; set on the last fragment only.
    pub overlap: Option<u32>,
    /// Rows to keep after that, counted from the top; what lies below is the
    /// band of the browser's own controls.
    pub keep: u32,
}

/// The number of viewports needed to cover `total` rows: `total / viewport`,
/// rounded up.
pub open spec fn steps_for(total: nat, viewport: nat) -> nat
    recommends
        viewport > 0,
{
    ((total + viewport - 1) / viewport as int) as nat
}

/// Rows of the last viewport that the one before already showed.
pub open spec fn overlap_for(total: nat, viewport: nat) -> nat
    recommends
        viewport > 0,
{
    (viewport * steps_for(total, viewport) - total) as nat
}

/// How far to scroll from `offset`: one viewport, or what is left of the
/// page where that is less.
pub open spec fn scroll_for(total: nat, viewport: nat, offset: nat) -> nat {
    if offset >= total {
        0
    } else if total - offset < viewport {
        (total - offset) as nat
    } else {
        viewport
    }
}

/// The crop of fragment number `index` (counted from 1). Every fragment but
/// the last keeps the rows of one viewport. The last loses the overlap at its
/// top and keeps what the viewport shows below it; the band of the browser's
/// own controls, which follows, is cut off each fragment.
pub open spec fn directive_for(total: nat, viewport: nat, index: nat) -> (Option<nat>, nat) {
    if index == steps_for(total, viewport) {
        (
            Some(overlap_for(total, viewport)),
            (viewport - overlap_for(total, viewport)) as nat,
        )
    } else {
        (None, viewport)
    }
}

/// `steps_for` is the least number of viewports that cover the page.
pub proof fn lemma_steps_cover(total: nat, viewport: nat)
    requires
        total > 0,
        viewport > 0,
    ensures
        steps_for(total, viewport) >= 1,
        viewport * (steps_for(total, viewport) - 1) < total,
        total <= viewport * steps_for(total, viewport),
        overlap_for(total, viewport) < viewport,
        steps_for(total, viewport) <= total,
{
    let n = total + viewport - 1;
    let q = n / viewport as int;
    vstd::arithmetic::div_mod::lemma_fundamental_div_mod(n, viewport as int);
    vstd::arithmetic::div_mod::lemma_mod_bound(n, viewport as int);
    assert(n == viewport * q + n % (viewport as int));
    assert(q >= 1) by (nonlinear_arith)
        requires
            n == viewport * q + n % (viewport as int),
            0 <= n % (viewport as int) < viewport,
            n >= viewport,
    ;
    assert(viewport * (q - 1) == viewport * q - viewport) by (nonlinear_arith);
    assert(q <= total) by (nonlinear_arith)
        requires
            viewport * q <= total + viewport - 1,
            viewport >= 1,
            q >= 1,
            total >= 1,
    ;
}

/// A page that fits in one viewport is covered in exactly one step.
pub proof fn lemma_single_step(total: nat, viewport: nat)
    requires
        0 < total <= viewport,
    ensures
        steps_for(total, viewport) == 1,
        directive_for(total, viewport, 1) == (
            Some((viewport - total) as nat),
            total,
        ),
{
    lemma_steps_cover(total, viewport);
    let steps = steps_for(total, viewport);
    assert(steps == 1) by (nonlinear_arith)
        requires
            steps >= 1,
            viewport * (steps - 1) < total,
            total <= viewport,
    ;
    assert(viewport * 1 == viewport) by (nonlinear_arith);
}

/// A page of exactly `count` viewports takes `count` steps, and its last
/// fragment overlaps nothing.
pub proof fn lemma_exact_multiple(count: nat, viewport: nat)
    requires
        count > 0,
        viewport > 0,
    ensures
        steps_for(count * viewport, viewport) == count,
        overlap_for(count * viewport, viewport) == 0,
{
    let total = count * viewport;
    assert(total > 0) by (nonlinear_arith)
        requires
            total == count * viewport,
            count > 0,
            viewport > 0,
    ;
    lemma_steps_cover(total, viewport);
    let steps = steps_for(total, viewport);
    assert(steps == count) by (nonlinear_arith)
        requires
            viewport * (steps - 1) < total,
            total <= viewport * steps,
            total == count * viewport,
            viewport > 0,
            steps >= 1,
            count >= 1,
    ;
    assert(viewport * count == count * viewport) by (nonlinear_arith);
}

/// The fragments of a plan cover the page once: the rows kept of all
/// fragments but the last, a viewport each, and the rows kept of the last
/// make up the page's height.
pub proof fn lemma_plan_covers_page(total: nat, viewport: nat)
    requires
        total > 0,
        viewport > 0,
    ensures
        ({
            let steps = steps_for(total, viewport);
            let last = directive_for(total, viewport, steps);
            &&& last.0 == Some(overlap_for(total, viewport))
            &&& viewport * (steps - 1) + last.1 == total
            &&& 0 < last.1 <= viewport
            &&& forall|index: nat|
                1 <= index < steps ==> #[trigger] directive_for(total, viewport, index) == (
                    None::<nat>,
                    viewport,
                )
        }),
{
    lemma_steps_cover(total, viewport);
    let steps = steps_for(total, viewport);
    assert(viewport * (steps - 1) == viewport * steps - viewport) by (nonlinear_arith);
}

/// Scrolled a viewport at a time from the top, the page is at its end after
/// as many scrolls as there are steps, and the last of them is as long as
/// the rows kept of the last fragment: a viewport less the overlap.
pub proof fn lemma_last_scroll_is_what_is_left(total: nat, viewport: nat)
    requires
        total > 0,
        viewport > 0,
    ensures
        ({
            let steps = steps_for(total, viewport);
            &&& scroll_for(total, viewport, viewport * (steps - 1) as nat) == viewport
                - overlap_for(total, viewport)
            &&& forall|index: nat|
                1 <= index < steps ==> #[trigger] scroll_for(
                    total,
                    viewport,
                    viewport * (index - 1) as nat,
                ) == viewport
        }),
{
    lemma_steps_cover(total, viewport);
    let steps = steps_for(total, viewport);
    assert(viewport * (steps - 1) == viewport * steps - viewport) by (nonlinear_arith);
    assert forall|index: nat| 1 <= index < steps implies #[trigger] scroll_for(
        total,
        viewport,
        viewport * (index - 1) as nat,
    ) == viewport by {
        assert(viewport * (index - 1) + viewport <= viewport * (steps - 1)) by (nonlinear_arith)
            requires
                1 <= index < steps,
                viewport > 0,
        ;
    }
}

/// At a density of a whole number the rows kept of all fragments together
/// are the page's height in physical rows, so the composite is exactly as
/// high as the page.
pub proof fn lemma_kept_rows_make_the_page(total: nat, viewport: nat, density: nat)
    requires
        total > 0,
        viewport > 0,
        density > 0,
    ensures
        ({
            let steps = steps_for(total, viewport);
            let last = directive_for(total, viewport, steps);
            (steps - 1) * scale_px(viewport, density, 1) + scale_px(last.1, density, 1) == total
                * density
        }),
{
    lemma_plan_covers_page(total, viewport);
    let steps = steps_for(total, viewport);
    let last = directive_for(total, viewport, steps).1;
    assert((steps - 1) * (viewport * density) + last * density == (viewport * (steps - 1) + last)
        * density) by (nonlinear_arith);
}

impl PageMetrics {
    #[verifier::type_invariant]
    spec fn inv(self) -> bool {
        self.total_scrollable_height > 0 && self.viewport_height > 0
    }

    pub closed spec fn total(self) -> nat {
        self.total_scrollable_height as nat
    }

    pub closed spec fn viewport(self) -> nat {
        self.viewport_height as nat
    }

    /// Number of capture steps planned for this page.
    pub open spec fn steps(self) -> nat {
        steps_for(self.total(), self.viewport())
    }

    /// Metrics of a page `total_scrollable_height` rows high seen through a
    /// viewport of `viewport_height` rows; a measurement error unless both are
    /// positive and fit in thirty-two bits.
    pub fn new(total_scrollable_height: i64, viewport_height: i64) -> (result: Result<
        PageMetrics,
        CaptureError,
    >)
        ensures
            result is Ok <==> 0 < total_scrollable_height <= u32::MAX && 0 < viewport_height
                <= u32::MAX,
            result matches Ok(metrics) ==> metrics.total() == total_scrollable_height
                && metrics.viewport() == viewport_height,
            result matches Err(error) ==> error == CaptureError::Measurement,
    {
        if total_scrollable_height <= 0 || total_scrollable_height > 0xFFFF_FFFFi64
            || viewport_height <= 0 || viewport_height > 0xFFFF_FFFFi64 {
            Err(CaptureError::Measurement)
        } else {
            Ok(
                PageMetrics {
                    total_scrollable_height: total_scrollable_height as u32,
                    viewport_height: viewport_height as u32,
                },
            )
        }
    }

    pub fn total_scrollable_height(&self) -> (height: u32)
        ensures
            height == self.total(),
            height > 0,
    {
        proof {
            use_type_invariant(self);
        }
        self.total_scrollable_height
    }

    pub fn viewport_height(&self) -> (height: u32)
        ensures
            height == self.viewport(),
            height > 0,
    {
        proof {
            use_type_invariant(self);
        }
        self.viewport_height
    }

    /// The number of capture steps: the page height over the viewport
    /// height, rounded up.
    pub fn step_count(&self) -> (steps: u32)
        ensures
            steps == self.steps(),
            steps >= 1,
    {
        proof {
            use_type_invariant(self);
            lemma_steps_cover(self.total(), self.viewport());
        }
        let total: u64 = self.total_scrollable_height as u64;
        let viewport: u64 = self.viewport_height as u64;
        let steps: u64 = (total + viewport - 1) / viewport;
        steps as u32
    }

    /// Rows at the top of the last fragment that the fragment before it
    /// shows already.
    pub fn final_overlap(&self) -> (overlap: u32)
        ensures
            overlap == overlap_for(self.total(), self.viewport()),
            overlap < self.viewport(),
    {
        proof {
            use_type_invariant(self);
            lemma_steps_cover(self.total(), self.viewport());
        }
        let steps: u64 = self.step_count() as u64;
        let viewport: u64 = self.viewport_height as u64;
        proof {
            assert(viewport * steps <= 0xFFFF_FFFFu64 * 0xFFFF_FFFFu64) by (nonlinear_arith)
                requires
                    viewport <= 0xFFFF_FFFFu64,
                    steps <= 0xFFFF_FFFFu64,
            ;
        }
        let covered: u64 = viewport * steps;
        (covered - self.total_scrollable_height as u64) as u32
    }

    /// How far to scroll when the page stands at `offset`.
    pub fn scroll_amount(&self, offset: u32) -> (amount: u32)
        ensures
            amount == scroll_for(self.total(), self.viewport(), offset as nat),
    {
        if offset >= self.total_scrollable_height {
            0
        } else {
            let remaining: u32 = self.total_scrollable_height - offset;
            if remaining < self.viewport_height {
                remaining
            } else {
                self.viewport_height
            }
        }
    }

    /// How to crop fragment number `index`, counted from 1.
    pub fn crop_directive(&self, index: u32) -> (directive: CropDirective)
        ensures
            directive_view(directive) == directive_for(
                self.total(),
                self.viewport(),
                index as nat,
            ),
    {
        if index == self.step_count() {
            let overlap: u32 = self.final_overlap();
            CropDirective { overlap: Some(overlap), keep: self.viewport_height - overlap }
        } else {
            CropDirective { overlap: None, keep: self.viewport_height }
        }
    }
}

/// A directive as plain numbers.
pub open spec fn directive_view(directive: CropDirective) -> (Option<nat>, nat) {
    (
        match directive.overlap {
            Some(rows) => Some(rows as nat),
            None => None,
        },
        directive.keep as nat,
    )
}

/// Reads the probe's answer: the page's scroll height and the window's inner
/// height, each absent where the probe did not report it. An absent value
/// counts as zero, and the page cannot be captured unless both are positive.
pub fn get_page_metrics(total_scroll_height: Option<i64>, inner_height: Option<i64>) -> (result:
    Result<PageMetrics, CaptureError>)
    ensures
        result is Ok <==> reported(total_scroll_height) > 0 && reported(inner_height) > 0,
        result matches Ok(metrics) ==> metrics.total() == reported(total_scroll_height)
            && metrics.viewport() == reported(inner_height),
        result matches Err(error) ==> error == CaptureError::Measurement,
{
    let total: i64 = match total_scroll_height {
        Some(height) => height,
        None => 0,
    };
    let inner: i64 = match inner_height {
        Some(height) => height,
        None => 0,
    };
    PageMetrics::new(total, inner)
}

/// The height that a probe's answer stands for: the value where it is a
/// height that fits in thirty-two bits, zero otherwise.
pub open spec fn reported(value: Option<i64>) -> nat {
    match value {
        Some(height) => if 0 < height <= u32::MAX {
            height as nat
        } else {
            0
        },
        None => 0,
    }
}

} // verus!
