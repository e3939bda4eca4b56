use vstd::prelude::*;
use crate::codec::{decode, decoded, encode, encoded, file_is};
use crate::density::{scale_px, DensityScale};
use crate::error::{plain, CaptureError, CaptureFailure, FailedView};
use crate::metrics::{directive_view, CropDirective};
use crate::raster::{Raster, RasterView};

verus! {

/// What keeping the top `keep_px` rows of `image` gives: those rows, or a
/// bounds error where the image has no row beyond them.
pub open spec fn trim_bottom_rows(image: RasterView, keep_px: nat) -> Result<
    RasterView,
    CaptureError,
> {
    if keep_px >= image.height {
        Err(CaptureError::CropBounds)
    } else {
        Ok(image.rows(0, keep_px))
    }
}

/// What removing the top `cut_px` rows of `image` gives: the rows below them,
/// or a bounds error where the image has no row beyond them.
pub open spec fn trim_overlap_rows(image: RasterView, cut_px: nat) -> Result<
    RasterView,
    CaptureError,
> {
    if cut_px >= image.height {
        Err(CaptureError::CropBounds)
    } else {
        Ok(image.rows(cut_px, image.height))
    }
}

/// Whether a result holds the raster, or the error, that is expected of it.
pub open spec fn raster_result_is(
    result: Result<Raster, CaptureError>,
    expected: Result<RasterView, CaptureError>,
) -> bool {
    match result {
        Ok(raster) => expected == Ok::<RasterView, CaptureError>(raster@),
        Err(error) => expected == Err::<RasterView, CaptureError>(error),
    }
}

/// Keeps only the top `logical_height` logical rows of `image`, which strips
/// a band that sits at a fixed place at the bottom of the screen.
pub fn trim_bottom(image: &Raster, logical_height: u32, density: &DensityScale) -> (result: Result<
    Raster,
    CaptureError,
>)
    ensures
        raster_result_is(
            result,
            trim_bottom_rows(image@, density.physical(logical_height as nat)),
        ),
{
    let keep: u64 = density.to_physical(logical_height);
    let height: u32 = image.height();
    if keep >= height as u64 {
        Err(CaptureError::CropBounds)
    } else {
        Ok(image.copy_rows(0, keep as u32))
    }
}

/// Removes the top `logical_overlap` logical rows of `image`: the part of the
/// last fragment that the fragment before it already shows.
pub fn trim_overlap(image: &Raster, logical_overlap: u32, density: &DensityScale) -> (result:
    Result<Raster, CaptureError>)
    ensures
        raster_result_is(
            result,
            trim_overlap_rows(image@, density.physical(logical_overlap as nat)),
        ),
{
    let cut: u64 = density.to_physical(logical_overlap);
    let height: u32 = image.height();
    if cut >= height as u64 {
        Err(CaptureError::CropBounds)
    } else {
        Ok(image.copy_rows(cut as u32, height))
    }
}

/// What cutting a band of `band_px` rows off the bottom of `image` gives: the
/// rows above the band, or a bounds error where the band is as high as the
/// image or higher.
pub open spec fn trim_band_rows(image: RasterView, band_px: nat) -> Result<
    RasterView,
    CaptureError,
> {
    if band_px >= image.height {
        Err(CaptureError::CropBounds)
    } else {
        Ok(image.rows(0, (image.height - band_px) as nat))
    }
}

/// Cuts a band of `logical_band` logical rows off the bottom of `image`.
pub fn trim_band(image: &Raster, logical_band: u32, density: &DensityScale) -> (result: Result<
    Raster,
    CaptureError,
>)
    ensures
        raster_result_is(result, trim_band_rows(image@, density.physical(logical_band as nat))),
{
    let band: u64 = density.to_physical(logical_band);
    let height: u32 = image.height();
    if band >= height as u64 {
        Err(CaptureError::CropBounds)
    } else {
        Ok(image.copy_rows(0, height - band as u32))
    }
}

/// A higher band leaves a strictly lower image, and a band as high as the
/// image, or higher, fails.
pub proof fn lemma_trim_band_monotonic(image: RasterView, less: nat, more: nat)
    requires
        less < more,
    ensures
        more >= image.height ==> trim_band_rows(image, more) is Err,
        more < image.height ==> trim_band_rows(image, more)->Ok_0.height < trim_band_rows(
            image,
            less,
        )->Ok_0.height,
        trim_band_rows(image, less) is Ok ==> trim_band_rows(image, less)->Ok_0.height
            == image.height - less,
{
}

/// Removing more rows from the top leaves a strictly lower image, and
/// removing as many rows as the image has, or more, fails.
pub proof fn lemma_trim_overlap_monotonic(image: RasterView, less: nat, more: nat)
    requires
        less < more,
    ensures
        more >= image.height ==> trim_overlap_rows(image, more) is Err,
        more < image.height ==> trim_overlap_rows(image, more)->Ok_0.height < trim_overlap_rows(
            image,
            less,
        )->Ok_0.height,
        trim_overlap_rows(image, less) is Ok ==> trim_overlap_rows(image, less)->Ok_0.height
            == image.height - less,
{
}

/// The band that `trim_bottom_rows` removes is what lies below the kept
/// rows. A larger band leaves a strictly lower image, and keeping as many
/// rows as the image has, or more, fails.
pub proof fn lemma_trim_bottom_monotonic(image: RasterView, keep_less: nat, keep_more: nat)
    requires
        keep_less < keep_more,
    ensures
        keep_more >= image.height ==> trim_bottom_rows(image, keep_more) is Err,
        keep_more < image.height ==> {
            let low = trim_bottom_rows(image, keep_less)->Ok_0;
            let high = trim_bottom_rows(image, keep_more)->Ok_0;
            &&& low.height == keep_less
            &&& high.height == keep_more
            &&& image.height - low.height > image.height - high.height
            &&& low.height < high.height
        },
{
}

/// On a display at least as dense as the baseline, a strictly larger logical
/// height covers strictly more physical rows.
pub proof fn lemma_scale_strict(less: nat, more: nat, numer: nat, denom: nat)
    requires
        less < more,
        0 < denom <= numer,
    ensures
        scale_px(less, numer, denom) < scale_px(more, numer, denom),
{
    assert((less + 1) * numer == less * numer + numer) by (nonlinear_arith);
    assert((less + 1) * numer <= more * numer) by (nonlinear_arith)
        requires
            less + 1 <= more,
    ;
    assert(less * numer + denom <= more * numer);
    vstd::arithmetic::div_mod::lemma_div_is_ordered(
        (less * numer + denom) as int,
        (more * numer) as int,
        denom as int,
    );
    vstd::arithmetic::div_mod::lemma_div_plus_one((less * numer) as int, denom as int);
}

/// A crop keeps the width and leaves a well-formed raster.
pub proof fn lemma_rows_valid(image: RasterView, from: nat, to: nat)
    requires
        image.valid(),
        from <= to <= image.height,
    ensures
        image.rows(from, to).valid(),
        image.rows(from, to).width == image.width,
        image.rows(from, to).height == to - from,
{
    crate::raster::lemma_row_range(image.width, image.height, from, to);
}

/// What a crop of an encoded picture gives: the encoded crop, or the first
/// reason there is none. A picture that does not decode is refused first,
/// then a crop out of bounds, then a crop that cannot be encoded.
pub open spec fn cropped_file(
    cropped: Result<Result<RasterView, CaptureError>, FailedView>,
) -> Result<Seq<u8>, FailedView> {
    match cropped {
        Err(failure) => Err(failure),
        Ok(Err(error)) => Err(plain(error)),
        Ok(Ok(image)) => encoded(image),
    }
}

/// The file left when only the top `keep_px` rows of the picture in `data`
/// are kept.
pub open spec fn trimmed_file(data: Seq<u8>, keep_px: nat) -> Result<Seq<u8>, FailedView> {
    cropped_file(
        match decoded(data) {
            Ok(image) => Ok(trim_bottom_rows(image, keep_px)),
            Err(failure) => Err(failure),
        },
    )
}

/// The file left when the top `cut_px` rows of the picture in `data` are
/// removed.
pub open spec fn overlap_cut_file(data: Seq<u8>, cut_px: nat) -> Result<Seq<u8>, FailedView> {
    cropped_file(
        match decoded(data) {
            Ok(image) => Ok(trim_overlap_rows(image, cut_px)),
            Err(failure) => Err(failure),
        },
    )
}

/// Cuts the space below the viewport off an encoded snapshot: decodes it,
/// keeps the top `inner_height` logical rows and encodes what is left.
pub fn trim_extra_space(image_data: &[u8], inner_height: u32, density: &DensityScale) -> (result:
    Result<Vec<u8>, CaptureFailure>)
    ensures
        file_is(result, trimmed_file(image_data@, density.physical(inner_height as nat))),
{
    match decode(image_data) {
        Ok(image) => match trim_bottom(&image, inner_height, density) {
            Ok(cropped) => encode(&cropped),
            Err(error) => Err(CaptureFailure::plain(error)),
        },
        Err(failure) => Err(failure),
    }
}

/// The file left when a band of `band_px` rows is cut off the bottom of the
/// picture in `data`.
pub open spec fn band_cut_file(data: Seq<u8>, band_px: nat) -> Result<Seq<u8>, FailedView> {
    cropped_file(
        match decoded(data) {
            Ok(image) => Ok(trim_band_rows(image, band_px)),
            Err(failure) => Err(failure),
        },
    )
}

/// Cuts the navigation bar off an encoded snapshot: decodes it, removes the
/// bottom `navigation_bar_height` logical rows and encodes what is left.
pub fn crop_image(image_data: &[u8], navigation_bar_height: u32, density: &DensityScale) -> (result:
    Result<Vec<u8>, CaptureFailure>)
    ensures
        file_is(
            result,
            band_cut_file(image_data@, density.physical(navigation_bar_height as nat)),
        ),
{
    match decode(image_data) {
        Ok(image) => match trim_band(&image, navigation_bar_height, density) {
            Ok(cropped) => encode(&cropped),
            Err(error) => Err(CaptureFailure::plain(error)),
        },
        Err(failure) => Err(failure),
    }
}

/// Cuts off an encoded snapshot the rows that the snapshot before it already
/// shows: decodes it, removes the top `scroll_overlap_height` logical rows and
/// encodes what is left.
pub fn cut_scroll_overlap(
    image_data: &[u8],
    scroll_overlap_height: u32,
    density: &DensityScale,
) -> (result: Result<Vec<u8>, CaptureFailure>)
    ensures
        file_is(
            result,
            overlap_cut_file(image_data@, density.physical(scroll_overlap_height as nat)),
        ),
{
    match decode(image_data) {
        Ok(image) => match trim_overlap(&image, scroll_overlap_height, density) {
            Ok(cropped) => encode(&cropped),
            Err(error) => Err(CaptureFailure::plain(error)),
        },
        Err(failure) => Err(failure),
    }
}

/// What cropping `image` by a directive gives. Where the directive removes
/// an overlap, that is removed first and the band below is cut off what is
/// left: the band sits at a fixed place on the screen, the overlap depends on
/// how far the last scroll went.
pub open spec fn cropped_rows(
    image: RasterView,
    directive: (Option<nat>, nat),
    numer: nat,
    denom: nat,
) -> Result<RasterView, CaptureError> {
    match directive.0 {
        Some(overlap) => match trim_overlap_rows(image, scale_px(overlap, numer, denom)) {
            Ok(rest) => trim_bottom_rows(rest, scale_px(directive.1, numer, denom)),
            Err(error) => Err(error),
        },
        None => trim_bottom_rows(image, scale_px(directive.1, numer, denom)),
    }
}

/// The file of a fragment cropped by a directive.
pub open spec fn fragment_file(
    data: Seq<u8>,
    directive: (Option<nat>, nat),
    numer: nat,
    denom: nat,
) -> Result<Seq<u8>, FailedView> {
    cropped_file(
        match decoded(data) {
            Ok(image) => Ok(cropped_rows(image, directive, numer, denom)),
            Err(failure) => Err(failure),
        },
    )
}

/// Crops a raster by a directive.
pub fn crop_raster(image: &Raster, directive: CropDirective, density: &DensityScale) -> (result:
    Result<Raster, CaptureError>)
    ensures
        raster_result_is(
            result,
            cropped_rows(
                image@,
                directive_view(directive),
                density.spec_numer(),
                density.spec_denom(),
            ),
        ),
{
    match directive.overlap {
        Some(overlap) => match trim_overlap(image, overlap, density) {
            Ok(rest) => trim_bottom(&rest, directive.keep, density),
            Err(error) => Err(error),
        },
        None => trim_bottom(image, directive.keep, density),
    }
}

/// Crops an encoded snapshot by a directive: one decoding, the crop, one
/// encoding.
pub fn crop_fragment(image_data: &[u8], directive: CropDirective, density: &DensityScale) -> (result:
    Result<Vec<u8>, CaptureFailure>)
    ensures
        file_is(
            result,
            fragment_file(
                image_data@,
                directive_view(directive),
                density.spec_numer(),
                density.spec_denom(),
            ),
        ),
{
    match decode(image_data) {
        Ok(image) => match crop_raster(&image, directive, density) {
            Ok(cropped) => encode(&cropped),
            Err(error) => Err(CaptureFailure::plain(error)),
        },
        Err(failure) => Err(failure),
    }
}

} // verus!
