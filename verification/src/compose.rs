use vstd::prelude::*;
use crate::codec::{decode, decoded, encode, encoded, file_is};
use crate::error::{plain, CaptureError, CaptureFailure, FailedView};
use crate::raster::{Raster, RasterView};

verus! {

/// Height of the first `count` fragments together.
pub open spec fn summed_height(fragments: Seq<RasterView>, count: nat) -> nat
    recommends
        count <= fragments.len(),
    decreases count,
{
    if count == 0 {
        0
    } else {
        summed_height(fragments, (count - 1) as nat) + fragments[count - 1].height
    }
}

/// Bytes of the first `count` fragments, one fragment after the other.
pub open spec fn joined_pixels(fragments: Seq<RasterView>, count: nat) -> Seq<u8>
    recommends
        count <= fragments.len(),
    decreases count,
{
    if count == 0 {
        Seq::empty()
    } else {
        joined_pixels(fragments, (count - 1) as nat) + fragments[count - 1].pixels
    }
}

/// All fragments are as wide as the first.
pub open spec fn uniform_width(fragments: Seq<RasterView>) -> bool {
    forall|i: int| 0 <= i < fragments.len() ==> #[trigger] fragments[i].width == fragments[0].width
}

/// The fragments set one under the other, in their order.
pub open spec fn stacked(fragments: Seq<RasterView>) -> RasterView
    recommends
        fragments.len() > 0,
{
    RasterView {
        width: fragments[0].width,
        height: summed_height(fragments, fragments.len()),
        pixels: joined_pixels(fragments, fragments.len()),
    }
}

/// What composing `fragments` gives: the stacked image, or the reason there
/// is none.
pub open spec fn combined(fragments: Seq<RasterView>) -> Result<RasterView, CaptureError> {
    if fragments.len() == 0 {
        Err(CaptureError::EmptySequence)
    } else if !uniform_width(fragments) {
        Err(CaptureError::WidthMismatch)
    } else if summed_height(fragments, fragments.len()) > u32::MAX {
        Err(CaptureError::TooLarge)
    } else {
        Ok(stacked(fragments))
    }
}

/// The views of a sequence of rasters.
pub open spec fn views(fragments: Seq<Raster>) -> Seq<RasterView> {
    Seq::new(fragments.len(), |i: int| fragments[i]@)
}

/// Stacked fragments of one width hold exactly the bytes of their rows.
pub proof fn lemma_stacked_valid(fragments: Seq<RasterView>, count: nat)
    requires
        count <= fragments.len(),
        fragments.len() > 0,
        uniform_width(fragments),
        forall|i: int| 0 <= i < fragments.len() ==> (#[trigger] fragments[i]).valid(),
    ensures
        joined_pixels(fragments, count).len() == fragments[0].width * summed_height(
            fragments,
            count,
        ) * 4,
    decreases count,
{
    if count > 0 {
        let before = (count - 1) as nat;
        lemma_stacked_valid(fragments, before);
        let width = fragments[0].width;
        let above = summed_height(fragments, before);
        let last = fragments[count - 1];
        assert(last.valid());
        assert(last.width == width);
        assert(width * (above + last.height) * 4 == width * above * 4 + width * last.height * 4)
            by (nonlinear_arith);
    } else {
        assert(fragments[0].width * 0 * 4 == 0) by (nonlinear_arith);
    }
}

/// The height of a prefix never exceeds the height of a longer prefix.
pub proof fn lemma_summed_height_grows(fragments: Seq<RasterView>, shorter: nat, longer: nat)
    requires
        shorter <= longer,
    ensures
        summed_height(fragments, shorter) <= summed_height(fragments, longer),
    decreases longer,
{
    if shorter < longer {
        lemma_summed_height_grows(fragments, shorter, (longer - 1) as nat);
    }
}

/// Composing a single fragment gives that fragment back: the same size and
/// the same bytes.
pub proof fn lemma_combine_single(fragment: RasterView)
    requires
        fragment.valid(),
    ensures
        combined(seq![fragment]) == Ok::<RasterView, CaptureError>(fragment),
{
    let fragments = seq![fragment];
    assert(fragments.len() == 1);
    assert(fragments[0] == fragment);
    assert(summed_height(fragments, 0) == 0);
    assert(summed_height(fragments, 1) == fragment.height) by {
        reveal_with_fuel(summed_height, 2);
    }
    assert(joined_pixels(fragments, 1) =~= fragment.pixels) by {
        reveal_with_fuel(joined_pixels, 2);
    }
    assert(uniform_width(fragments));
}

/// The composite is as high as all fragments together and as wide as each.
pub proof fn lemma_combined_size(fragments: Seq<RasterView>)
    requires
        combined(fragments) is Ok,
        forall|i: int| 0 <= i < fragments.len() ==> (#[trigger] fragments[i]).valid(),
    ensures
        combined(fragments)->Ok_0.height == summed_height(fragments, fragments.len()),
        combined(fragments)->Ok_0.width == fragments[0].width,
        combined(fragments)->Ok_0.valid(),
{
    lemma_stacked_valid(fragments, fragments.len());
}

/// Sets the fragments one under the other, top to bottom in their order,
/// alpha kept as it is.
pub fn combine(fragments: &Vec<Raster>) -> (result: Result<Raster, CaptureError>)
    ensures
        match result {
            Ok(image) => combined(views(fragments@)) == Ok::<RasterView, CaptureError>(image@),
            Err(error) => combined(views(fragments@)) == Err::<RasterView, CaptureError>(error),
        },
{
    let count: usize = fragments.len();
    let ghost all = views(fragments@);
    if count == 0 {
        return Err(CaptureError::EmptySequence);
    }
    let width: u32 = fragments[0].width();
    let mut i: usize = 1;
    while i < count
        invariant
            1 <= i <= count,
            count == fragments@.len(),
            all == views(fragments@),
            width == all[0].width,
            forall|k: int| 0 <= k < i ==> #[trigger] all[k].width == width,
        decreases count - i,
    {
        if fragments[i].width() != width {
            assert(all[i as int].width != all[0].width);
            return Err(CaptureError::WidthMismatch);
        }
        i += 1;
    }
    assert(uniform_width(all));
    let mut total: u64 = 0;
    let mut j: usize = 0;
    while j < count
        invariant
            0 <= j <= count,
            count == fragments@.len(),
            all == views(fragments@),
            uniform_width(all),
            total == summed_height(all, j as nat),
            total <= u32::MAX,
        decreases count - j,
    {
        let height: u32 = fragments[j].height();
        assert(all[j as int].height == height);
        if total + height as u64 > u32::MAX as u64 {
            proof {
                assert(summed_height(all, (j + 1) as nat) == total + height);
                lemma_summed_height_grows(all, (j + 1) as nat, count as nat);
            }
            return Err(CaptureError::TooLarge);
        }
        total = total + height as u64;
        j += 1;
    }
    let mut pixels: Vec<u8> = Vec::new();
    let mut k: usize = 0;
    while k < count
        invariant
            0 <= k <= count,
            count == fragments@.len(),
            all == views(fragments@),
            uniform_width(all),
            width == all[0].width,
            total == summed_height(all, count as nat),
            total <= u32::MAX,
            pixels@ == joined_pixels(all, k as nat),
            forall|m: int| 0 <= m < k ==> (#[trigger] all[m]).valid(),
        decreases count - k,
    {
        let part = fragments[k].pixels();
        assert(all[k as int].pixels == part@);
        let ghost before = pixels@;
        pixels.extend_from_slice(part.as_slice());
        assert(pixels@ =~= before + part@);
        k += 1;
    }
    proof {
        lemma_stacked_valid(all, count as nat);
    }
    match Raster::new(width, total as u32, pixels) {
        Some(image) => Ok(image),
        None => Err(CaptureError::TooLarge),
    }
}

/// The bytes of each file of a sequence.
pub open spec fn file_views(files: Seq<Vec<u8>>) -> Seq<Seq<u8>> {
    Seq::new(files.len(), |i: int| files[i]@)
}

/// The rasters that the first `count` files decode to, or the failure of the
/// first among them that does not decode.
pub open spec fn decoded_prefix(files: Seq<Seq<u8>>, count: nat) -> Result<
    Seq<RasterView>,
    FailedView,
>
    recommends
        count <= files.len(),
    decreases count,
{
    if count == 0 {
        Ok(Seq::empty())
    } else {
        match decoded_prefix(files, (count - 1) as nat) {
            Ok(rasters) => match decoded(files[count - 1]) {
                Ok(raster) => Ok(rasters.push(raster)),
                Err(failure) => Err(failure),
            },
            Err(failure) => Err(failure),
        }
    }
}

/// What composing encoded fragments gives: the encoded composite, or the
/// first reason there is none. An empty sequence is refused first, then the
/// first fragment that does not decode, then what `combined` refuses, then a
/// composite that cannot be encoded.
pub open spec fn combined_file(files: Seq<Seq<u8>>) -> Result<Seq<u8>, FailedView> {
    if files.len() == 0 {
        Err(plain(CaptureError::EmptySequence))
    } else {
        match decoded_prefix(files, files.len()) {
            Err(failure) => Err(failure),
            Ok(rasters) => match combined(rasters) {
                Err(error) => Err(plain(error)),
                Ok(image) => encoded(image),
            },
        }
    }
}

/// Composing a single encoded fragment gives the encoding of the very raster
/// that the fragment decodes to: the same size and the same bytes.
pub proof fn lemma_combine_single_file(file: Seq<u8>)
    ensures
        combined_file(seq![file]) == match decoded(file) {
            Ok(image) => encoded(image),
            Err(failure) => Err(failure),
        },
{
    let files = seq![file];
    assert(files[0] == file);
    reveal_with_fuel(decoded_prefix, 2);
    match decoded(file) {
        Ok(image) => {
            assert(decoded_prefix(files, 1) == Ok::<Seq<RasterView>, FailedView>(
                Seq::<RasterView>::empty().push(image),
            ));
            assert(Seq::<RasterView>::empty().push(image) =~= seq![image]);
            lemma_combine_single(image);
        },
        Err(failure) => {},
    }
}

/// Decodes the fragments, sets them one under the other and encodes the
/// composite once.
pub fn combine_screenshots(screenshots: Vec<Vec<u8>>) -> (result: Result<Vec<u8>, CaptureFailure>)
    ensures
        file_is(result, combined_file(file_views(screenshots@))),
{
    let count: usize = screenshots.len();
    let ghost files = file_views(screenshots@);
    if count == 0 {
        return Err(CaptureFailure::plain(CaptureError::EmptySequence));
    }
    let mut fragments: Vec<Raster> = Vec::new();
    let mut i: usize = 0;
    assert(views(fragments@) =~= Seq::<RasterView>::empty());
    while i < count
        invariant
            0 <= i <= count,
            count == screenshots@.len(),
            files == file_views(screenshots@),
            decoded_prefix(files, i as nat) == Ok::<Seq<RasterView>, FailedView>(
                views(fragments@),
            ),
        decreases count - i,
    {
        let ghost before = views(fragments@);
        match decode(screenshots[i].as_slice()) {
            Ok(fragment) => {
                fragments.push(fragment);
                assert(views(fragments@) =~= before.push(fragment@));
            },
            Err(failure) => {
                proof {
                    lemma_prefix_failure(files, (i + 1) as nat, count as nat);
                }
                return Err(failure);
            },
        }
        i += 1;
    }
    match combine(&fragments) {
        Ok(image) => encode(&image),
        Err(error) => Err(CaptureFailure::plain(error)),
    }
}

/// A failure among the first files is the failure of every longer run of
/// them.
pub proof fn lemma_prefix_failure(files: Seq<Seq<u8>>, shorter: nat, longer: nat)
    requires
        shorter <= longer,
        decoded_prefix(files, shorter) is Err,
    ensures
        decoded_prefix(files, longer) == decoded_prefix(files, shorter),
    decreases longer,
{
    if shorter < longer {
        lemma_prefix_failure(files, shorter, (longer - 1) as nat);
    }
}

} // verus!
