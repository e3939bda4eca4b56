use vstd::prelude::*;
use vstd::string::StringExecFns;

verus! {

/// Why a capture session, a crop or a composition did not produce its result.
#[derive(Clone, Copy, Debug, PartialEq, Eq, Structural)]
pub enum CaptureError {
    /// The page geometry is unusable: no measurable height, or no viewport.
    Measurement,
    /// The remote surface did not hand over a snapshot.
    Capture,
    /// A crop asked for at least as many rows as the image has.
    CropBounds,
    /// The scroll position never came to rest within the timeout.
    ScrollTimeout,
    /// The elements never reported the expected visibility within the timeout.
    VisibilityTimeout,
    /// There is no fragment to compose.
    EmptySequence,
    /// A fragment is not a readable raster.
    Decode,
    /// Two fragments of one sequence differ in width.
    WidthMismatch,
    /// A raster could not be written out.
    Encode,
    /// The fragments together are higher than one raster can be.
    TooLarge,
}

impl CaptureError {
    /// Whether a session has to stop on this error. Only a visibility timeout
    /// lets the capture go on.
    pub open spec fn spec_is_fatal(self) -> bool {
        self != CaptureError::VisibilityTimeout
    }

    #[verifier::when_used_as_spec(spec_is_fatal)]
    pub fn is_fatal(self) -> (fatal: bool)
        ensures
            fatal == self.spec_is_fatal(),
    {
        match self {
            CaptureError::VisibilityTimeout => false,
            _ => true,
        }
    }

    /// The text shown to the user for this error.
    pub open spec fn spec_message(self) -> Seq<char> {
        match self {
            CaptureError::Measurement => "Failed to retrieve page height."@,
            CaptureError::Capture => "Failed to take screenshot"@,
            CaptureError::CropBounds => "Image height is smaller than crop height, cannot crop."@,
            CaptureError::ScrollTimeout => "Timed out waiting for scroll to complete"@,
            CaptureError::VisibilityTimeout => "Timed out waiting for elements to become hidden"@,
            CaptureError::EmptySequence => "No screenshots to combine"@,
            CaptureError::Decode => "Failed to load image"@,
            CaptureError::WidthMismatch => "Screenshots differ in width, cannot combine."@,
            CaptureError::Encode => "Failed to save image"@,
            CaptureError::TooLarge => "Screenshots are too high to combine."@,
        }
    }

    pub fn message(self) -> (text: String)
        ensures
            text@ == self.spec_message(),
    {
        match self {
            CaptureError::Measurement => String::from_str("Failed to retrieve page height."),
            CaptureError::Capture => String::from_str("Failed to take screenshot"),
            CaptureError::CropBounds => String::from_str(
                "Image height is smaller than crop height, cannot crop.",
            ),
            CaptureError::ScrollTimeout => String::from_str(
                "Timed out waiting for scroll to complete",
            ),
            CaptureError::VisibilityTimeout => String::from_str(
                "Timed out waiting for elements to become hidden",
            ),
            CaptureError::EmptySequence => String::from_str("No screenshots to combine"),
            CaptureError::Decode => String::from_str("Failed to load image"),
            CaptureError::WidthMismatch => String::from_str(
                "Screenshots differ in width, cannot combine.",
            ),
            CaptureError::Encode => String::from_str("Failed to save image"),
            CaptureError::TooLarge => String::from_str("Screenshots are too high to combine."),
        }
    }
}

/// An error together with what the picture codec said of it. The reason is
/// empty where the error did not come from the codec, or the codec gave none.
#[derive(Debug, PartialEq, Eq)]
pub struct CaptureFailure {
    pub error: CaptureError,
    pub reason: String,
}

/// A failure as plain values.
pub struct FailedView {
    pub error: CaptureError,
    pub reason: Seq<char>,
}

impl View for CaptureFailure {
    type V = FailedView;

    open spec fn view(&self) -> FailedView {
        FailedView { error: self.error, reason: self.reason@ }
    }
}

/// The failure that is `error` and has no reason from the codec.
pub open spec fn plain(error: CaptureError) -> FailedView {
    FailedView { error, reason: Seq::empty() }
}

impl FailedView {
    /// The text shown to the user: the error's message, and after a colon
    /// the codec's reason where there is one.
    pub open spec fn message(self) -> Seq<char> {
        if self.reason.len() == 0 {
            self.error.spec_message()
        } else {
            self.error.spec_message() + ": "@ + self.reason
        }
    }
}

impl Clone for CaptureFailure {
    fn clone(&self) -> (copy: CaptureFailure)
        ensures
            copy@ == self@,
    {
        CaptureFailure { error: self.error, reason: self.reason.clone() }
    }
}

impl CaptureFailure {
    /// The failure that is `error` and has no reason from the codec.
    pub fn plain(error: CaptureError) -> (failure: CaptureFailure)
        ensures
            failure@ == plain(error),
    {
        CaptureFailure { error, reason: String::new() }
    }

    /// The text shown to the user for this failure.
    pub fn message(&self) -> (text: String)
        ensures
            text@ == self@.message(),
    {
        let mut text = self.error.message();
        if self.reason.as_str().unicode_len() > 0 {
            text.append(": ");
            text.append(self.reason.as_str());
        }
        text
    }
}

} // verus!
