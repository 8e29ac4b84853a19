//! The decisions of one assertion, as a state machine. The caller performs
//! each action it returns (a file write, a file read, a similarity score) and
//! hands back what happened as the next event.

use vstd::prelude::*;
use crate::artifact::{artifact_path, artifact_path_of};
use crate::mode::Mode;
use crate::raster::{buffer_len, zeros, PixelFormat, RasterImage};

verus! {

/// How far an assertion has come.
#[derive(Clone, Copy, Debug, PartialEq, Eq, Structural)]
pub enum Phase {
    Start,
    /// Waiting for the actual image to be written over the baseline.
    Overwriting,
    /// Waiting for the baseline to be read.
    Loading,
    /// Waiting for the similarity of baseline and actual image.
    Comparing,
    /// Waiting for the artifact copy to be written; remembers the comparison.
    Storing { mismatch: bool },
    Finished,
}

/// What reading the baseline gave.
#[derive(Debug)]
pub enum BaselineRead {
    Found(RasterImage),
    /// No file at the baseline path.
    NotFound,
    /// The file exists but could not be read or decoded.
    Unreadable,
}

/// What happened to the last action.
#[derive(Debug)]
pub enum Event {
    /// Starts the assertion.
    Begin,
    /// A write finished, successfully or not.
    Written { ok: bool },
    Loaded(BaselineRead),
    /// The similarity was computed; `mismatch` when the score is below the
    /// threshold.
    Compared { mismatch: bool },
    /// The metric could not compare the images.
    CompareFailed,
}

/// Why an assertion could not reach a verdict on the images.
#[derive(Clone, Copy, Debug, PartialEq, Eq, Structural)]
pub enum Fault {
    /// Reading the baseline or writing an image failed.
    Io,
    /// The metric refused the images.
    Compare,
    /// An event came that does not answer the last action.
    OutOfOrder,
}

/// The outcome of an assertion.
#[derive(Clone, Copy, Debug, PartialEq, Eq, Structural)]
pub enum Verdict {
    Pass,
    /// The score was below the threshold.
    Mismatch,
    Fault(Fault),
}

/// What the caller is to do next.
#[derive(Debug)]
pub enum Action {
    /// Write the actual image, losslessly, to the baseline path.
    WriteBaseline { path: String },
    /// Read the baseline image at `path`.
    ReadBaseline { path: String },
    /// Score the actual image against `expected`, both as 8-bit RGBA.
    Compare { expected: RasterImage },
    /// Write the actual image, losslessly, to `path`, creating its directories.
    StoreArtifact { path: String },
    /// Report the verdict; nothing is left to do.
    Finish(Verdict),
}

/// One assertion on an actual image of `width` x `height` pixels against the
/// baseline at `path`.
#[derive(Debug)]
pub struct Assertion {
    pub mode: Mode,
    pub path: String,
    pub artifact_path: String,
    pub width: u32,
    pub height: u32,
    pub phase: Phase,
}

/// Whether a copy of the actual image is kept, given the mode and the outcome
/// of the comparison.
pub open spec fn stores_artifact(mode: Mode, mismatch: bool) -> bool {
    mode == Mode::StoreArtifact || (mode == Mode::StoreArtifactOnMismatch && mismatch)
}

/// The verdict of a comparison.
pub open spec fn verdict_of(mismatch: bool) -> Verdict {
    if mismatch {
        Verdict::Mismatch
    } else {
        Verdict::Pass
    }
}

/// `img` is the blank canvas standing for a missing baseline: transparent
/// black RGBA of exactly the given dimensions.
pub open spec fn is_blank_canvas(img: RasterImage, width: u32, height: u32) -> bool {
    &&& img.wf()
    &&& img.width == width
    &&& img.height == height
    &&& img.format == PixelFormat::Rgba8
    &&& img.data@ == zeros(buffer_len(width, height, 4) as nat)
}

/// The phase after `event` arrives in `phase`.
pub open spec fn next_phase(mode: Mode, phase: Phase, event: Event) -> Phase {
    match (phase, event) {
        (Phase::Start, Event::Begin) => if mode == Mode::Overwrite {
            Phase::Overwriting
        } else {
            Phase::Loading
        },
        (Phase::Loading, Event::Loaded(BaselineRead::Found(_))) => Phase::Comparing,
        (Phase::Loading, Event::Loaded(BaselineRead::NotFound)) => Phase::Comparing,
        (Phase::Comparing, Event::Compared { mismatch }) => if stores_artifact(mode, mismatch) {
            Phase::Storing { mismatch }
        } else {
            Phase::Finished
        },
        _ => Phase::Finished,
    }
}

/// `r` is the action that answers `event` in the state `a`.
pub open spec fn action_fits(a: Assertion, event: Event, r: Action) -> bool {
    match (a.phase, event) {
        (Phase::Start, Event::Begin) => if a.mode == Mode::Overwrite {
            r == (Action::WriteBaseline { path: a.path })
        } else {
            r == (Action::ReadBaseline { path: a.path })
        },
        (Phase::Overwriting, Event::Written { ok }) => if ok {
            r == Action::Finish(Verdict::Pass)
        } else {
            r == Action::Finish(Verdict::Fault(Fault::Io))
        },
        (Phase::Loading, Event::Loaded(BaselineRead::Found(img))) => r == (Action::Compare {
            expected: img,
        }),
        (Phase::Loading, Event::Loaded(BaselineRead::NotFound)) => r matches Action::Compare {
            expected,
        } && is_blank_canvas(expected, a.width, a.height),
        (Phase::Loading, Event::Loaded(BaselineRead::Unreadable)) => r == Action::Finish(
            Verdict::Fault(Fault::Io),
        ),
        (Phase::Comparing, Event::Compared { mismatch }) => if stores_artifact(a.mode, mismatch) {
            r == (Action::StoreArtifact { path: a.artifact_path })
        } else {
            r == Action::Finish(verdict_of(mismatch))
        },
        (Phase::Comparing, Event::CompareFailed) => r == Action::Finish(
            Verdict::Fault(Fault::Compare),
        ),
        (Phase::Storing { mismatch }, Event::Written { ok }) => if ok {
            r == Action::Finish(verdict_of(mismatch))
        } else {
            r == Action::Finish(Verdict::Fault(Fault::Io))
        },
        _ => r == Action::Finish(Verdict::Fault(Fault::OutOfOrder)),
    }
}

/// `b` and `r` are the state and the action after `event` arrives in `a`.
pub open spec fn steps_to(a: Assertion, event: Event, b: Assertion, r: Action) -> bool {
    &&& b == Assertion { phase: next_phase(a.mode, a.phase, event), ..a }
    &&& action_fits(a, event, r)
}

impl Assertion {
    /// The state stays usable: a blank canvas of the image's size fits in
    /// memory, and the artifact path mirrors the baseline path.
    pub open spec fn wf(&self) -> bool {
        &&& buffer_len(self.width, self.height, 4) <= usize::MAX
        &&& self.artifact_path@ == artifact_path_of(self.path@)
    }

    /// An assertion in `mode` of the image `actual` against the baseline at
    /// `path`. The image's RGBA form must fit in memory.
    pub fn new(mode: Mode, path: &str, actual: &RasterImage) -> (r: Assertion)
        requires
            buffer_len(actual.width, actual.height, 4) <= usize::MAX,
        ensures
            r.wf(),
            r.mode == mode,
            r.path@ == path@,
            r.width == actual.width,
            r.height == actual.height,
            r.phase == Phase::Start,
    {
        Assertion {
            mode,
            path: path.to_owned(),
            artifact_path: artifact_path(path),
            width: actual.width,
            height: actual.height,
            phase: Phase::Start,
        }
    }

    /// Takes the answer to the last action and says what to do next.
    pub fn step(&mut self, event: Event) -> (r: Action)
        requires
            old(self).wf(),
        ensures
            final(self).wf(),
            steps_to(*old(self), event, *final(self), r),
    {
        let phase = self.phase;
        match (phase, event) {
            (Phase::Start, Event::Begin) => {
                if self.mode == Mode::Overwrite {
                    self.phase = Phase::Overwriting;
                    Action::WriteBaseline { path: self.path.clone() }
                } else {
                    self.phase = Phase::Loading;
                    Action::ReadBaseline { path: self.path.clone() }
                }
            },
            (Phase::Overwriting, Event::Written { ok }) => {
                self.phase = Phase::Finished;
                if ok {
                    Action::Finish(Verdict::Pass)
                } else {
                    Action::Finish(Verdict::Fault(Fault::Io))
                }
            },
            (Phase::Loading, Event::Loaded(BaselineRead::Found(img))) => {
                self.phase = Phase::Comparing;
                Action::Compare { expected: img }
            },
            (Phase::Loading, Event::Loaded(BaselineRead::NotFound)) => {
                self.phase = Phase::Comparing;
                Action::Compare { expected: RasterImage::blank(self.width, self.height) }
            },
            (Phase::Comparing, Event::Compared { mismatch }) => {
                if should_store_artifact(self.mode, mismatch) {
                    self.phase = Phase::Storing { mismatch };
                    Action::StoreArtifact { path: self.artifact_path.clone() }
                } else {
                    self.phase = Phase::Finished;
                    Action::Finish(verdict(mismatch))
                }
            },
            (Phase::Storing { mismatch }, Event::Written { ok }) => {
                self.phase = Phase::Finished;
                if ok {
                    Action::Finish(verdict(mismatch))
                } else {
                    Action::Finish(Verdict::Fault(Fault::Io))
                }
            },
            (Phase::Loading, Event::Loaded(BaselineRead::Unreadable)) => {
                self.phase = Phase::Finished;
                Action::Finish(Verdict::Fault(Fault::Io))
            },
            (Phase::Comparing, Event::CompareFailed) => {
                self.phase = Phase::Finished;
                Action::Finish(Verdict::Fault(Fault::Compare))
            },
            _ => {
                self.phase = Phase::Finished;
                Action::Finish(Verdict::Fault(Fault::OutOfOrder))
            },
        }
    }
}

/// Whether a copy of the actual image is kept under the artifact root.
pub fn should_store_artifact(mode: Mode, mismatch: bool) -> (r: bool)
    ensures
        r == stores_artifact(mode, mismatch),
{
    match mode {
        Mode::StoreArtifact => true,
        Mode::StoreArtifactOnMismatch => mismatch,
        _ => false,
    }
}

/// The verdict of a comparison that reached the metric.
pub fn verdict(mismatch: bool) -> (r: Verdict)
    ensures
        r == verdict_of(mismatch),
{
    if mismatch {
        Verdict::Mismatch
    } else {
        Verdict::Pass
    }
}

/// Overwrite mode accepts the actual image without comparing: the assertion
/// asks to write it to the baseline path and, once written, passes. A later
/// assertion on that path in default mode compares the actual image against
/// the baseline it reads back, and passes when the metric finds no mismatch.
pub proof fn lemma_overwrite_then_compare(
    a0: Assertion,
    a1: Assertion,
    a2: Assertion,
    r1: Action,
    r2: Action,
    b0: Assertion,
    b1: Assertion,
    b2: Assertion,
    b3: Assertion,
    s1: Action,
    s2: Action,
    s3: Action,
    written: RasterImage,
)
    requires
        a0.wf(),
        a0.mode == Mode::Overwrite,
        a0.phase == Phase::Start,
        steps_to(a0, Event::Begin, a1, r1),
        steps_to(a1, Event::Written { ok: true }, a2, r2),
        b0.wf(),
        b0.mode == Mode::Default,
        b0.path == a0.path,
        b0.phase == Phase::Start,
        steps_to(b0, Event::Begin, b1, s1),
        steps_to(b1, Event::Loaded(BaselineRead::Found(written)), b2, s2),
        steps_to(b2, Event::Compared { mismatch: false }, b3, s3),
    ensures
        r1 == (Action::WriteBaseline { path: a0.path }),
        r2 == Action::Finish(Verdict::Pass),
        a2.phase == Phase::Finished,
        s1 == (Action::ReadBaseline { path: a0.path }),
        s2 == (Action::Compare { expected: written }),
        s3 == Action::Finish(Verdict::Pass),
        b3.phase == Phase::Finished,
{
}

/// A missing baseline is no error: the assertion compares the actual image
/// against a blank canvas of its exact dimensions, and a mismatch there ends
/// in a mismatch verdict (with a copy kept first where the mode asks for it),
/// not in a fault.
pub proof fn lemma_missing_baseline(
    a0: Assertion,
    a1: Assertion,
    a2: Assertion,
    r1: Action,
    r2: Action,
)
    requires
        a0.wf(),
        a0.phase == Phase::Loading,
        steps_to(a0, Event::Loaded(BaselineRead::NotFound), a1, r1),
        steps_to(a1, Event::Compared { mismatch: true }, a2, r2),
    ensures
        a1.phase == Phase::Comparing,
        r1 matches Action::Compare { expected } && is_blank_canvas(expected, a0.width, a0.height),
        stores_artifact(a0.mode, true) ==> r2 == (Action::StoreArtifact { path: a0.artifact_path }),
        !stores_artifact(a0.mode, true) ==> r2 == Action::Finish(Verdict::Mismatch),
{
}

/// The artifact policy: in store-artifact mode a copy is written whatever the
/// comparison gave; in store-artifact-on-mismatch mode exactly when the score
/// is below the threshold; in the other modes never. The copy goes to the
/// mirrored artifact path, and once it is written the verdict is that of the
/// comparison.
pub proof fn lemma_artifact_policy(
    a0: Assertion,
    a1: Assertion,
    a2: Assertion,
    mismatch: bool,
    r1: Action,
    r2: Action,
)
    requires
        a0.wf(),
        a0.phase == Phase::Comparing,
        steps_to(a0, Event::Compared { mismatch }, a1, r1),
        steps_to(a1, Event::Written { ok: true }, a2, r2),
    ensures
        a0.mode == Mode::StoreArtifact ==> r1 is StoreArtifact,
        a0.mode == Mode::StoreArtifactOnMismatch ==> (r1 is StoreArtifact <==> mismatch),
        a0.mode == Mode::Default ==> !(r1 is StoreArtifact),
        a0.mode == Mode::Overwrite ==> !(r1 is StoreArtifact),
        r1 is StoreArtifact ==> {
            &&& r1 == (Action::StoreArtifact { path: a0.artifact_path })
            &&& a0.artifact_path@ == artifact_path_of(a0.path@)
            &&& r2 == Action::Finish(verdict_of(mismatch))
        },
        !(r1 is StoreArtifact) ==> r1 == Action::Finish(verdict_of(mismatch)),
{
}

} // verus!
