use vstd::prelude::*;

use crate::decode::Sample;

verus! {

/// A channel must exceed this many raw units for tissue to count as present.
pub const PRESENCE_THRESHOLD: u32 = 10000;

/// Whether both channels see enough reflected light.
#[derive(Clone, Copy, Debug, PartialEq, Eq, Structural)]
pub enum Presence {
    TissueDetected,
    PoorContact,
}

/// Whether the red-to-infrared ratio lies in its normal range.
#[derive(Clone, Copy, Debug, PartialEq, Eq, Structural)]
pub enum RatioVerdict {
    Acceptable,
    Reposition,
}

/// Both verdicts for one sample.
#[derive(Clone, Copy, Debug, PartialEq, Eq, Structural)]
pub struct Verdict {
    pub presence: Presence,
    pub ratio: RatioVerdict,
}

pub open spec fn tissue_present(red: int, ir: int) -> bool {
    red > PRESENCE_THRESHOLD && ir > PRESENCE_THRESHOLD
}

/// `0.5 < red / ir < 2.0`, with the ratio taken as zero when `ir` is zero.
pub open spec fn ratio_in_range(red: int, ir: int) -> bool {
    ir > 0 && 2 * red > ir && red < 2 * ir
}

/// Both verdicts on a sample.
pub open spec fn verdict_of(sample: Sample) -> Verdict {
    Verdict {
        presence: if tissue_present(sample.red as int, sample.ir as int) {
            Presence::TissueDetected
        } else {
            Presence::PoorContact
        },
        ratio: if ratio_in_range(sample.red as int, sample.ir as int) {
            RatioVerdict::Acceptable
        } else {
            RatioVerdict::Reposition
        },
    }
}

pub fn classify_presence(red: u32, ir: u32) -> (r: Presence)
    ensures
        r == (if tissue_present(red as int, ir as int) {
            Presence::TissueDetected
        } else {
            Presence::PoorContact
        }),
{
    if red > PRESENCE_THRESHOLD && ir > PRESENCE_THRESHOLD {
        Presence::TissueDetected
    } else {
        Presence::PoorContact
    }
}

/// Compares `red / ir` against the open interval (0.5, 2.0) exactly, by cross
/// multiplication; a zero `ir` stands for a ratio of zero and never divides.
pub fn classify_ratio(red: u32, ir: u32) -> (r: RatioVerdict)
    ensures
        r == (if ratio_in_range(red as int, ir as int) {
            RatioVerdict::Acceptable
        } else {
            RatioVerdict::Reposition
        }),
        ir == 0 ==> r == RatioVerdict::Reposition,
{
    if ir == 0 {
        return RatioVerdict::Reposition;
    }
    let red2: u64 = 2 * (red as u64);
    let ir2: u64 = 2 * (ir as u64);
    if red2 > ir as u64 && (red as u64) < ir2 {
        RatioVerdict::Acceptable
    } else {
        RatioVerdict::Reposition
    }
}

/// Classifies a decoded sample on both counts.
pub fn classify(sample: Sample) -> (r: Verdict)
    ensures
        r == verdict_of(sample),
        r.presence == (if tissue_present(sample.red as int, sample.ir as int) {
            Presence::TissueDetected
        } else {
            Presence::PoorContact
        }),
        r.ratio == (if ratio_in_range(sample.red as int, sample.ir as int) {
            RatioVerdict::Acceptable
        } else {
            RatioVerdict::Reposition
        }),
{
    Verdict { presence: classify_presence(sample.red, sample.ir), ratio: classify_ratio(sample.red, sample.ir) }
}

} // verus!
