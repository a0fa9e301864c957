//! An example DSP algorithm: a hard-clipping waveshaper over integer
//! samples.  Parameter 0 is the clipping threshold; every sample is limited
//! to the band `[-threshold, threshold]`.  The algorithm is stateless, so
//! its reset hook has nothing to reinitialize.

use vstd::prelude::*;

use crate::AudioProcessInfo;
use crate::DSPBoxApp;

verus! {

/// One sample limited to the band `[-t, t]`.
pub open spec fn clip_sample(x: i32, t: i32) -> i32 {
    if x > t {
        t
    } else if x < -t {
        (-t) as i32
    } else {
        x
    }
}

/// A whole channel limited to the band `[-t, t]`.
pub open spec fn clip_channel(xs: Seq<i32>, t: i32) -> Seq<i32> {
    xs.map(|i: int, x: i32| clip_sample(x, t))
}

/// The clipping threshold the parameter cache asks for: parameter 0,
/// floored at zero so the band is never empty; a cache without a
/// parameter 0 means no clipping at all.
pub open spec fn clip_threshold(params: Seq<i32>) -> i32 {
    if params.len() > 0 {
        if params[0] >= 0 {
            params[0]
        } else {
            0
        }
    } else {
        i32::MAX
    }
}

/// The hard-clipping waveshaper.
pub struct HardClip {}

impl HardClip {
    /// A fresh waveshaper.
    pub fn new() -> (r: Self)
        ensures
            r == (HardClip {  }),
    {
        HardClip {  }
    }
}

impl DSPBoxApp<i32> for HardClip {
    open spec fn spec_reset(self, sample_rate: u32) -> Self {
        self
    }

    open spec fn spec_process(
        self,
        in_l: Seq<i32>,
        in_r: Seq<i32>,
        sample_rate: u32,
        params: Seq<i32>,
    ) -> (Self, Seq<i32>, Seq<i32>) {
        (self, clip_channel(in_l, clip_threshold(params)), clip_channel(
            in_r,
            clip_threshold(params),
        ))
    }

    fn host_reset(&mut self, sample_rate: u32) {
    }

    fn process_stereo(&mut self, proc_info: &mut AudioProcessInfo<i32>) {
        let t: i32 = if proc_info.in_params.len() > 0 {
            let p = proc_info.in_params[0];
            if p >= 0 {
                p
            } else {
                0
            }
        } else {
            i32::MAX
        };
        let n = proc_info.in_l.len();
        let ghost threshold = clip_threshold(old(proc_info).in_params@);
        let mut i: usize = 0;
        while i < n
            invariant
                i <= n,
                0 <= t,
                t == threshold,
                proc_info.in_l@ == old(proc_info).in_l@,
                proc_info.in_r@ == old(proc_info).in_r@,
                proc_info.in_params@ == old(proc_info).in_params@,
                proc_info.sample_rate == old(proc_info).sample_rate,
                n == proc_info.in_l@.len(),
                old(proc_info).wf(),
                proc_info.out_l@.len() == n,
                proc_info.out_r@.len() == n,
                forall|j: int|
                    0 <= j < i ==> proc_info.out_l@[j] == clip_sample(proc_info.in_l@[j], threshold)
                        && proc_info.out_r@[j] == clip_sample(proc_info.in_r@[j], threshold),
            decreases n - i,
        {
            let xl = proc_info.in_l[i];
            proc_info.out_l.set(i, if xl > t { t } else if xl < -t { -t } else { xl });
            let xr = proc_info.in_r[i];
            proc_info.out_r.set(i, if xr > t { t } else if xr < -t { -t } else { xr });
            i = i + 1;
        }
        proof {
            assert(proc_info.out_l@ =~= clip_channel(old(proc_info).in_l@, threshold));
            assert(proc_info.out_r@ =~= clip_channel(old(proc_info).in_r@, threshold));
        }
    }
}

} // verus!
