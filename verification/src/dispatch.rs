//! The scheduler: which cameras are captured on a tick, and which endpoints
//! receive the fresh image.
//!
//! Every tick the surrounding loop asks the capture gate for permission and
//! then walks the cameras in configured order. For each due camera it performs the
//! opaque capture call and hands the outcome back here; this module advances
//! the camera's timestamp and plans the endpoint fan-out. Upload outcomes
//! never feed back into the scheduler, so one endpoint's failure cannot
//! affect its siblings or future ticks.

use vstd::prelude::*;
use crate::camera::{CameraStatus, CaptureOutcome};
use crate::config::{Camera, ConfigError, Endpoint, min_interval, spec_min_interval};

verus! {

/// One planned upload for a freshly captured image: the index of the endpoint
/// to serve, and whether a metadata update precedes the image upload (it does
/// exactly when the endpoint has an info URL).
#[derive(Clone, Copy, Debug, PartialEq, Eq, Structural)]
pub struct UploadJob {
    pub endpoint: usize,
    pub send_info: bool,
}

/// The jobs for one captured image: one per endpoint whose interval has
/// strictly elapsed, in configured order.
pub open spec fn due_jobs(endpoints: Seq<Endpoint>, since: u64) -> Seq<UploadJob>
    decreases endpoints.len(),
{
    if endpoints.len() == 0 {
        Seq::empty()
    } else {
        let rest = due_jobs(endpoints.drop_last(), since);
        if since > endpoints.last().interval {
            rest.push(
                UploadJob {
                    endpoint: (endpoints.len() - 1) as usize,
                    send_info: endpoints.last().info_url is Some,
                },
            )
        } else {
            rest
        }
    }
}

/// An endpoint receives the image exactly when the elapsed time strictly
/// exceeds its own interval, independent of every other endpoint; the
/// metadata call is planned exactly when it has an info URL; and jobs come in
/// configured order.
pub proof fn lemma_due_jobs_iff(endpoints: Seq<Endpoint>, since: u64)
    requires
        endpoints.len() <= usize::MAX,
    ensures
        forall|k: int|
            0 <= k < due_jobs(endpoints, since).len() ==> {
                let job = #[trigger] due_jobs(endpoints, since)[k];
                &&& job.endpoint < endpoints.len()
                &&& since > endpoints[job.endpoint as int].interval
                &&& job.send_info == endpoints[job.endpoint as int].info_url is Some
            },
        forall|j: int|
            0 <= j < endpoints.len() && since > #[trigger] endpoints[j].interval
                ==> exists|k: int|
                0 <= k < due_jobs(endpoints, since).len() && #[trigger] due_jobs(
                    endpoints,
                    since,
                )[k].endpoint == j,
        forall|k1: int, k2: int|
            0 <= k1 < k2 < due_jobs(endpoints, since).len() ==> #[trigger] due_jobs(
                endpoints,
                since,
            )[k1].endpoint < #[trigger] due_jobs(endpoints, since)[k2].endpoint,
    decreases endpoints.len(),
{
    if endpoints.len() > 0 {
        lemma_due_jobs_iff(endpoints.drop_last(), since);
        let prior = due_jobs(endpoints.drop_last(), since);
        assert forall|j: int|
            0 <= j < endpoints.len() && since > #[trigger] endpoints[j].interval implies exists|
            k: int,
        |
            0 <= k < due_jobs(endpoints, since).len() && #[trigger] due_jobs(
                endpoints,
                since,
            )[k].endpoint == j by {
            if j == endpoints.len() - 1 {
                assert(due_jobs(endpoints, since)[due_jobs(endpoints, since).len() - 1].endpoint
                    == j);
            } else {
                assert(endpoints.drop_last()[j] == endpoints[j]);
                let k = choose|k: int|
                    0 <= k < prior.len() && #[trigger] prior[k].endpoint == j;
                assert(due_jobs(endpoints, since)[k].endpoint == j);
            }
        }
    }
}

/// The scheduler state: per-camera runtime state, the endpoint table, and the
/// global minimum endpoint interval, all fixed at startup except the camera
/// timestamps.
#[derive(Debug)]
pub struct Scheduler {
    pub cameras: Vec<CameraStatus>,
    pub endpoints: Vec<Endpoint>,
    pub min_interval: u64,
}

impl Scheduler {
    /// Well-formed: the endpoint table is non-empty with the cached minimum
    /// matching it, every endpoint cadence is at least one second, and every
    /// camera has a positive resolution.
    pub open spec fn wf(&self) -> bool {
        &&& self.endpoints@.len() > 0
        &&& self.min_interval == spec_min_interval(self.endpoints@)
        &&& forall|i: int|
            0 <= i < self.endpoints@.len() ==> (#[trigger] self.endpoints@[i]).valid()
        &&& forall|i: int|
            0 <= i < self.cameras@.len() ==> (#[trigger] self.cameras@[i]).config.valid()
    }

    /// Build the scheduler from loaded configuration. Fails exactly when the
    /// endpoint table is empty, some endpoint cadence is zero, or some camera
    /// resolution dimension is zero; every camera starts at the epoch so the
    /// first tick captures it.
    pub fn new(cameras: Vec<Camera>, endpoints: Vec<Endpoint>) -> (r: Result<
        Scheduler,
        ConfigError,
    >)
        ensures
            r == Err::<Scheduler, ConfigError>(ConfigError::NoEndpoints) <==> endpoints@.len()
                == 0,
            r == Err::<Scheduler, ConfigError>(ConfigError::ZeroInterval) <==> (endpoints@.len()
                > 0 && exists|i: int|
                0 <= i < endpoints@.len() && !(#[trigger] endpoints@[i]).valid()),
            r == Err::<Scheduler, ConfigError>(ConfigError::ZeroResolution) <==> (endpoints@.len()
                > 0 && (forall|i: int|
                0 <= i < endpoints@.len() ==> (#[trigger] endpoints@[i]).valid()) && exists|i: int|
                0 <= i < cameras@.len() && !(#[trigger] cameras@[i]).valid()),
            r matches Ok(s) ==> {
                &&& s.wf()
                &&& s.endpoints == endpoints
                &&& s.min_interval == spec_min_interval(endpoints@)
                &&& s.cameras@.len() == cameras@.len()
                &&& forall|i: int|
                    0 <= i < cameras@.len() ==> (#[trigger] s.cameras@[i]).last_run == 0
                        && s.cameras@[i].config == cameras@[i]
            },
    {
        let min = match min_interval(&endpoints) {
            Ok(m) => m,
            Err(e) => {
                return Err(e);
            },
        };
        let mut i: usize = 0;
        while i < endpoints.len()
            invariant
                i <= endpoints@.len(),
                endpoints@.len() > 0,
                forall|j: int| 0 <= j < i ==> (#[trigger] endpoints@[j]).valid(),
            decreases endpoints@.len() - i,
        {
            if endpoints[i].interval == 0 {
                proof {
                    assert(!(endpoints@[i as int]).valid());
                }
                return Err(ConfigError::ZeroInterval);
            }
            i += 1;
        }
        let mut status: Vec<CameraStatus> = Vec::new();
        let mut c: usize = 0;
        while c < cameras.len()
            invariant
                c <= cameras@.len(),
                status@.len() == c,
                endpoints@.len() > 0,
                forall|j: int| 0 <= j < endpoints@.len() ==> (#[trigger] endpoints@[j]).valid(),
                forall|j: int| 0 <= j < c ==> (#[trigger] cameras@[j]).valid(),
                forall|j: int|
                    0 <= j < c ==> (#[trigger] status@[j]).last_run == 0 && status@[j].config
                        == cameras@[j],
            decreases cameras@.len() - c,
        {
            if cameras[c].resolutionx == 0 || cameras[c].resolutiony == 0 {
                proof {
                    assert(!(cameras@[c as int]).valid());
                }
                return Err(ConfigError::ZeroResolution);
            }
            let cam = cameras[c].clone();
            status.push(CameraStatus::new(cam));
            c += 1;
        }
        Ok(Scheduler { cameras: status, endpoints, min_interval: min })
    }

    /// How many cameras are configured.
    pub fn camera_count(&self) -> (n: usize)
        ensures
            n == self.cameras@.len(),
    {
        self.cameras.len()
    }

    /// Whether camera `i` is due for capture at time `now`: strictly more
    /// than the global minimum endpoint interval must have elapsed since its
    /// last run.
    pub fn camera_due(&self, i: usize, now: u64) -> (due: bool)
        requires
            i < self.cameras@.len(),
            self.cameras@[i as int].last_run <= now,
        ensures
            due == (now - self.cameras@[i as int].last_run > self.min_interval),
    {
        self.cameras[i].is_due(now, self.min_interval)
    }

    /// Record the outcome of camera `i`'s capture attempt at time `now`, and
    /// plan the endpoint fan-out for the image, if any.
    ///
    /// Only camera `i`'s state changes, and its timestamp never moves
    /// backward. When the device produced a non-empty frame, the image is
    /// returned together with one job per endpoint whose interval is strictly
    /// exceeded by the time elapsed since the camera's previous run; an empty
    /// frame still advances the timestamp but dispatches nothing; a device
    /// failure changes nothing.
    pub fn finish_capture(&mut self, i: usize, now: u64, outcome: CaptureOutcome) -> (r: (
        Option<Vec<u8>>,
        Vec<UploadJob>,
    ))
        requires
            i < old(self).cameras@.len(),
            old(self).cameras@[i as int].last_run <= now,
        ensures
            final(self).endpoints == old(self).endpoints,
            final(self).min_interval == old(self).min_interval,
            final(self).cameras@.len() == old(self).cameras@.len(),
            forall|j: int|
                0 <= j < old(self).cameras@.len() && j != i ==> final(self).cameras@[j] == old(
                    self,
                ).cameras@[j],
            final(self).cameras@[i as int].config == old(self).cameras@[i as int].config,
            old(self).cameras@[i as int].last_run <= final(self).cameras@[i as int].last_run
                <= now,
            outcome is DeviceFailed ==> final(self).cameras@[i as int].last_run == old(
                self,
            ).cameras@[i as int].last_run && r.0 is None && r.1@ == Seq::<UploadJob>::empty(),
            outcome matches CaptureOutcome::Frame(f) ==> final(self).cameras@[i as int].last_run
                == now && (if f@.len() > 0 {
                r.0 == Some(f) && r.1@ == due_jobs(
                    old(self).endpoints@,
                    (now - old(self).cameras@[i as int].last_run) as u64,
                )
            } else {
                r.0 is None && r.1@ == Seq::<UploadJob>::empty()
            }),
    {
        let since = now - self.cameras[i].last_run;
        let cam = &mut self.cameras[i];
        let image = cam.apply_capture(now, outcome);
        match image {
            Some(img) => {
                let jobs = plan_uploads(&self.endpoints, since);
                (Some(img), jobs)
            },
            None => (None, Vec::new()),
        }
    }
}

/// The upload jobs for an image captured `since` seconds after its camera's
/// previous run: one per due endpoint, in configured order.
pub fn plan_uploads(endpoints: &Vec<Endpoint>, since: u64) -> (jobs: Vec<UploadJob>)
    ensures
        jobs@ == due_jobs(endpoints@, since),
{
    let mut jobs: Vec<UploadJob> = Vec::new();
    let mut i: usize = 0;
    while i < endpoints.len()
        invariant
            i <= endpoints@.len(),
            jobs@ == due_jobs(endpoints@.subrange(0, i as int), since),
        decreases endpoints@.len() - i,
    {
        proof {
            assert(endpoints@.subrange(0, i + 1).drop_last() =~= endpoints@.subrange(0, i as int));
            assert(endpoints@.subrange(0, i + 1).last() == endpoints@[i as int]);
        }
        if since > endpoints[i].interval {
            jobs.push(UploadJob { endpoint: i, send_info: endpoints[i].info_url.is_some() });
        }
        i += 1;
    }
    proof {
        assert(endpoints@.subrange(0, endpoints@.len() as int) =~= endpoints@);
    }
    jobs
}

/// A camera whose timestamp still sits at the epoch is due on any tick whose
/// clock reading strictly exceeds the minimum interval, so the first tick
/// captures every camera.
pub proof fn lemma_fresh_camera_due(cam: CameraStatus, now: u64, min: u64)
    requires
        cam.last_run == 0,
        now > min,
    ensures
        now - cam.last_run > min,
{
}

} // verus!
