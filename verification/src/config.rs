//! Static configuration: cameras and upload endpoints.
//!
//! Both collections are fixed after load; nothing is inserted or removed at
//! runtime. The minimum endpoint interval is computed once at startup and
//! gates every camera's capture cadence.

use vstd::prelude::*;

verus! {

/// Static configuration of one camera: identity, device locator, two opaque
/// credential strings forwarded verbatim as upload headers, and the capture
/// resolution.
#[derive(Debug)]
pub struct Camera {
    pub name: String,
    pub device: String,
    pub token: String,
    pub fingerprint: String,
    pub resolutionx: u32,
    pub resolutiony: u32,
}

impl Camera {
    /// A camera configuration is valid when both resolution dimensions are
    /// positive.
    pub open spec fn valid(&self) -> bool {
        self.resolutionx > 0 && self.resolutiony > 0
    }
}

impl Clone for Camera {
    /// Cloning preserves every field.
    fn clone(&self) -> (r: Self)
        ensures
            r == self,
    {
        Camera {
            name: self.name.clone(),
            device: self.device.clone(),
            token: self.token.clone(),
            fingerprint: self.fingerprint.clone(),
            resolutionx: self.resolutionx,
            resolutiony: self.resolutiony,
        }
    }
}

/// Static configuration of one upload destination: identity, cadence in whole
/// seconds, the snapshot URL, and an optional info URL whose absence
/// suppresses metadata uploads for this endpoint.
#[derive(Debug)]
pub struct Endpoint {
    pub name: String,
    pub interval: u64,
    pub snapshot_url: String,
    pub info_url: Option<String>,
}

impl Endpoint {
    /// An endpoint configuration is valid when its cadence is at least one
    /// second.
    pub open spec fn valid(&self) -> bool {
        self.interval >= 1
    }
}

/// Fatal configuration faults, detected before the loop starts.
#[derive(Clone, Copy, Debug, PartialEq, Eq, Structural)]
pub enum ConfigError {
    /// The endpoint table is empty; at least one endpoint is required.
    NoEndpoints,
    /// Some endpoint has a cadence of zero seconds.
    ZeroInterval,
    /// Some camera has a resolution dimension of zero.
    ZeroResolution,
}

/// The minimum interval over a non-empty endpoint table.
pub open spec fn spec_min_interval(endpoints: Seq<Endpoint>) -> u64
    decreases endpoints.len(),
{
    if endpoints.len() <= 1 {
        endpoints[0].interval
    } else {
        let rest = spec_min_interval(endpoints.drop_last());
        if endpoints.last().interval < rest {
            endpoints.last().interval
        } else {
            rest
        }
    }
}

/// The minimum interval of a non-empty table is no larger than any entry's
/// interval, and is itself the interval of some entry.
pub proof fn lemma_min_interval_bounds(endpoints: Seq<Endpoint>)
    requires
        endpoints.len() > 0,
    ensures
        forall|i: int|
            0 <= i < endpoints.len() ==> spec_min_interval(endpoints)
                <= #[trigger] endpoints[i].interval,
        exists|i: int|
            0 <= i < endpoints.len() && spec_min_interval(endpoints)
                == #[trigger] endpoints[i].interval,
    decreases endpoints.len(),
{
    if endpoints.len() == 1 {
        assert(spec_min_interval(endpoints) == endpoints[0].interval);
    } else {
        lemma_min_interval_bounds(endpoints.drop_last());
        assert forall|i: int| 0 <= i < endpoints.len() implies spec_min_interval(endpoints)
            <= #[trigger] endpoints[i].interval by {
            if i < endpoints.len() - 1 {
                assert(endpoints.drop_last()[i] == endpoints[i]);
            }
        }
        if spec_min_interval(endpoints) == endpoints.last().interval {
            assert(spec_min_interval(endpoints) == endpoints[endpoints.len() - 1].interval);
        } else {
            let j = choose|j: int|
                0 <= j < endpoints.drop_last().len() && spec_min_interval(endpoints.drop_last())
                    == #[trigger] endpoints.drop_last()[j].interval;
            assert(spec_min_interval(endpoints) == endpoints[j].interval);
        }
    }
}

/// The minimum cadence across all endpoints; fails when the table is empty.
pub fn min_interval(endpoints: &Vec<Endpoint>) -> (r: Result<u64, ConfigError>)
    ensures
        r is Err <==> endpoints@.len() == 0,
        r is Err ==> r == Err::<u64, ConfigError>(ConfigError::NoEndpoints),
        r matches Ok(m) ==> m == spec_min_interval(endpoints@),
{
    if endpoints.len() == 0 {
        return Err(ConfigError::NoEndpoints);
    }
    let mut m: u64 = endpoints[0].interval;
    let mut i: usize = 1;
    while i < endpoints.len()
        invariant
            1 <= i <= endpoints@.len(),
            m == spec_min_interval(endpoints@.subrange(0, i as int)),
        decreases endpoints@.len() - i,
    {
        proof {
            assert(endpoints@.subrange(0, i + 1).drop_last() =~= endpoints@.subrange(0, i as int));
            assert(endpoints@.subrange(0, i + 1).last() == endpoints@[i as int]);
        }
        if endpoints[i].interval < m {
            m = endpoints[i].interval;
        }
        i += 1;
    }
    proof {
        assert(endpoints@.subrange(0, endpoints@.len() as int) =~= endpoints@);
    }
    Ok(m)
}

} // verus!
