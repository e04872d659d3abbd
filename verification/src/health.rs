use vstd::prelude::*;
use vstd::string::StringExecFns;
use crate::config::decimal_of;
use crate::config::decimal_string;

verus! {

/// One probed service: its status text, the measured response time in
/// milliseconds, when it was last checked, and the error seen, if any.
#[derive(Debug)]
pub struct ServiceHealth {
    pub status: String,
    pub response_time: Option<u64>,
    pub last_check: u64,
    pub error: Option<String>,
}

/// The aggregated report: overall status, when it was taken, the build
/// version, how long the process has run, and one entry per probed service.
#[derive(Debug)]
pub struct HealthStatus {
    pub status: String,
    pub timestamp: u64,
    pub version: String,
    pub uptime_millis: u64,
    pub services: Vec<(String, ServiceHealth)>,
}

/// What one probe of a dependent service came back as: a response with its
/// HTTP status and elapsed milliseconds, a transport failure with its
/// description, or no answer within the probe's own timeout.
#[derive(Debug)]
pub enum ProbeOutcome {
    Responded(u16, u64),
    TransportFailed(String, u64),
    TimedOut(u64),
}

/// A probe counts as healthy exactly when it answered with a success status.
pub open spec fn probe_healthy(o: ProbeOutcome) -> bool {
    match o {
        ProbeOutcome::Responded(code, _) => 200 <= code < 300,
        _ => false,
    }
}

/// The measured response time a probe outcome carries.
pub open spec fn probe_elapsed(o: ProbeOutcome) -> u64 {
    match o {
        ProbeOutcome::Responded(_, ms) => ms,
        ProbeOutcome::TransportFailed(_, ms) => ms,
        ProbeOutcome::TimedOut(ms) => ms,
    }
}

/// Classifies one probe outcome into a service entry: `healthy` with no
/// error on a success response, else `unhealthy` with an error description —
/// the HTTP status for a non-success response, the transport failure's own
/// text, or `Timeout`. A probe failure never escapes as an error.
pub fn service_health_of(outcome: &ProbeOutcome, now: u64) -> (h: ServiceHealth)
    ensures
        h.last_check == now,
        h.response_time == Some(probe_elapsed(*outcome)),
        probe_healthy(*outcome) ==> h.status@ == "healthy"@ && h.error is None,
        !probe_healthy(*outcome) ==> h.status@ == "unhealthy"@ && h.error is Some,
        match *outcome {
            ProbeOutcome::Responded(code, _) => !probe_healthy(*outcome) ==> (h.error matches Some(
                e,
            ) && e@ == "HTTP "@ + decimal_of(code as nat)),
            ProbeOutcome::TransportFailed(text, _) => h.error matches Some(e) && e@ == text@,
            ProbeOutcome::TimedOut(_) => h.error matches Some(e) && e@ == "Timeout"@,
        },
{
    match outcome {
        ProbeOutcome::Responded(code, ms) => {
            if 200 <= *code && *code < 300 {
                ServiceHealth {
                    status: "healthy".to_owned(),
                    response_time: Some(*ms),
                    last_check: now,
                    error: None,
                }
            } else {
                let mut text = "HTTP ".to_owned();
                text.append(decimal_string(*code as u64).as_str());
                proof {
                    assert((*code as u64) as nat == *code as nat);
                }
                ServiceHealth {
                    status: "unhealthy".to_owned(),
                    response_time: Some(*ms),
                    last_check: now,
                    error: Some(text),
                }
            }
        },
        ProbeOutcome::TransportFailed(text, ms) => ServiceHealth {
            status: "unhealthy".to_owned(),
            response_time: Some(*ms),
            last_check: now,
            error: Some(text.clone()),
        },
        ProbeOutcome::TimedOut(ms) => ServiceHealth {
            status: "unhealthy".to_owned(),
            response_time: Some(*ms),
            last_check: now,
            error: Some("Timeout".to_owned()),
        },
    }
}

/// Every probed service reported healthy.
pub open spec fn all_healthy(services: Seq<(String, ServiceHealth)>) -> bool {
    forall|k: int| 0 <= k < services.len() ==> (#[trigger] services[k]).1.status@ == "healthy"@
}

/// Aggregates probe entries into one report: `healthy` overall exactly when
/// every service is, else `degraded`; the per-service entries are returned
/// as given. The aggregator always returns a report, whatever the probes saw.
pub fn health_check(
    services: Vec<(String, ServiceHealth)>,
    version: String,
    now: u64,
    uptime_millis: u64,
) -> (h: HealthStatus)
    ensures
        h.services == services,
        h.timestamp == now,
        h.version == version,
        h.uptime_millis == uptime_millis,
        all_healthy(services@) ==> h.status@ == "healthy"@,
        !all_healthy(services@) ==> h.status@ == "degraded"@,
{
    let mut ok = true;
    let mut i: usize = 0;
    while i < services.len()
        invariant
            i <= services@.len(),
            ok == (forall|k: int|
                0 <= k < i ==> (#[trigger] services@[k]).1.status@ == "healthy"@),
        decreases services@.len() - i,
    {
        let healthy = crate::validation::str_eq(services[i].1.status.as_str(), "healthy");
        if !healthy {
            ok = false;
        }
        i += 1;
    }
    let status = if ok {
        "healthy".to_owned()
    } else {
        "degraded".to_owned()
    };
    HealthStatus { status, timestamp: now, version, uptime_millis, services }
}

} // verus!
