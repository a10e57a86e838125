//! The health, readiness and liveness answers of the server.
use vstd::prelude::*;
use crate::text::{owned, push_str, str_eq};

verus! {

/// `200 OK`.
pub const OK: u16 = 200;

/// `503 Service Unavailable`.
pub const SERVICE_UNAVAILABLE: u16 = 503;

/// How one backing service answered its probe, and how long the probe took.
pub struct ComponentStatus {
    pub status: String,
    pub latency_ms: u64,
}

/// The body of a health answer.
pub struct HealthReport {
    pub status: String,
    pub version: String,
    pub database: ComponentStatus,
    pub redis: ComponentStatus,
    pub uptime: u64,
}

/// The status text of a probe: `healthy`, or `unhealthy: ` and the error.
pub open spec fn probe_status(outcome: Result<(), Seq<char>>) -> Seq<char> {
    match outcome {
        Ok(_) => "healthy"@,
        Err(e) => "unhealthy: "@ + e,
    }
}

/// The status of a probe whose outcome was `outcome` (the error's text when it failed).
pub fn component_status(outcome: Result<(), &str>, latency_ms: u64) -> (c: ComponentStatus)
    ensures
        c.status@ == probe_status(match outcome {
            Ok(_) => Ok(()),
            Err(e) => Err(e@),
        }),
        c.latency_ms == latency_ms,
{
    match outcome {
        Ok(_) => ComponentStatus { status: owned("healthy"), latency_ms },
        Err(e) => {
            let mut s = owned("unhealthy: ");
            push_str(&mut s, e);
            ComponentStatus { status: s, latency_ms }
        },
    }
}

/// Whether both services answered healthy.
pub open spec fn all_healthy(database: Seq<char>, redis: Seq<char>) -> bool {
    database == "healthy"@ && redis == "healthy"@
}

/// The health answer: `healthy` and 200 when both services are healthy,
/// `degraded` and 503 otherwise.
pub fn health_report(
    database: ComponentStatus,
    redis: ComponentStatus,
    version: &str,
    uptime: u64,
) -> (r: (u16, HealthReport))
    ensures
        all_healthy(database.status@, redis.status@) ==> r.0 == OK && r.1.status@ == "healthy"@,
        !all_healthy(database.status@, redis.status@) ==> r.0 == SERVICE_UNAVAILABLE
            && r.1.status@ == "degraded"@,
        r.1.version@ == version@,
        r.1.uptime == uptime,
        r.1.database == database,
        r.1.redis == redis,
{
    let healthy = str_eq(database.status.as_str(), "healthy") && str_eq(
        redis.status.as_str(),
        "healthy",
    );
    let status = if healthy {
        owned("healthy")
    } else {
        owned("degraded")
    };
    let code = if healthy {
        OK
    } else {
        SERVICE_UNAVAILABLE
    };
    (code, HealthReport { status, version: owned(version), database, redis, uptime })
}

/// A failed probe is never reported healthy.
pub proof fn lemma_failed_probe_unhealthy(e: Seq<char>)
    ensures
        probe_status(Err(e)) != "healthy"@,
{
    reveal_strlit("unhealthy: ");
    reveal_strlit("healthy");
    assert(probe_status(Err(e)).len() != "healthy"@.len());
}

/// The answer is 200 exactly when both probes succeeded.
pub proof fn lemma_healthy_iff_both_probes_succeed(
    database: Result<(), Seq<char>>,
    redis: Result<(), Seq<char>>,
)
    ensures
        all_healthy(probe_status(database), probe_status(redis)) <==> (database is Ok
            && redis is Ok),
{
    if let Err(e) = database {
        lemma_failed_probe_unhealthy(e);
    }
    if let Err(e) = redis {
        lemma_failed_probe_unhealthy(e);
    }
}

/// The readiness answer: 200 when both the database and Redis can be reached.
pub fn readiness_status(database_ready: bool, redis_ready: bool) -> (code: u16)
    ensures
        code == if database_ready && redis_ready {
            OK
        } else {
            SERVICE_UNAVAILABLE
        },
{
    if database_ready && redis_ready {
        OK
    } else {
        SERVICE_UNAVAILABLE
    }
}

} // verus!
