//! The server's Prometheus metrics and their registration.
use vstd::prelude::*;
use crate::metric_ids::{
    lemma_id_db_connections, lemma_id_db_query_duration_seconds, lemma_id_error_total,
    lemma_id_http_request_duration_seconds, lemma_id_http_requests_total,
    lemma_id_messages_delivered_total, lemma_id_messages_sent_total, lemma_id_redis_connections,
    lemma_id_redis_operation_duration_seconds, metric_id,
};

verus! {

#[verifier::external_type_specification]
#[verifier::external_body]
pub struct ExRegistry(prometheus::Registry);

#[verifier::external_type_specification]
#[verifier::external_body]
pub struct ExPrometheusError(prometheus::Error);

#[verifier::external_type_specification]
#[verifier::external_body]
pub struct ExHistogram(prometheus::Histogram);

/// An integer counter (`prometheus::IntCounter`). Its generic type is bound by
/// a trait of the crate, which Verus refuses to declare, so it is held here.
#[verifier::external_body]
pub struct CounterHandle {
    inner: prometheus::IntCounter,
}

/// An integer gauge (`prometheus::IntGauge`), held for the same reason.
#[verifier::external_body]
pub struct GaugeHandle {
    inner: prometheus::IntGauge,
}

/// The fully-qualified names of the metrics registered in a registry.
pub uninterp spec fn registered_names(r: prometheus::Registry) -> Set<Seq<char>>;

/// The ids a registry holds taken: the descriptor ids of its registered
/// metrics and the ids of its registered collectors.
pub uninterp spec fn registered_ids(r: prometheus::Registry) -> Set<u64>;

/// The names a registry has recorded a label layout for (every name it ever
/// checked a descriptor of, whether or not that registration went through).
pub uninterp spec fn recorded_names(r: prometheus::Registry) -> Set<Seq<char>>;

/// `Registry::new`: a registry with nothing registered and nothing recorded.
#[verifier::external_body]
fn registry_new() -> (r: prometheus::Registry)
    ensures
        registered_names(r) == Set::<Seq<char>>::empty(),
        registered_ids(r) == Set::<u64>::empty(),
        recorded_names(r) == Set::<Seq<char>>::empty(),
{
    prometheus::Registry::new()
}

/// A character that may begin a metric name: `[a-zA-Z_:]`.
pub open spec fn metric_name_start(c: char) -> bool {
    ('a' <= c && c <= 'z') || ('A' <= c && c <= 'Z') || c == '_' || c == ':'
}

/// A character that may follow in a metric name: `[a-zA-Z_:0-9]`.
pub open spec fn metric_name_char(c: char) -> bool {
    metric_name_start(c) || ('0' <= c && c <= '9')
}

/// A well-formed metric name, `[a-zA-Z_:][a-zA-Z0-9_:]*`.
pub open spec fn valid_metric_name(s: Seq<char>) -> bool {
    &&& s.len() > 0
    &&& metric_name_start(s[0])
    &&& forall|i: int| 1 <= i < s.len() ==> metric_name_char(#[trigger] s[i])
}

/// Whether prometheus accepts a metric without labels named `name` with the
/// help text `help`: a well-formed name and a help text that is not empty.
pub open spec fn metric_accepted(name: Seq<char>, help: Seq<char>) -> bool {
    valid_metric_name(name) && help.len() > 0
}

/// `IntCounter::new`: a counter named `name`. It fails exactly when the help
/// text is empty or the name is malformed.
#[verifier::external_body]
fn int_counter_new(name: &str, help: &str) -> (r: Result<CounterHandle, prometheus::Error>)
    ensures
        r is Ok <==> metric_accepted(name@, help@),
{
    prometheus::IntCounter::new(name, help).map(|inner| CounterHandle { inner })
}

/// `IntGauge::new`: a gauge named `name`. It fails exactly when the help
/// text is empty or the name is malformed.
#[verifier::external_body]
fn int_gauge_new(name: &str, help: &str) -> (r: Result<GaugeHandle, prometheus::Error>)
    ensures
        r is Ok <==> metric_accepted(name@, help@),
{
    prometheus::IntGauge::new(name, help).map(|inner| GaugeHandle { inner })
}

/// `Histogram::with_opts(HistogramOpts::new(name, help))`: a histogram named
/// `name` with the default buckets. It fails exactly when the help text is
/// empty or the name is malformed.
#[verifier::external_body]
fn histogram_new(name: &str, help: &str) -> (r: Result<prometheus::Histogram, prometheus::Error>)
    ensures
        r is Ok <==> metric_accepted(name@, help@),
{
    prometheus::Histogram::with_opts(prometheus::HistogramOpts::new(name, help))
}

/// A metric together with the name it was created with; the name is a
/// well-formed metric name (so its characters are ASCII), as prometheus
/// accepted it.
pub struct Named<M> {
    name: String,
    metric: M,
}

impl<M> Named<M> {
    /// The name the metric was created with.
    pub closed spec fn name(&self) -> Seq<char> {
        self.name@
    }

    /// The name is well-formed: prometheus created the metric under it.
    #[verifier::type_invariant]
    spec fn name_well_formed(self) -> bool {
        valid_metric_name(self.name@)
    }
}

/// A counter named `name`.
fn named_counter(name: &str, help: &str) -> (r: Result<Named<CounterHandle>, prometheus::Error>)
    ensures
        r matches Ok(c) ==> c.name() == name@,
        r is Ok <==> metric_accepted(name@, help@),
{
    let metric = int_counter_new(name, help)?;
    Ok(Named { name: crate::text::owned(name), metric })
}

/// A gauge named `name`.
fn named_gauge(name: &str, help: &str) -> (r: Result<Named<GaugeHandle>, prometheus::Error>)
    ensures
        r matches Ok(c) ==> c.name() == name@,
        r is Ok <==> metric_accepted(name@, help@),
{
    let metric = int_gauge_new(name, help)?;
    Ok(Named { name: crate::text::owned(name), metric })
}

/// A histogram named `name`.
fn named_histogram(name: &str, help: &str) -> (r: Result<Named<prometheus::Histogram>, prometheus::Error>)
    ensures
        r matches Ok(c) ==> c.name() == name@,
        r is Ok <==> metric_accepted(name@, help@),
{
    let metric = histogram_new(name, help)?;
    Ok(Named { name: crate::text::owned(name), metric })
}

/// `Registry::register` of a copy of an integer counter (one descriptor, no
/// labels). The registry refuses a metric whose name is registered already,
/// and accepts one whose id it does not hold and whose name it has not
/// recorded; a success adds the name and the id. A refusal leaves the
/// registered names and ids as they were, though the name may have been
/// recorded. The name is the one `named_counter` recorded beside the counter
/// it created, a well-formed ASCII name, so the id is the FNV-1a hash that
/// `Desc::new` computes of it (`metric_id`); the collector id of a single
/// descriptor is that id.
#[verifier::external_body]
fn register_counter(r: &mut prometheus::Registry, c: &Named<CounterHandle>) -> (res: Result<
    (),
    prometheus::Error,
>)
    ensures
        registered_names(*old(r)).contains(c.name()) ==> res is Err,
        !registered_ids(*old(r)).contains(metric_id(c.name())) && !recorded_names(*old(r)).contains(
            c.name(),
        ) ==> res is Ok,
        res is Ok ==> registered_names(*final(r)) == registered_names(*old(r)).insert(c.name())
            && registered_ids(*final(r)) == registered_ids(*old(r)).insert(metric_id(c.name()))
            && recorded_names(*final(r)) == recorded_names(*old(r)).insert(c.name()),
        res is Err ==> registered_names(*final(r)) == registered_names(*old(r)) && registered_ids(
            *final(r),
        ) == registered_ids(*old(r)) && recorded_names(*old(r)).subset_of(recorded_names(*final(r)))
            && recorded_names(*final(r)).subset_of(recorded_names(*old(r)).insert(c.name())),
{
    r.register(Box::new(c.metric.inner.clone()))
}

/// `Registry::register` of a copy of an integer gauge (as for counters).
#[verifier::external_body]
fn register_gauge(r: &mut prometheus::Registry, g: &Named<GaugeHandle>) -> (res: Result<
    (),
    prometheus::Error,
>)
    ensures
        registered_names(*old(r)).contains(g.name()) ==> res is Err,
        !registered_ids(*old(r)).contains(metric_id(g.name())) && !recorded_names(*old(r)).contains(
            g.name(),
        ) ==> res is Ok,
        res is Ok ==> registered_names(*final(r)) == registered_names(*old(r)).insert(g.name())
            && registered_ids(*final(r)) == registered_ids(*old(r)).insert(metric_id(g.name()))
            && recorded_names(*final(r)) == recorded_names(*old(r)).insert(g.name()),
        res is Err ==> registered_names(*final(r)) == registered_names(*old(r)) && registered_ids(
            *final(r),
        ) == registered_ids(*old(r)) && recorded_names(*old(r)).subset_of(recorded_names(*final(r)))
            && recorded_names(*final(r)).subset_of(recorded_names(*old(r)).insert(g.name())),
{
    r.register(Box::new(g.metric.inner.clone()))
}

/// `Registry::register` of a copy of a histogram (as for counters).
#[verifier::external_body]
fn register_histogram(r: &mut prometheus::Registry, h: &Named<prometheus::Histogram>) -> (res: Result<
    (),
    prometheus::Error,
>)
    ensures
        registered_names(*old(r)).contains(h.name()) ==> res is Err,
        !registered_ids(*old(r)).contains(metric_id(h.name())) && !recorded_names(*old(r)).contains(
            h.name(),
        ) ==> res is Ok,
        res is Ok ==> registered_names(*final(r)) == registered_names(*old(r)).insert(h.name())
            && registered_ids(*final(r)) == registered_ids(*old(r)).insert(metric_id(h.name()))
            && recorded_names(*final(r)) == recorded_names(*old(r)).insert(h.name()),
        res is Err ==> registered_names(*final(r)) == registered_names(*old(r)) && registered_ids(
            *final(r),
        ) == registered_ids(*old(r)) && recorded_names(*old(r)).subset_of(recorded_names(*final(r)))
            && recorded_names(*final(r)).subset_of(recorded_names(*old(r)).insert(h.name())),
{
    r.register(Box::new(h.metric.clone()))
}

/// The server's metrics and the registry they are exported from.
pub struct Metrics {
    pub registry: prometheus::Registry,
    pub http_requests_total: Named<CounterHandle>,
    pub http_request_duration: Named<prometheus::Histogram>,
    pub db_connections: Named<GaugeHandle>,
    pub db_query_duration: Named<prometheus::Histogram>,
    pub redis_connections: Named<GaugeHandle>,
    pub redis_operation_duration: Named<prometheus::Histogram>,
    pub messages_sent: Named<CounterHandle>,
    pub messages_delivered: Named<CounterHandle>,
    pub error_counter: Named<CounterHandle>,
}

/// The names of the server's metrics.
pub open spec fn metric_names() -> Set<Seq<char>> {
    set![
        "http_requests_total"@,
        "http_request_duration_seconds"@,
        "db_connections"@,
        "db_query_duration_seconds"@,
        "redis_connections"@,
        "redis_operation_duration_seconds"@,
        "messages_sent_total"@,
        "messages_delivered_total"@,
        "error_total"@,
    ]
}

/// The names of the server's metrics, in the order they are registered.
pub open spec fn metric_name_list() -> Seq<Seq<char>> {
    seq![
        "http_requests_total"@,
        "http_request_duration_seconds"@,
        "db_connections"@,
        "db_query_duration_seconds"@,
        "redis_connections"@,
        "redis_operation_duration_seconds"@,
        "messages_sent_total"@,
        "messages_delivered_total"@,
        "error_total"@,
    ]
}

/// The ids of the server's metrics.
pub open spec fn metric_ids() -> Set<u64> {
    set![
        metric_id("http_requests_total"@),
        metric_id("http_request_duration_seconds"@),
        metric_id("db_connections"@),
        metric_id("db_query_duration_seconds"@),
        metric_id("redis_connections"@),
        metric_id("redis_operation_duration_seconds"@),
        metric_id("messages_sent_total"@),
        metric_id("messages_delivered_total"@),
        metric_id("error_total"@),
    ]
}

/// No two of the server's metrics share an id (their names hash apart).
pub open spec fn metric_ids_distinct() -> bool {
    forall|i: int, j: int|
        0 <= i < j < 9 ==> metric_id(#[trigger] metric_name_list()[i]) != metric_id(
            #[trigger] metric_name_list()[j],
        )
}

/// A registry that can take all nine metrics: it holds none of their ids and
/// has recorded none of their names.
pub open spec fn room_for_metrics(r: prometheus::Registry) -> bool {
    registered_ids(r).disjoint(metric_ids()) && recorded_names(r).disjoint(metric_names())
}

impl Metrics {
    /// Each metric carries its own name.
    pub open spec fn names_ok(&self) -> bool {
        &&& self.http_requests_total.name() == "http_requests_total"@
        &&& self.http_request_duration.name() == "http_request_duration_seconds"@
        &&& self.db_connections.name() == "db_connections"@
        &&& self.db_query_duration.name() == "db_query_duration_seconds"@
        &&& self.redis_connections.name() == "redis_connections"@
        &&& self.redis_operation_duration.name() == "redis_operation_duration_seconds"@
        &&& self.messages_sent.name() == "messages_sent_total"@
        &&& self.messages_delivered.name() == "messages_delivered_total"@
        &&& self.error_counter.name() == "error_total"@
    }

    /// Creates the metrics and an empty registry; every name and help text
    /// is well-formed, so this succeeds.
    pub fn new() -> (r: Result<Metrics, prometheus::Error>)
        ensures
            r is Ok,
            r matches Ok(m) ==> m.names_ok() && registered_names(m.registry) == Set::<
                Seq<char>,
            >::empty() && registered_ids(m.registry) == Set::<u64>::empty() && recorded_names(
                m.registry,
            ) == Set::<Seq<char>>::empty(),
    {
        proof {
            reveal_strlit("http_requests_total");
            reveal_strlit("Total number of HTTP requests");
            assert(metric_accepted("http_requests_total"@, "Total number of HTTP requests"@));
            reveal_strlit("http_request_duration_seconds");
            reveal_strlit("HTTP request duration in seconds");
            assert(metric_accepted("http_request_duration_seconds"@, "HTTP request duration in seconds"@));
            reveal_strlit("db_connections");
            reveal_strlit("Number of active database connections");
            assert(metric_accepted("db_connections"@, "Number of active database connections"@));
            reveal_strlit("db_query_duration_seconds");
            reveal_strlit("Database query duration in seconds");
            assert(metric_accepted("db_query_duration_seconds"@, "Database query duration in seconds"@));
            reveal_strlit("redis_connections");
            reveal_strlit("Number of active Redis connections");
            assert(metric_accepted("redis_connections"@, "Number of active Redis connections"@));
            reveal_strlit("redis_operation_duration_seconds");
            reveal_strlit("Redis operation duration in seconds");
            assert(metric_accepted("redis_operation_duration_seconds"@, "Redis operation duration in seconds"@));
            reveal_strlit("messages_sent_total");
            reveal_strlit("Total number of messages sent");
            assert(metric_accepted("messages_sent_total"@, "Total number of messages sent"@));
            reveal_strlit("messages_delivered_total");
            reveal_strlit("Total number of messages delivered");
            assert(metric_accepted("messages_delivered_total"@, "Total number of messages delivered"@));
            reveal_strlit("error_total");
            reveal_strlit("Total number of errors");
            assert(metric_accepted("error_total"@, "Total number of errors"@));
        }
        let http_requests_total = named_counter(
            "http_requests_total",
            "Total number of HTTP requests",
        )?;
        let http_request_duration = named_histogram(
            "http_request_duration_seconds",
            "HTTP request duration in seconds",
        )?;
        let db_connections = named_gauge(
            "db_connections",
            "Number of active database connections",
        )?;
        let db_query_duration = named_histogram(
            "db_query_duration_seconds",
            "Database query duration in seconds",
        )?;
        let redis_connections = named_gauge(
            "redis_connections",
            "Number of active Redis connections",
        )?;
        let redis_operation_duration = named_histogram(
            "redis_operation_duration_seconds",
            "Redis operation duration in seconds",
        )?;
        let messages_sent = named_counter("messages_sent_total", "Total number of messages sent")?;
        let messages_delivered = named_counter(
            "messages_delivered_total",
            "Total number of messages delivered",
        )?;
        let error_counter = named_counter("error_total", "Total number of errors")?;
        Ok(
            Metrics {
                registry: registry_new(),
                http_requests_total,
                http_request_duration,
                db_connections,
                db_query_duration,
                redis_connections,
                redis_operation_duration,
                messages_sent,
                messages_delivered,
                error_counter,
            },
        )
    }
}

/// No two of the server's metrics share an id: their names hash apart.
pub proof fn lemma_metric_ids_distinct()
    ensures
        metric_ids_distinct(),
{
    reveal_strlit("http_requests_total");
    reveal_strlit("http_request_duration_seconds");
    reveal_strlit("db_connections");
    reveal_strlit("db_query_duration_seconds");
    reveal_strlit("redis_connections");
    reveal_strlit("redis_operation_duration_seconds");
    reveal_strlit("messages_sent_total");
    reveal_strlit("messages_delivered_total");
    reveal_strlit("error_total");
    lemma_id_http_requests_total();
    lemma_id_http_request_duration_seconds();
    lemma_id_db_connections();
    lemma_id_db_query_duration_seconds();
    lemma_id_redis_connections();
    lemma_id_redis_operation_duration_seconds();
    lemma_id_messages_sent_total();
    lemma_id_messages_delivered_total();
    lemma_id_error_total();
}

/// Registers all nine metrics in the registry, in order. A registry with
/// room for them (none of their ids held, none of their names recorded)
/// takes them all, since the nine ids differ; the caller must give it one
/// (where a metric is refused, the server cannot start).
pub fn register_metrics(m: &mut Metrics) -> (r: Result<(), prometheus::Error>)
    requires
        old(m).names_ok(),
        room_for_metrics(old(m).registry),
    ensures
        final(m).names_ok(),
        r is Ok,
        registered_names(final(m).registry) == registered_names(old(m).registry) + metric_names(),
        registered_ids(final(m).registry) == registered_ids(old(m).registry) + metric_ids(),
{
    let ghost start = registered_names(m.registry);
    let ghost start_ids = registered_ids(m.registry);
    let ghost start_recorded = recorded_names(m.registry);
    proof {
        reveal_strlit("http_requests_total");
        reveal_strlit("http_request_duration_seconds");
        reveal_strlit("db_connections");
        reveal_strlit("db_query_duration_seconds");
        reveal_strlit("redis_connections");
        reveal_strlit("redis_operation_duration_seconds");
        reveal_strlit("messages_sent_total");
        reveal_strlit("messages_delivered_total");
        reveal_strlit("error_total");
        lemma_id_http_requests_total();
        lemma_id_http_request_duration_seconds();
        lemma_id_db_connections();
        lemma_id_db_query_duration_seconds();
        lemma_id_redis_connections();
        lemma_id_redis_operation_duration_seconds();
        lemma_id_messages_sent_total();
        lemma_id_messages_delivered_total();
        lemma_id_error_total();
        assert(metric_ids().contains(metric_id("http_requests_total"@)));
        assert(metric_names().contains("http_requests_total"@));
        assert(metric_ids().contains(metric_id("http_request_duration_seconds"@)));
        assert(metric_names().contains("http_request_duration_seconds"@));
        assert(metric_ids().contains(metric_id("db_connections"@)));
        assert(metric_names().contains("db_connections"@));
        assert(metric_ids().contains(metric_id("db_query_duration_seconds"@)));
        assert(metric_names().contains("db_query_duration_seconds"@));
        assert(metric_ids().contains(metric_id("redis_connections"@)));
        assert(metric_names().contains("redis_connections"@));
        assert(metric_ids().contains(metric_id("redis_operation_duration_seconds"@)));
        assert(metric_names().contains("redis_operation_duration_seconds"@));
        assert(metric_ids().contains(metric_id("messages_sent_total"@)));
        assert(metric_names().contains("messages_sent_total"@));
        assert(metric_ids().contains(metric_id("messages_delivered_total"@)));
        assert(metric_names().contains("messages_delivered_total"@));
        assert(metric_ids().contains(metric_id("error_total"@)));
        assert(metric_names().contains("error_total"@));
    }
    if let Err(e) = register_counter(&mut m.registry, &m.http_requests_total) {
        return Err(e);
    }
    assert(registered_ids(m.registry) =~= start_ids + set![metric_id("http_requests_total"@), ]);
    assert(registered_names(m.registry) =~= start + set!["http_requests_total"@, ]);
    assert(recorded_names(m.registry) =~= start_recorded + set!["http_requests_total"@, ]);
    if let Err(e) = register_histogram(&mut m.registry, &m.http_request_duration) {
        return Err(e);
    }
    assert(registered_ids(m.registry) =~= start_ids + set![metric_id("http_requests_total"@), metric_id("http_request_duration_seconds"@), ]);
    assert(registered_names(m.registry) =~= start + set!["http_requests_total"@, "http_request_duration_seconds"@, ]);
    assert(recorded_names(m.registry) =~= start_recorded + set!["http_requests_total"@, "http_request_duration_seconds"@, ]);
    if let Err(e) = register_gauge(&mut m.registry, &m.db_connections) {
        return Err(e);
    }
    assert(registered_ids(m.registry) =~= start_ids + set![metric_id("http_requests_total"@), metric_id("http_request_duration_seconds"@), metric_id("db_connections"@), ]);
    assert(registered_names(m.registry) =~= start + set!["http_requests_total"@, "http_request_duration_seconds"@, "db_connections"@, ]);
    assert(recorded_names(m.registry) =~= start_recorded + set!["http_requests_total"@, "http_request_duration_seconds"@, "db_connections"@, ]);
    if let Err(e) = register_histogram(&mut m.registry, &m.db_query_duration) {
        return Err(e);
    }
    assert(registered_ids(m.registry) =~= start_ids + set![metric_id("http_requests_total"@), metric_id("http_request_duration_seconds"@), metric_id("db_connections"@), metric_id("db_query_duration_seconds"@), ]);
    assert(registered_names(m.registry) =~= start + set!["http_requests_total"@, "http_request_duration_seconds"@, "db_connections"@, "db_query_duration_seconds"@, ]);
    assert(recorded_names(m.registry) =~= start_recorded + set!["http_requests_total"@, "http_request_duration_seconds"@, "db_connections"@, "db_query_duration_seconds"@, ]);
    if let Err(e) = register_gauge(&mut m.registry, &m.redis_connections) {
        return Err(e);
    }
    assert(registered_ids(m.registry) =~= start_ids + set![metric_id("http_requests_total"@), metric_id("http_request_duration_seconds"@), metric_id("db_connections"@), metric_id("db_query_duration_seconds"@), metric_id("redis_connections"@), ]);
    assert(registered_names(m.registry) =~= start + set!["http_requests_total"@, "http_request_duration_seconds"@, "db_connections"@, "db_query_duration_seconds"@, "redis_connections"@, ]);
    assert(recorded_names(m.registry) =~= start_recorded + set!["http_requests_total"@, "http_request_duration_seconds"@, "db_connections"@, "db_query_duration_seconds"@, "redis_connections"@, ]);
    if let Err(e) = register_histogram(&mut m.registry, &m.redis_operation_duration) {
        return Err(e);
    }
    assert(registered_ids(m.registry) =~= start_ids + set![metric_id("http_requests_total"@), metric_id("http_request_duration_seconds"@), metric_id("db_connections"@), metric_id("db_query_duration_seconds"@), metric_id("redis_connections"@), metric_id("redis_operation_duration_seconds"@), ]);
    assert(registered_names(m.registry) =~= start + set!["http_requests_total"@, "http_request_duration_seconds"@, "db_connections"@, "db_query_duration_seconds"@, "redis_connections"@, "redis_operation_duration_seconds"@, ]);
    assert(recorded_names(m.registry) =~= start_recorded + set!["http_requests_total"@, "http_request_duration_seconds"@, "db_connections"@, "db_query_duration_seconds"@, "redis_connections"@, "redis_operation_duration_seconds"@, ]);
    if let Err(e) = register_counter(&mut m.registry, &m.messages_sent) {
        return Err(e);
    }
    assert(registered_ids(m.registry) =~= start_ids + set![metric_id("http_requests_total"@), metric_id("http_request_duration_seconds"@), metric_id("db_connections"@), metric_id("db_query_duration_seconds"@), metric_id("redis_connections"@), metric_id("redis_operation_duration_seconds"@), metric_id("messages_sent_total"@), ]);
    assert(registered_names(m.registry) =~= start + set!["http_requests_total"@, "http_request_duration_seconds"@, "db_connections"@, "db_query_duration_seconds"@, "redis_connections"@, "redis_operation_duration_seconds"@, "messages_sent_total"@, ]);
    assert(recorded_names(m.registry) =~= start_recorded + set!["http_requests_total"@, "http_request_duration_seconds"@, "db_connections"@, "db_query_duration_seconds"@, "redis_connections"@, "redis_operation_duration_seconds"@, "messages_sent_total"@, ]);
    if let Err(e) = register_counter(&mut m.registry, &m.messages_delivered) {
        return Err(e);
    }
    assert(registered_ids(m.registry) =~= start_ids + set![metric_id("http_requests_total"@), metric_id("http_request_duration_seconds"@), metric_id("db_connections"@), metric_id("db_query_duration_seconds"@), metric_id("redis_connections"@), metric_id("redis_operation_duration_seconds"@), metric_id("messages_sent_total"@), metric_id("messages_delivered_total"@), ]);
    assert(registered_names(m.registry) =~= start + set!["http_requests_total"@, "http_request_duration_seconds"@, "db_connections"@, "db_query_duration_seconds"@, "redis_connections"@, "redis_operation_duration_seconds"@, "messages_sent_total"@, "messages_delivered_total"@, ]);
    assert(recorded_names(m.registry) =~= start_recorded + set!["http_requests_total"@, "http_request_duration_seconds"@, "db_connections"@, "db_query_duration_seconds"@, "redis_connections"@, "redis_operation_duration_seconds"@, "messages_sent_total"@, "messages_delivered_total"@, ]);
    if let Err(e) = register_counter(&mut m.registry, &m.error_counter) {
        return Err(e);
    }
    assert(registered_ids(m.registry) =~= start_ids + set![metric_id("http_requests_total"@), metric_id("http_request_duration_seconds"@), metric_id("db_connections"@), metric_id("db_query_duration_seconds"@), metric_id("redis_connections"@), metric_id("redis_operation_duration_seconds"@), metric_id("messages_sent_total"@), metric_id("messages_delivered_total"@), metric_id("error_total"@), ]);
    assert(registered_names(m.registry) =~= start + set!["http_requests_total"@, "http_request_duration_seconds"@, "db_connections"@, "db_query_duration_seconds"@, "redis_connections"@, "redis_operation_duration_seconds"@, "messages_sent_total"@, "messages_delivered_total"@, "error_total"@, ]);
    assert(recorded_names(m.registry) =~= start_recorded + set!["http_requests_total"@, "http_request_duration_seconds"@, "db_connections"@, "db_query_duration_seconds"@, "redis_connections"@, "redis_operation_duration_seconds"@, "messages_sent_total"@, "messages_delivered_total"@, "error_total"@, ]);
    assert(registered_names(m.registry) =~= start + metric_names());
    assert(registered_ids(m.registry) =~= start_ids + metric_ids());
    assert(start.disjoint(metric_names()));
    Ok(())
}

} // verus!
