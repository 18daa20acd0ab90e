//! Monitoring of deployments: the figures that deployments and proofs report,
//! the statistics and the health derived from them, and the alerts raised
//! where they cross a threshold.
//!
//! Points in time are milliseconds since the Unix epoch and spans of time are
//! milliseconds; the caller reads the clock. Fractional figures are exact
//! [`Ratio`]s.

use crate::export::{number_text, percent_text, push_number, push_percent};
use crate::lookup::{first_hit, first_hit_found, first_hit_missing, put};
use crate::ranking::{rank_position, ranked, top};
use crate::ratio::Ratio;
use crate::text::{decimal, push_decimal, same_text};
use vstd::prelude::*;
use vstd::string::StringExecFns;

verus! {

/// The window over which thresholds are checked: five minutes.
pub const THRESHOLD_WINDOW: u64 = 300_000;

/// What a deployment reports about itself.
#[derive(Clone, Debug)]
pub struct DeploymentMetrics {
    pub deployment_id: String,
    pub program_name: String,
    pub status: DeploymentStatus,
    pub start_time: u64,
    pub end_time: Option<u64>,
    pub total_proofs_generated: u64,
    pub total_proofs_verified: u64,
    pub average_proof_time: u64,
    pub total_cycles: u64,
    pub memory_usage: u64,
    pub backend: String,
    pub version: String,
}

/// Whether a deployment runs.
#[derive(Clone, Copy, Debug, PartialEq, Eq, Structural)]
pub enum DeploymentStatus {
    Running,
    Stopped,
    Error,
    Paused,
}

/// What was measured of one proof.
#[derive(Clone, Debug)]
pub struct ProofMetrics {
    pub proof_id: String,
    pub deployment_id: String,
    pub generation_time: u64,
    pub verification_time: u64,
    pub proof_size: usize,
    pub cycles: u64,
    pub memory_usage: u64,
    pub backend: String,
    pub timestamp: u64,
    pub status: ProofStatus,
}

/// How far a proof has come.
#[derive(Clone, Copy, Debug, PartialEq, Eq, Structural)]
pub enum ProofStatus {
    Generated,
    Verified,
    Failed,
    Pending,
}

/// The statistics of one deployment over a span of time. The throughput is in
/// proofs per second.
#[derive(Clone, Debug)]
pub struct PerformanceStats {
    pub deployment_id: String,
    pub time_period: u64,
    pub total_proofs: u64,
    pub successful_proofs: u64,
    pub failed_proofs: u64,
    pub average_generation_time: u64,
    pub average_verification_time: u64,
    pub throughput: Ratio,
    pub cpu_usage: Ratio,
    pub memory_usage: Ratio,
    pub disk_usage: Ratio,
}

/// The health of the whole system.
#[derive(Clone, Debug)]
pub struct SystemHealth {
    pub overall_status: HealthStatus,
    pub deployments: Vec<DeploymentHealth>,
    pub system_resources: SystemResources,
    pub alerts: Vec<Alert>,
    pub timestamp: u64,
}

/// How well something does.
#[derive(Clone, Copy, Debug, PartialEq, Eq, Structural)]
pub enum HealthStatus {
    Healthy,
    Warning,
    Critical,
    Unknown,
}

/// The health of one deployment. The error rate is the share of generated
/// proofs that were not verified.
#[derive(Clone, Debug)]
pub struct DeploymentHealth {
    pub deployment_id: String,
    pub status: HealthStatus,
    pub uptime: u64,
    pub last_activity: u64,
    pub error_rate: Ratio,
    pub response_time: u64,
}

/// What the machine has left. Usages are in percent.
#[derive(Clone, Copy, Debug, PartialEq, Eq, Structural)]
pub struct SystemResources {
    pub cpu_usage: Ratio,
    pub memory_usage: Ratio,
    pub disk_usage: Ratio,
    pub network_usage: Ratio,
    pub available_memory: u64,
    pub available_disk: u64,
}

/// Something that an operator should look at.
#[derive(Clone, Debug)]
pub struct Alert {
    pub id: String,
    pub severity: AlertSeverity,
    pub message: String,
    pub deployment_id: Option<String>,
    pub timestamp: u64,
    pub resolved: bool,
}

/// How serious an alert is.
#[derive(Clone, Copy, Debug, PartialEq, Eq, Structural)]
pub enum AlertSeverity {
    Info,
    Warning,
    Critical,
}

/// How the dashboard is set up.
#[derive(Clone, Debug)]
pub struct DashboardConfig {
    pub refresh_interval: u64,
    pub retention_period: u64,
    pub alert_thresholds: AlertThresholds,
    pub endpoints: Vec<String>,
    pub authentication: Option<AuthConfig>,
}

/// The thresholds beyond which an alert is raised. The error rate is a share;
/// the throughput is in proofs per second.
#[derive(Clone, Copy, Debug, PartialEq, Eq, Structural)]
pub struct AlertThresholds {
    pub max_response_time: u64,
    pub max_error_rate: Ratio,
    pub max_cpu_usage: Ratio,
    pub max_memory_usage: Ratio,
    pub min_throughput: Ratio,
}

/// Who may look at the dashboard.
#[derive(Clone, Debug)]
pub struct AuthConfig {
    pub enabled: bool,
    pub username: String,
    pub password_hash: String,
}

/// The forms in which the figures can be exported.
#[derive(Clone, Copy, Debug, PartialEq, Eq, Structural)]
pub enum MetricsFormat {
    /// The structured record of everything the dashboard holds.
    Json,
    /// The counters of the deployments in the Prometheus text format.
    Prometheus,
}

/// An alert as plain values.
pub struct AlertView {
    pub id: Seq<char>,
    pub severity: AlertSeverity,
    pub message: Seq<char>,
    pub deployment_id: Option<Seq<char>>,
    pub timestamp: u64,
    pub resolved: bool,
}

impl View for Alert {
    type V = AlertView;

    open spec fn view(&self) -> AlertView {
        AlertView {
            id: self.id@,
            severity: self.severity,
            message: self.message@,
            deployment_id: match self.deployment_id {
                Some(d) => Some(d@),
                None => None,
            },
            timestamp: self.timestamp,
            resolved: self.resolved,
        }
    }
}

/// The alerts of `alerts` as plain values.
pub open spec fn alert_views(alerts: Seq<Alert>) -> Seq<AlertView> {
    alerts.map_values(|a: Alert| a@)
}

/// What the dashboard holds.
pub struct DashboardState {
    pub deployments: Seq<DeploymentMetrics>,
    pub proof_metrics: Seq<ProofMetrics>,
    pub config: DashboardConfig,
    pub alerts: Seq<Alert>,
}

/// The dashboard: the deployments by their id, the measurements of recent
/// proofs, and the alerts raised so far.
pub struct PicoMonitoringDashboard {
    deployments: Vec<DeploymentMetrics>,
    proof_metrics: Vec<ProofMetrics>,
    config: DashboardConfig,
    alerts: Vec<Alert>,
}

impl View for PicoMonitoringDashboard {
    type V = DashboardState;

    closed spec fn view(&self) -> DashboardState {
        DashboardState {
            deployments: self.deployments@,
            proof_metrics: self.proof_metrics@,
            config: self.config,
            alerts: self.alerts@,
        }
    }
}

// ----- the figures -----

/// The deployments with the id `id`.
pub open spec fn deployment_with(id: Seq<char>) -> spec_fn(DeploymentMetrics) -> bool {
    |d: DeploymentMetrics| d.deployment_id@ == id
}

/// The alerts with the id `id`.
pub open spec fn alert_with(id: Seq<char>) -> spec_fn(Alert) -> bool {
    |a: Alert| a.id@ == id
}

/// Whether `timestamp` lies less than `window` before `now`.
pub open spec fn is_recent(timestamp: u64, window: u64, now: u64) -> bool {
    timestamp + window > now
}

/// The measurements taken less than `window` before `now`.
pub open spec fn recent(window: u64, now: u64) -> spec_fn(ProofMetrics) -> bool {
    |m: ProofMetrics| is_recent(m.timestamp, window, now)
}

/// The measurements of the deployment `id` taken less than `window` before `now`.
pub open spec fn relevant(id: Seq<char>, window: u64, now: u64) -> spec_fn(ProofMetrics) -> bool {
    |m: ProofMetrics| m.deployment_id@ == id && is_recent(m.timestamp, window, now)
}

/// The measurements of verified proofs.
pub open spec fn is_verified() -> spec_fn(ProofMetrics) -> bool {
    |m: ProofMetrics| m.status == ProofStatus::Verified
}

/// Whether the measurement `a` is later than `b`.
pub open spec fn later_first() -> spec_fn(ProofMetrics, ProofMetrics) -> bool {
    |a: ProofMetrics, b: ProofMetrics| a.timestamp > b.timestamp
}

/// The sum of the generation times of `proofs`.
pub open spec fn generation_total(proofs: Seq<ProofMetrics>) -> nat
    decreases proofs.len(),
{
    if proofs.len() == 0 {
        0
    } else {
        generation_total(proofs.drop_last()) + proofs.last().generation_time as nat
    }
}

/// The sum of the verification times of `proofs`.
pub open spec fn verification_total(proofs: Seq<ProofMetrics>) -> nat
    decreases proofs.len(),
{
    if proofs.len() == 0 {
        0
    } else {
        verification_total(proofs.drop_last()) + proofs.last().verification_time as nat
    }
}

/// `total` divided among `count`, and zero where `count` is zero.
pub open spec fn mean(total: nat, count: nat) -> nat {
    if count == 0 {
        0
    } else {
        total / count
    }
}

/// The figure `n` as a ratio.
pub open spec fn figure(n: u64) -> Ratio {
    Ratio { numerator: n, denominator: 1 }
}

/// The resources of the machine, as far as they are known.
pub open spec fn known_resources() -> SystemResources {
    SystemResources {
        cpu_usage: figure(45),
        memory_usage: figure(60),
        disk_usage: figure(25),
        network_usage: figure(10),
        available_memory: 8_589_934_592,
        available_disk: 107_374_182_400,
    }
}

/// How long the deployment `d` has been up at time `now`: until its end where it
/// has ended, and zero where that lies before its start.
pub open spec fn uptime_of(d: DeploymentMetrics, now: u64) -> u64 {
    let end = match d.end_time {
        Some(e) => e,
        None => now,
    };
    if d.start_time <= end {
        (end - d.start_time) as u64
    } else {
        0
    }
}

/// The share of the proofs generated by `d` that were not verified, and zero
/// where it has generated none.
pub open spec fn error_rate_of(d: DeploymentMetrics) -> Ratio {
    if d.total_proofs_generated > 0 {
        Ratio {
            numerator: (d.total_proofs_generated - d.total_proofs_verified) as u64,
            denominator: d.total_proofs_generated,
        }
    } else {
        Ratio { numerator: 0, denominator: 1 }
    }
}

/// The health that goes with an error rate: critical above a tenth, a warning
/// above a twentieth, healthy otherwise.
pub open spec fn health_at(error_rate: Ratio) -> HealthStatus {
    if (Ratio { numerator: 1, denominator: 10 }).lt(error_rate) {
        HealthStatus::Critical
    } else if (Ratio { numerator: 1, denominator: 20 }).lt(error_rate) {
        HealthStatus::Warning
    } else {
        HealthStatus::Healthy
    }
}

/// Whether the deployment `d`, where it has generated proofs at all, has
/// verified no more of them than it generated.
pub open spec fn counts_are_sound(d: DeploymentMetrics) -> bool {
    d.total_proofs_generated > 0 ==> d.total_proofs_verified <= d.total_proofs_generated
}

/// Whether `health` is the health of the deployment `d` at time `now`.
pub open spec fn is_health_of(health: DeploymentHealth, d: DeploymentMetrics, now: u64) -> bool {
    &&& health.deployment_id@ == d.deployment_id@
    &&& health.status == health_at(error_rate_of(d))
    &&& health.uptime == uptime_of(d, now)
    &&& health.last_activity == now
    &&& health.error_rate == error_rate_of(d)
    &&& health.response_time == d.average_proof_time
}

/// The health of a system with the deployments `deployments`: critical where
/// one of them is, else a warning where one of them is, unknown without
/// deployments, and healthy otherwise.
pub open spec fn overall_health(deployments: Seq<DeploymentMetrics>) -> HealthStatus {
    if exists|i: int|
        0 <= i < deployments.len() && health_at(error_rate_of(#[trigger] deployments[i]))
            == HealthStatus::Critical {
        HealthStatus::Critical
    } else if exists|i: int|
        0 <= i < deployments.len() && health_at(error_rate_of(#[trigger] deployments[i]))
            == HealthStatus::Warning {
        HealthStatus::Warning
    } else if deployments.len() == 0 {
        HealthStatus::Unknown
    } else {
        HealthStatus::Healthy
    }
}

/// The id of an alert raised at time `now`: `alert_` and the time in seconds.
pub open spec fn alert_id_at(now: u64) -> Seq<char> {
    "alert_"@ + decimal((now / 1000) as nat)
}

impl DashboardState {
    /// The measurements of the deployment `id` taken less than `window` before
    /// `now`.
    pub open spec fn relevant_proofs(self, id: Seq<char>, window: u64, now: u64) -> Seq<
        ProofMetrics,
    > {
        self.proof_metrics.filter(relevant(id, window, now))
    }

    /// How many of these measurements are of verified proofs.
    pub open spec fn verified_proofs(self, id: Seq<char>, window: u64, now: u64) -> nat {
        self.relevant_proofs(id, window, now).filter(is_verified()).len()
    }

    /// How many of these measurements are of proofs that are not verified.
    pub open spec fn failed_proofs(self, id: Seq<char>, window: u64, now: u64) -> nat {
        (self.relevant_proofs(id, window, now).len() - self.verified_proofs(id, window, now)) as nat
    }

    /// The mean generation time over these measurements.
    pub open spec fn average_generation(self, id: Seq<char>, window: u64, now: u64) -> nat {
        let proofs = self.relevant_proofs(id, window, now);
        mean(generation_total(proofs), proofs.len())
    }

    /// The mean verification time over these measurements.
    pub open spec fn average_verification(self, id: Seq<char>, window: u64, now: u64) -> nat {
        let proofs = self.relevant_proofs(id, window, now);
        mean(verification_total(proofs), proofs.len())
    }

    /// The proofs per second over the window: the count of these measurements
    /// by the whole seconds of the window, and zero for a window under a second.
    pub open spec fn throughput(self, id: Seq<char>, window: u64, now: u64) -> Ratio {
        Ratio {
            numerator: self.relevant_proofs(id, window, now).len() as u64,
            denominator: window / 1000,
        }
    }

    /// The share of these measurements that are of proofs that are not verified.
    pub open spec fn failure_rate(self, id: Seq<char>, window: u64, now: u64) -> Ratio {
        Ratio {
            numerator: self.failed_proofs(id, window, now) as u64,
            denominator: self.relevant_proofs(id, window, now).len() as u64,
        }
    }

    /// The alert that the deployment `id` answers too slowly.
    pub open spec fn slow_alert(self, id: Seq<char>, now: u64) -> AlertView {
        AlertView {
            id: alert_id_at(now),
            severity: AlertSeverity::Warning,
            message: "High response time for deployment "@ + id + ": "@ + decimal(
                self.average_generation(id, THRESHOLD_WINDOW, now),
            ) + "ms"@,
            deployment_id: Some(id),
            timestamp: now,
            resolved: false,
        }
    }

    /// The alert that too many proofs of the deployment `id` fail.
    pub open spec fn failing_alert(self, id: Seq<char>, now: u64) -> AlertView {
        AlertView {
            id: alert_id_at(now),
            severity: AlertSeverity::Critical,
            message: "High error rate for deployment "@ + id + ": "@ + percent_text(
                self.failure_rate(id, THRESHOLD_WINDOW, now),
            ) + "%"@,
            deployment_id: Some(id),
            timestamp: now,
            resolved: false,
        }
    }

    /// The alert that the deployment `id` proves too little.
    pub open spec fn idle_alert(self, id: Seq<char>, now: u64) -> AlertView {
        AlertView {
            id: alert_id_at(now),
            severity: AlertSeverity::Warning,
            message: "Low throughput for deployment "@ + id + ": "@ + number_text(
                self.throughput(id, THRESHOLD_WINDOW, now),
            ) + " proofs/sec"@,
            deployment_id: Some(id),
            timestamp: now,
            resolved: false,
        }
    }

    /// The alerts that are due for the deployment `id` at time `now`, over the
    /// last five minutes: one where the mean generation time is above the
    /// threshold, one where the share of failed proofs is, and one where the
    /// throughput is below its threshold with more than ten proofs measured.
    pub open spec fn alerts_due_for(self, id: Seq<char>, now: u64) -> Seq<AlertView> {
        let limits = self.config.alert_thresholds;
        let slow = if self.average_generation(id, THRESHOLD_WINDOW, now)
            > limits.max_response_time {
            seq![self.slow_alert(id, now)]
        } else {
            Seq::empty()
        };
        let failing = if limits.max_error_rate.lt(self.failure_rate(id, THRESHOLD_WINDOW, now)) {
            seq![self.failing_alert(id, now)]
        } else {
            Seq::empty()
        };
        let idle = if self.throughput(id, THRESHOLD_WINDOW, now).lt(limits.min_throughput)
            && self.relevant_proofs(id, THRESHOLD_WINDOW, now).len() > 10 {
            seq![self.idle_alert(id, now)]
        } else {
            Seq::empty()
        };
        slow + failing + idle
    }

    /// The alerts that are due for the first `count` deployments at time `now`.
    pub open spec fn alerts_due(self, count: nat, now: u64) -> Seq<AlertView>
        decreases count,
    {
        if count == 0 || count > self.deployments.len() {
            Seq::empty()
        } else {
            self.alerts_due((count - 1) as nat, now) + self.alerts_due_for(
                self.deployments[count - 1].deployment_id@,
                now,
            )
        }
    }
}

/// One line of the Prometheus export: the counter `name` of the deployment `d`
/// with the value `value`.
pub open spec fn prometheus_line(name: Seq<char>, d: DeploymentMetrics, value: u64) -> Seq<char> {
    name + "{deployment_id=\""@ + d.deployment_id@ + "\",backend=\""@ + d.backend@ + "\"} "@
        + decimal(value as nat) + "\n"@
}

/// The lines of the Prometheus export for the deployment `d`: its proofs
/// generated, its proofs verified and its cycles.
pub open spec fn prometheus_lines(d: DeploymentMetrics) -> Seq<char> {
    prometheus_line("pico_deployment_total_proofs"@, d, d.total_proofs_generated)
        + prometheus_line("pico_deployment_verified_proofs"@, d, d.total_proofs_verified)
        + prometheus_line("pico_deployment_total_cycles"@, d, d.total_cycles)
}

/// The Prometheus export of `deployments`.
pub open spec fn prometheus_text(deployments: Seq<DeploymentMetrics>) -> Seq<char>
    decreases deployments.len(),
{
    if deployments.len() == 0 {
        Seq::empty()
    } else {
        prometheus_text(deployments.drop_last()) + prometheus_lines(deployments.last())
    }
}

impl MetricsFormat {
    /// The format that `name` names, if it names one.
    pub open spec fn named(name: Seq<char>) -> Option<MetricsFormat> {
        if name == "json"@ {
            Some(MetricsFormat::Json)
        } else if name == "prometheus"@ {
            Some(MetricsFormat::Prometheus)
        } else {
            None
        }
    }

    /// The format that `name` names: `"json"` or `"prometheus"`. Any other name
    /// is unsupported.
    pub fn parse(name: &str) -> (format: Option<MetricsFormat>)
        ensures
            format == MetricsFormat::named(name@),
    {
        if same_text(name, "json") {
            Some(MetricsFormat::Json)
        } else if same_text(name, "prometheus") {
            Some(MetricsFormat::Prometheus)
        } else {
            None
        }
    }
}

impl Alert {
    /// A copy of the alert.
    pub fn duplicate(&self) -> (copy: Alert)
        ensures
            copy == *self,
    {
        Alert {
            id: self.id.clone(),
            severity: self.severity,
            message: self.message.clone(),
            deployment_id: match &self.deployment_id {
                Some(d) => Some(d.clone()),
                None => None,
            },
            timestamp: self.timestamp,
            resolved: self.resolved,
        }
    }
}

impl ProofMetrics {
    /// A copy of the measurement.
    pub fn duplicate(&self) -> (copy: ProofMetrics)
        ensures
            copy == *self,
    {
        ProofMetrics {
            proof_id: self.proof_id.clone(),
            deployment_id: self.deployment_id.clone(),
            generation_time: self.generation_time,
            verification_time: self.verification_time,
            proof_size: self.proof_size,
            cycles: self.cycles,
            memory_usage: self.memory_usage,
            backend: self.backend.clone(),
            timestamp: self.timestamp,
            status: self.status,
        }
    }
}

fn is_recent_at(timestamp: u64, window: u64, now: u64) -> (r: bool)
    ensures
        r == is_recent(timestamp, window, now),
{
    timestamp as u128 + window as u128 > now as u128
}

fn alert_id(now: u64) -> (id: String)
    ensures
        id@ == alert_id_at(now),
{
    let mut id = String::from_str("alert_");
    push_decimal(&mut id, (now / 1000) as u128);
    id
}

fn push_prometheus_line(out: &mut String, name: &str, d: &DeploymentMetrics, value: u64)
    ensures
        final(out)@ == old(out)@ + prometheus_line(name@, *d, value),
{
    out.append(name);
    out.append("{deployment_id=\"");
    out.append(d.deployment_id.as_str());
    out.append("\",backend=\"");
    out.append(d.backend.as_str());
    out.append("\"} ");
    push_decimal(out, value as u128);
    out.append("\n");
    assert(out@ =~= old(out)@ + prometheus_line(name@, *d, value));
}

impl PicoMonitoringDashboard {
    /// A dashboard set up by `config`, without deployments, measurements or
    /// alerts.
    pub fn new(config: DashboardConfig) -> (dashboard: Self)
        ensures
            dashboard@ == (DashboardState {
                deployments: Seq::empty(),
                proof_metrics: Seq::empty(),
                config,
                alerts: Seq::empty(),
            }),
    {
        Self { deployments: Vec::new(), proof_metrics: Vec::new(), config, alerts: Vec::new() }
    }

    fn find_deployment(&self, id: &str) -> (found: Option<usize>)
        ensures
            match found {
                Some(i) => first_hit(self@.deployments, deployment_with(id@)) == Some(i as int) && i
                    < self.deployments@.len(),
                None => first_hit(self@.deployments, deployment_with(id@)) is None,
            },
    {
        let mut i: usize = 0;
        while i < self.deployments.len()
            invariant
                i <= self.deployments@.len(),
                forall|j: int|
                    0 <= j < i ==> !deployment_with(id@)(#[trigger] self.deployments@[j]),
            decreases self.deployments@.len() - i,
        {
            if same_text(self.deployments[i].deployment_id.as_str(), id) {
                proof {
                    first_hit_found(self.deployments@, deployment_with(id@), i as int);
                }
                return Some(i);
            }
            i += 1;
        }
        proof {
            first_hit_missing(self.deployments@, deployment_with(id@));
        }
        None
    }

    /// Takes the figures of a deployment, in the place of earlier figures of the
    /// same deployment if there are any.
    pub fn register_deployment(&mut self, metrics: DeploymentMetrics)
        ensures
            final(self)@ == (DashboardState {
                deployments: put(
                    old(self)@.deployments,
                    first_hit(old(self)@.deployments, deployment_with(metrics.deployment_id@)),
                    metrics,
                ),
                ..old(self)@
            }),
    {
        match self.find_deployment(metrics.deployment_id.as_str()) {
            Some(i) => {
                self.deployments[i] = metrics;
            },
            None => {
                self.deployments.push(metrics);
            },
        }
    }

    /// Takes the measurement of a proof at time `now`, and drops every
    /// measurement that is as old as the retention period or older.
    pub fn record_proof_metrics(&mut self, metrics: ProofMetrics, now: u64)
        ensures
            final(self)@ == (DashboardState {
                proof_metrics: old(self)@.proof_metrics.push(metrics).filter(
                    recent(old(self)@.config.retention_period, now),
                ),
                ..old(self)@
            }),
    {
        let window = self.config.retention_period;
        self.proof_metrics.push(metrics);
        let ghost all = self.proof_metrics@;
        let ghost fresh = recent(window, now);
        let ghost mut seen: int = 0;
        let mut i: usize = 0;
        proof {
            assert(all.take(0).filter(fresh) =~= Seq::empty()) by {
                reveal(Seq::filter);
            }
            assert(self.proof_metrics@ =~= all.take(0).filter(fresh) + all.skip(0));
        }
        while i < self.proof_metrics.len()
            invariant
                0 <= seen <= all.len(),
                i <= self.proof_metrics@.len(),
                i == all.take(seen).filter(fresh).len(),
                self.proof_metrics@ == all.take(seen).filter(fresh) + all.skip(seen),
                fresh == recent(window, now),
                self.deployments@ == old(self).deployments@,
                self.config == old(self).config,
                self.alerts@ == old(self).alerts@,
            decreases self.proof_metrics@.len() - i,
        {
            proof {
                let kept = all.take(seen).filter(fresh);
                assert(self.proof_metrics@[i as int] == all.skip(seen)[0]);
                assert(seen < all.len());
                assert(all.take(seen + 1) =~= all.take(seen).push(all[seen]));
                all.take(seen).lemma_filter_push(all[seen], fresh);
                assert(all.skip(seen + 1) =~= all.skip(seen).skip(1));
            }
            if is_recent_at(self.proof_metrics[i].timestamp, window, now) {
                proof {
                    let kept = all.take(seen).filter(fresh);
                    assert(kept + all.skip(seen) =~= kept.push(all[seen]) + all.skip(seen + 1));
                    seen = seen + 1;
                }
                i += 1;
            } else {
                self.proof_metrics.remove(i);
                proof {
                    let kept = all.take(seen).filter(fresh);
                    assert((kept + all.skip(seen)).remove(i as int) =~= kept + all.skip(seen + 1));
                    seen = seen + 1;
                }
            }
        }
        proof {
            if seen < all.len() {
                assert(self.proof_metrics@.len() == i + all.skip(seen).len());
            }
            assert(all.take(seen) =~= all);
            assert(self.proof_metrics@ =~= all.filter(fresh));
        }
    }

    /// The figures of the deployment `deployment_id`, if it is known.
    pub fn get_deployment_metrics(&self, deployment_id: &str) -> (metrics: Option<
        &DeploymentMetrics,
    >)
        ensures
            match metrics {
                Some(d) => first_hit(self@.deployments, deployment_with(deployment_id@)) matches Some(
                    i,
                ) && self@.deployments[i] == *d,
                None => first_hit(self@.deployments, deployment_with(deployment_id@)) is None,
            },
    {
        match self.find_deployment(deployment_id) {
            Some(i) => Some(&self.deployments[i]),
            None => None,
        }
    }

    /// The statistics of the deployment `deployment_id` over the span
    /// `time_period` before `now`: how many proofs were measured, how many of
    /// them are verified and how many are not, the mean generation and
    /// verification times, and the proofs per second. The usage of processor,
    /// memory and disk is given as it is known.
    pub fn get_performance_stats(&self, deployment_id: &str, time_period: u64, now: u64) -> (stats:
        PerformanceStats)
        ensures
            stats.deployment_id@ == deployment_id@,
            stats.time_period == time_period,
            stats.total_proofs == self@.relevant_proofs(deployment_id@, time_period, now).len(),
            stats.successful_proofs == self@.verified_proofs(deployment_id@, time_period, now),
            stats.failed_proofs == self@.failed_proofs(deployment_id@, time_period, now),
            stats.average_generation_time == self@.average_generation(
                deployment_id@,
                time_period,
                now,
            ),
            stats.average_verification_time == self@.average_verification(
                deployment_id@,
                time_period,
                now,
            ),
            stats.throughput == self@.throughput(deployment_id@, time_period, now),
            stats.cpu_usage == figure(45),
            stats.memory_usage == figure(60),
            stats.disk_usage == figure(25),
    {
        let ghost wanted = relevant(deployment_id@, time_period, now);
        let ghost all = self.proof_metrics@;
        let mut total: usize = 0;
        let mut verified: usize = 0;
        let mut generation: u128 = 0;
        let mut verification: u128 = 0;
        let mut k: usize = 0;
        proof {
            assert(all.take(0).filter(wanted) =~= Seq::empty()) by {
                reveal(Seq::filter);
            }
            assert(Seq::<ProofMetrics>::empty().filter(is_verified()) =~= Seq::empty()) by {
                reveal(Seq::filter);
            }
        }
        while k < self.proof_metrics.len()
            invariant
                all == self.proof_metrics@,
                wanted == relevant(deployment_id@, time_period, now),
                k <= all.len(),
                total <= k,
                total == all.take(k as int).filter(wanted).len(),
                verified == all.take(k as int).filter(wanted).filter(is_verified()).len(),
                verified <= total,
                generation == generation_total(all.take(k as int).filter(wanted)),
                verification == verification_total(all.take(k as int).filter(wanted)),
                generation <= total * u64::MAX,
                verification <= total * u64::MAX,
            decreases all.len() - k,
        {
            let m = &self.proof_metrics[k];
            proof {
                let seen = all.take(k as int);
                let kept = seen.filter(wanted);
                assert(all.take(k + 1) =~= seen.push(*m));
                seen.lemma_filter_push(*m, wanted);
                kept.lemma_filter_push(*m, is_verified());
                assert(kept.push(*m).drop_last() =~= kept);
                assert((total + 1) * u64::MAX == total * u64::MAX + u64::MAX) by (nonlinear_arith);
                assert(total * u64::MAX <= usize::MAX * u64::MAX) by (nonlinear_arith)
                    requires
                        total <= usize::MAX,
                ;
            }
            if same_text(m.deployment_id.as_str(), deployment_id) && is_recent_at(
                m.timestamp,
                time_period,
                now,
            ) {
                total = total + 1;
                if m.status == ProofStatus::Verified {
                    verified = verified + 1;
                }
                generation = generation + m.generation_time as u128;
                verification = verification + m.verification_time as u128;
            }
            k += 1;
        }
        proof {
            assert(all.take(all.len() as int) =~= all);
            if total > 0 {
                assert(generation / (total as u128) <= u64::MAX && verification / (total as u128)
                    <= u64::MAX) by (nonlinear_arith)
                    requires
                        generation <= total * u64::MAX,
                        verification <= total * u64::MAX,
                        total > 0,
                ;
            }
        }
        let average_generation_time: u64 = if total > 0 {
            (generation / (total as u128)) as u64
        } else {
            0
        };
        let average_verification_time: u64 = if total > 0 {
            (verification / (total as u128)) as u64
        } else {
            0
        };
        PerformanceStats {
            deployment_id: String::from_str(deployment_id),
            time_period,
            total_proofs: total as u64,
            successful_proofs: verified as u64,
            failed_proofs: (total - verified) as u64,
            average_generation_time,
            average_verification_time,
            throughput: Ratio::of(total as u64, time_period / 1000),
            cpu_usage: Ratio::of(45, 1),
            memory_usage: Ratio::of(60, 1),
            disk_usage: Ratio::of(25, 1),
        }
    }

    /// The health of the system at time `now`: the health of each deployment in
    /// the order of the deployments, the health of the whole, the resources of
    /// the machine as far as they are known, and the alerts raised so far. A
    /// deployment is critical where more than a tenth of its proofs were not
    /// verified, and has a warning where more than a twentieth were not.
    pub fn get_system_health(&self, now: u64) -> (health: SystemHealth)
        requires
            forall|i: int|
                0 <= i < self@.deployments.len() ==> counts_are_sound(#[trigger] self@.deployments[i]),
        ensures
            health.overall_status == overall_health(self@.deployments),
            health.deployments@.len() == self@.deployments.len(),
            forall|i: int|
                0 <= i < self@.deployments.len() ==> is_health_of(
                    #[trigger] health.deployments@[i],
                    self@.deployments[i],
                    now,
                ),
            health.system_resources == known_resources(),
            health.alerts@ == self@.alerts,
            health.timestamp == now,
    {
        let mut healths: Vec<DeploymentHealth> = Vec::new();
        let mut critical = false;
        let mut warning = false;
        let mut k: usize = 0;
        while k < self.deployments.len()
            invariant
                k <= self.deployments@.len(),
                healths@.len() == k,
                forall|i: int|
                    0 <= i < self.deployments@.len() ==> counts_are_sound(
                        #[trigger] self.deployments@[i],
                    ),
                forall|i: int|
                    0 <= i < k ==> is_health_of(#[trigger] healths@[i], self.deployments@[i], now),
                critical == exists|i: int|
                    0 <= i < k && health_at(error_rate_of(#[trigger] self.deployments@[i]))
                        == HealthStatus::Critical,
                warning == exists|i: int|
                    0 <= i < k && health_at(error_rate_of(#[trigger] self.deployments@[i]))
                        == HealthStatus::Warning,
            decreases self.deployments@.len() - k,
        {
            let d = &self.deployments[k];
            assert(counts_are_sound(self.deployments@[k as int]));
            let end = match d.end_time {
                Some(e) => e,
                None => now,
            };
            let uptime: u64 = if d.start_time <= end {
                end - d.start_time
            } else {
                0
            };
            let error_rate = if d.total_proofs_generated > 0 {
                Ratio::of(d.total_proofs_generated - d.total_proofs_verified, d.total_proofs_generated)
            } else {
                Ratio::zero()
            };
            let status = if Ratio::of(1, 10).is_less_than(&error_rate) {
                HealthStatus::Critical
            } else if Ratio::of(1, 20).is_less_than(&error_rate) {
                HealthStatus::Warning
            } else {
                HealthStatus::Healthy
            };
            proof {
                let was_critical = critical;
                let was_warning = warning;
                if status == HealthStatus::Critical || was_critical {
                    let i = if status == HealthStatus::Critical {
                        k as int
                    } else {
                        choose|i: int|
                            0 <= i < k && health_at(error_rate_of(#[trigger] self.deployments@[i]))
                                == HealthStatus::Critical
                    };
                    assert(0 <= i < k + 1 && health_at(error_rate_of(self.deployments@[i]))
                        == HealthStatus::Critical);
                }
                if status == HealthStatus::Warning || was_warning {
                    let i = if status == HealthStatus::Warning {
                        k as int
                    } else {
                        choose|i: int|
                            0 <= i < k && health_at(error_rate_of(#[trigger] self.deployments@[i]))
                                == HealthStatus::Warning
                    };
                    assert(0 <= i < k + 1 && health_at(error_rate_of(self.deployments@[i]))
                        == HealthStatus::Warning);
                }
            }
            if status == HealthStatus::Critical {
                critical = true;
            }
            if status == HealthStatus::Warning {
                warning = true;
            }
            healths.push(
                DeploymentHealth {
                    deployment_id: d.deployment_id.clone(),
                    status,
                    uptime,
                    last_activity: now,
                    error_rate,
                    response_time: d.average_proof_time,
                },
            );
            k += 1;
        }
        let overall_status = if critical {
            HealthStatus::Critical
        } else if warning {
            HealthStatus::Warning
        } else if healths.len() == 0 {
            HealthStatus::Unknown
        } else {
            HealthStatus::Healthy
        };
        let mut alerts: Vec<Alert> = Vec::new();
        let mut a: usize = 0;
        while a < self.alerts.len()
            invariant
                a <= self.alerts@.len(),
                alerts@ == self.alerts@.take(a as int),
            decreases self.alerts@.len() - a,
        {
            alerts.push(self.alerts[a].duplicate());
            assert(alerts@ =~= self.alerts@.take(a + 1));
            a += 1;
        }
        assert(self.alerts@.take(self.alerts@.len() as int) =~= self.alerts@);
        SystemHealth {
            overall_status,
            deployments: healths,
            system_resources: SystemResources {
                cpu_usage: Ratio::of(45, 1),
                memory_usage: Ratio::of(60, 1),
                disk_usage: Ratio::of(25, 1),
                network_usage: Ratio::of(10, 1),
                available_memory: 8_589_934_592,
                available_disk: 107_374_182_400,
            },
            alerts,
            timestamp: now,
        }
    }

    /// Raises an alert at time `now`. Its id is `alert_` and the time in
    /// seconds; it is not resolved.
    pub fn create_alert(
        &mut self,
        severity: AlertSeverity,
        message: String,
        deployment_id: Option<String>,
        now: u64,
    )
        ensures
            final(self)@.alerts.len() == old(self)@.alerts.len() + 1,
            final(self)@.alerts.drop_last() == old(self)@.alerts,
            final(self)@.alerts.last() == (Alert {
                id: final(self)@.alerts.last().id,
                severity,
                message,
                deployment_id,
                timestamp: now,
                resolved: false,
            }),
            final(self)@.alerts.last().id@ == alert_id_at(now),
            final(self)@.deployments == old(self)@.deployments,
            final(self)@.proof_metrics == old(self)@.proof_metrics,
            final(self)@.config == old(self)@.config,
    {
        let alert = Alert {
            id: alert_id(now),
            severity,
            message,
            deployment_id,
            timestamp: now,
            resolved: false,
        };
        self.alerts.push(alert);
        assert(self.alerts@.drop_last() =~= old(self).alerts@);
    }

    /// Checks the thresholds at time `now`. For each deployment, in the order of
    /// the deployments, the statistics of the last five minutes are held
    /// against the thresholds, and an alert is raised for each that is crossed:
    /// a warning where the mean generation time is above the longest response
    /// time allowed, a critical alert where the share of failed proofs is above
    /// the highest error rate allowed, and a warning where the throughput is
    /// below the lowest allowed with more than ten proofs measured. The alerts
    /// raised so far stay as they are.
    pub fn check_thresholds(&mut self, now: u64)
        ensures
            final(self)@.alerts.len() >= old(self)@.alerts.len(),
            final(self)@.alerts.take(old(self)@.alerts.len() as int) == old(self)@.alerts,
            alert_views(final(self)@.alerts.skip(old(self)@.alerts.len() as int)) == old(
                self,
            )@.alerts_due(old(self)@.deployments.len(), now),
            final(self)@.deployments == old(self)@.deployments,
            final(self)@.proof_metrics == old(self)@.proof_metrics,
            final(self)@.config == old(self)@.config,
    {
        let ghost state = self@;
        let limits = self.config.alert_thresholds;
        let mut raised: Vec<Alert> = Vec::new();
        let mut k: usize = 0;
        proof {
            assert(alert_views(raised@) =~= state.alerts_due(0, now));
        }
        while k < self.deployments.len()
            invariant
                k <= self.deployments@.len(),
                state == self@,
                limits == state.config.alert_thresholds,
                alert_views(raised@) == state.alerts_due(k as nat, now),
            decreases self.deployments@.len() - k,
        {
            let id = self.deployments[k].deployment_id.as_str();
            let stats = self.get_performance_stats(id, THRESHOLD_WINDOW, now);
            let ghost before = alert_views(raised@);
            let ghost total = state.relevant_proofs(id@, THRESHOLD_WINDOW, now).len();
            proof {
                state.proof_metrics.lemma_filter_len(relevant(id@, THRESHOLD_WINDOW, now));
            }
            if stats.average_generation_time > limits.max_response_time {
                let mut message = String::from_str("High response time for deployment ");
                message.append(id);
                message.append(": ");
                push_decimal(&mut message, stats.average_generation_time as u128);
                message.append("ms");
                let alert = Alert {
                    id: alert_id(now),
                    severity: AlertSeverity::Warning,
                    message,
                    deployment_id: Some(String::from_str(id)),
                    timestamp: now,
                    resolved: false,
                };
                proof {
                    assert(alert@.message =~= state.slow_alert(id@, now).message);
                    assert(alert_views(raised@.push(alert)) =~= alert_views(raised@).push(alert@));
                }
                raised.push(alert);
            }
            let ghost after_slow = alert_views(raised@);
            let failure_rate = Ratio::of(stats.failed_proofs, stats.total_proofs);
            if limits.max_error_rate.is_less_than(&failure_rate) {
                let mut message = String::from_str("High error rate for deployment ");
                message.append(id);
                message.append(": ");
                push_percent(&mut message, &failure_rate);
                message.append("%");
                let alert = Alert {
                    id: alert_id(now),
                    severity: AlertSeverity::Critical,
                    message,
                    deployment_id: Some(String::from_str(id)),
                    timestamp: now,
                    resolved: false,
                };
                proof {
                    assert(alert@.message =~= state.failing_alert(id@, now).message);
                    assert(alert_views(raised@.push(alert)) =~= alert_views(raised@).push(alert@));
                }
                raised.push(alert);
            }
            let ghost after_failing = alert_views(raised@);
            if stats.throughput.is_less_than(&limits.min_throughput) && stats.total_proofs > 10 {
                let mut message = String::from_str("Low throughput for deployment ");
                message.append(id);
                message.append(": ");
                push_number(&mut message, &stats.throughput);
                message.append(" proofs/sec");
                let alert = Alert {
                    id: alert_id(now),
                    severity: AlertSeverity::Warning,
                    message,
                    deployment_id: Some(String::from_str(id)),
                    timestamp: now,
                    resolved: false,
                };
                proof {
                    assert(alert@.message =~= state.idle_alert(id@, now).message);
                    assert(alert_views(raised@.push(alert)) =~= alert_views(raised@).push(alert@));
                }
                raised.push(alert);
            }
            proof {
                assert(alert_views(raised@) =~= before + state.alerts_due_for(id@, now));
            }
            k += 1;
        }
        let ghost fresh = raised@;
        self.alerts.append(&mut raised);
        proof {
            let n = state.alerts.len() as int;
            assert(self.alerts@.take(n) =~= state.alerts);
            assert(self.alerts@.skip(n) =~= fresh);
        }
    }

    /// Resolves the first alert with the id `alert_id` and says whether there
    /// was one.
    pub fn resolve_alert(&mut self, alert_id: &str) -> (found: bool)
        ensures
            found == (first_hit(old(self)@.alerts, alert_with(alert_id@)) is Some),
            final(self)@ == (DashboardState {
                alerts: match first_hit(old(self)@.alerts, alert_with(alert_id@)) {
                    Some(i) => old(self)@.alerts.update(
                        i,
                        Alert { resolved: true, ..old(self)@.alerts[i] },
                    ),
                    None => old(self)@.alerts,
                },
                ..old(self)@
            }),
    {
        let mut i: usize = 0;
        while i < self.alerts.len()
            invariant
                i <= self.alerts@.len(),
                *self == *old(self),
                forall|j: int| 0 <= j < i ==> !alert_with(alert_id@)(#[trigger] self.alerts@[j]),
            decreases self.alerts@.len() - i,
        {
            if same_text(self.alerts[i].id.as_str(), alert_id) {
                proof {
                    first_hit_found(self.alerts@, alert_with(alert_id@), i as int);
                }
                self.alerts[i].resolved = true;
                return true;
            }
            i += 1;
        }
        proof {
            first_hit_missing(self.alerts@, alert_with(alert_id@));
        }
        false
    }

    /// The figures of all deployments, in the order in which they were first
    /// registered.
    pub fn get_all_deployments(&self) -> (all: Vec<&DeploymentMetrics>)
        ensures
            all@.unref() == self@.deployments,
    {
        let mut out: Vec<&DeploymentMetrics> = Vec::new();
        let mut k: usize = 0;
        assert(out@.unref() =~= self.deployments@.take(0));
        while k < self.deployments.len()
            invariant
                k <= self.deployments@.len(),
                out@.unref() == self.deployments@.take(k as int),
            decreases self.deployments@.len() - k,
        {
            let d = &self.deployments[k];
            proof {
                assert(out@.push(d).unref() =~= out@.unref().push(*d));
                assert(self.deployments@.take(k + 1) =~= self.deployments@.take(k as int).push(*d));
            }
            out.push(d);
            k += 1;
        }
        assert(self.deployments@.take(self.deployments@.len() as int) =~= self.deployments@);
        out
    }

    /// The `count` latest measurements, latest first; measurements of one time
    /// keep the order in which they were taken.
    pub fn get_recent_proofs(&self, count: usize) -> (proofs: Vec<ProofMetrics>)
        ensures
            proofs@ == top(ranked(self@.proof_metrics, later_first()), count as nat),
    {
        let mut out: Vec<ProofMetrics> = Vec::new();
        let mut k: usize = 0;
        while k < self.proof_metrics.len()
            invariant
                k <= self.proof_metrics@.len(),
                out@ == ranked(self.proof_metrics@.take(k as int), later_first()),
            decreases self.proof_metrics@.len() - k,
        {
            let m = &self.proof_metrics[k];
            let ghost placed = out@;
            let mut j: usize = out.len();
            proof {
                assert(placed.take(j as int) =~= placed);
            }
            while j > 0 && m.timestamp > out[j - 1].timestamp
                invariant
                    j <= out@.len(),
                    placed == out@,
                    rank_position(placed, *m, later_first()) == rank_position(
                        placed.take(j as int),
                        *m,
                        later_first(),
                    ),
                decreases j,
            {
                proof {
                    assert(placed.take(j as int).drop_last() =~= placed.take(j - 1));
                }
                j -= 1;
            }
            proof {
                let seen = self.proof_metrics@.take(k as int);
                assert(self.proof_metrics@.take(k + 1) =~= seen.push(*m));
                assert(seen.push(*m).drop_last() =~= seen);
            }
            out.insert(j, m.duplicate());
            k += 1;
        }
        proof {
            assert(self.proof_metrics@.take(self.proof_metrics@.len() as int)
                =~= self.proof_metrics@);
            if count < out@.len() {
                assert(out@.subrange(0, count as int) =~= out@.take(count as int));
            }
        }
        out.truncate(count);
        out
    }

    /// The counters of the deployments in the Prometheus text format: for each
    /// deployment its proofs generated, its proofs verified and its cycles,
    /// each on a line of its own.
    pub fn export_prometheus(&self) -> (text: String)
        ensures
            text@ == prometheus_text(self@.deployments),
    {
        let mut out = String::new();
        let mut k: usize = 0;
        assert(out@ =~= prometheus_text(self.deployments@.take(0)));
        while k < self.deployments.len()
            invariant
                k <= self.deployments@.len(),
                out@ == prometheus_text(self.deployments@.take(k as int)),
            decreases self.deployments@.len() - k,
        {
            let d = &self.deployments[k];
            let ghost start = out@;
            push_prometheus_line(&mut out, "pico_deployment_total_proofs", d, d.total_proofs_generated);
            push_prometheus_line(
                &mut out,
                "pico_deployment_verified_proofs",
                d,
                d.total_proofs_verified,
            );
            push_prometheus_line(&mut out, "pico_deployment_total_cycles", d, d.total_cycles);
            proof {
                let next = self.deployments@.take(k + 1);
                assert(next.drop_last() =~= self.deployments@.take(k as int));
                assert(next.last() == *d);
                assert(out@ =~= start + prometheus_lines(*d));
            }
            k += 1;
        }
        assert(self.deployments@.take(self.deployments@.len() as int) =~= self.deployments@);
        out
    }

    /// The deployments, in the order in which they were first registered.
    pub fn deployments(&self) -> (all: &Vec<DeploymentMetrics>)
        ensures
            all@ == self@.deployments,
    {
        &self.deployments
    }

    /// The measurements that are kept, in the order in which they were taken.
    pub fn proof_metrics(&self) -> (all: &Vec<ProofMetrics>)
        ensures
            all@ == self@.proof_metrics,
    {
        &self.proof_metrics
    }

    /// The alerts raised so far, in the order in which they were raised.
    pub fn alerts(&self) -> (all: &Vec<Alert>)
        ensures
            all@ == self@.alerts,
    {
        &self.alerts
    }

    /// How the dashboard is set up.
    pub fn config(&self) -> (config: &DashboardConfig)
        ensures
            *config == self@.config,
    {
        &self.config
    }
}

} // verus!
