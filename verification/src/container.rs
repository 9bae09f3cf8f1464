//! The container specification builder, the readiness strategies, and the
//! lifecycle handle.
//!
//! A `GenericContainerBuilder` is an immutable chain of configuration calls
//! ending in a runtime-agnostic specification.  A `GenericContainer` owns one
//! created container identity together with its optional `RunningState`,
//! published by `start` and cleared by `stop` and `kill`.  The readiness
//! strategies are pure predicates over observations fetched from the
//! runtime; the caller-side loop performs the fetching and sleeping and asks
//! `poll_step` for each decision.

use vstd::prelude::*;
use vstd::string::StringExecFns;
use crate::dec::tcp_port_spec;
use crate::dec::tcp_port_string;
use crate::image::DockerImage;
use crate::image::err_message;
use crate::image::spec_parse;
use crate::inspect::InspectData;
use crate::inspect::RunningState;
use crate::inspect::spec_running_ports;
use crate::kv::kv_get_u16;
use crate::kv::kv_insert;
use crate::kv::kv_map;
use crate::kv::set_insert;
use crate::kv::str_set;
use crate::kv::unique_keys;
use crate::kv::unique_strs;

verus! {

/// Whether `pattern` is a well-formed regular expression.
pub uninterp spec fn regex_valid(pattern: Seq<char>) -> bool;

/// Whether the expression `pattern` matches anywhere in `text`.
pub uninterp spec fn regex_match(pattern: Seq<char>, text: Seq<char>) -> bool;

/// The duration an expression such as `"30s"` denotes, in whole
/// milliseconds, when it parses and fits.
pub uninterp spec fn duration_millis_of(expression: Seq<char>) -> Option<u64>;

/// Relies on `regex::Regex::new`: whether a pattern compiles depends on the
/// pattern text alone.
#[verifier::external_body]
pub(crate) fn regex_compiles(pattern: &str) -> (r: bool)
    ensures
        r == regex_valid(pattern@),
{
    regex::Regex::new(pattern).is_ok()
}

/// Relies on `regex::Regex::new` and `regex::Regex::is_match`: whether a
/// well-formed pattern matches somewhere depends on pattern and text alone.
#[verifier::external_body]
fn regex_is_match(pattern: &str, text: &str) -> (r: bool)
    requires
        regex_valid(pattern@),
    ensures
        r == regex_match(pattern@, text@),
{
    match regex::Regex::new(pattern) {
        Ok(re) => re.is_match(text),
        Err(_) => false,
    }
}

/// Relies on `parse_duration::parse`: the duration an expression denotes
/// depends on the expression text alone.
#[verifier::external_body]
fn parse_duration_millis(expression: &str) -> (r: Option<u64>)
    ensures
        r == duration_millis_of(expression@),
{
    match parse_duration::parse(expression) {
        Ok(d) => u64::try_from(d.as_millis()).ok(),
        Err(_) => None,
    }
}

/// How long a started container may take to become ready, by default.
pub const DEFAULT_START_TIMEOUT_MILLIS: u64 = 30000;

/// How long the readiness loop sleeps between two polls.
pub const POLL_INTERVAL_MILLIS: u64 = 100;

/// The policy deciding when a started container is usable.
#[derive(Debug, Clone, PartialEq)]
pub enum ReadyStrategy {
    /// Ready once the combined log text matches this expression.
    LogMessageRegExp(String),
    /// Ready once any non-empty health status is reported.
    StateHealthy,
    /// Ready immediately.
    NoWait,
}

impl ReadyStrategy {
    /// A log pattern strategy only carries expressions that compile.
    pub open spec fn wf(self) -> bool {
        match self {
            ReadyStrategy::LogMessageRegExp(p) => regex_valid(p@),
            _ => true,
        }
    }
}

/// One answer fetched from the runtime for a readiness poll.
pub enum Observation {
    /// The full combined stdout and stderr text.
    Logs(String),
    /// The health status, when one is reported.
    Health(Option<String>),
}

/// Whether an observation satisfies a strategy.
pub open spec fn spec_ready(strategy: ReadyStrategy, obs: Observation) -> bool {
    match strategy {
        ReadyStrategy::LogMessageRegExp(p) => obs matches Observation::Logs(t) && regex_match(
            p@,
            t@,
        ),
        ReadyStrategy::StateHealthy => obs matches Observation::Health(h) && h matches Some(s)
            && s@.len() > 0,
        ReadyStrategy::NoWait => true,
    }
}

/// Evaluates a strategy against one observation.
pub fn is_ready(strategy: &ReadyStrategy, obs: &Observation) -> (r: bool)
    requires
        strategy.wf(),
    ensures
        r == spec_ready(*strategy, *obs),
{
    match strategy {
        ReadyStrategy::LogMessageRegExp(p) => match obs {
            Observation::Logs(t) => regex_is_match(p.as_str(), t.as_str()),
            _ => false,
        },
        ReadyStrategy::StateHealthy => match obs {
            Observation::Health(h) => match h {
                Some(s) => !s.as_str().is_empty(),
                None => false,
            },
            _ => false,
        },
        ReadyStrategy::NoWait => true,
    }
}

/// A `NoWait` strategy is satisfied by every observation.
pub proof fn lemma_no_wait_always_ready(obs: Observation)
    ensures
        spec_ready(ReadyStrategy::NoWait, obs),
{
}

/// What one turn of the readiness loop does next.
#[derive(Debug, PartialEq, Eq, Structural)]
pub enum WaitDecision {
    /// The container is usable; the wait ends in success.
    Ready,
    /// The deadline passed without readiness; the wait fails.
    TimedOut,
    /// Not ready yet: sleep for `POLL_INTERVAL_MILLIS` and poll again.
    Retry,
}

/// The deadline rule: readiness ends the wait at once; otherwise the wait
/// fails only when `now` has passed the deadline, and retries otherwise.
pub fn wait_step(ready: bool, now_millis: u64, deadline_millis: u64) -> (r: WaitDecision)
    ensures
        ready ==> r == WaitDecision::Ready,
        !ready && now_millis > deadline_millis ==> r == WaitDecision::TimedOut,
        !ready && now_millis <= deadline_millis ==> r == WaitDecision::Retry,
{
    if ready {
        WaitDecision::Ready
    } else if now_millis > deadline_millis {
        WaitDecision::TimedOut
    } else {
        WaitDecision::Retry
    }
}

/// One turn of the readiness loop: evaluates the strategy against the
/// fetched observation, then applies the deadline rule.
pub fn poll_step(
    strategy: &ReadyStrategy,
    obs: &Observation,
    now_millis: u64,
    deadline_millis: u64,
) -> (r: WaitDecision)
    requires
        strategy.wf(),
    ensures
        spec_ready(*strategy, *obs) ==> r == WaitDecision::Ready,
        !spec_ready(*strategy, *obs) && now_millis > deadline_millis ==> r
            == WaitDecision::TimedOut,
        !spec_ready(*strategy, *obs) && now_millis <= deadline_millis ==> r == WaitDecision::Retry,
{
    let ready = is_ready(strategy, obs);
    wait_step(ready, now_millis, deadline_millis)
}

/// An immutable accumulator for a container specification.
#[derive(Debug, Clone, PartialEq)]
pub struct GenericContainerBuilder {
    /// The image to run.
    pub image: DockerImage,
    /// Environment variables; keys unique, last write wins.
    pub environment_variables: Vec<(String, String)>,
    /// Exposed container ports, each optionally pinned to a host port.
    pub exposed_ports: Vec<(String, Option<u16>)>,
    /// Volume mount specifications, kept distinct.
    pub volumes: Vec<String>,
    /// Labels; keys unique, last write wins.
    pub labels: Vec<(String, String)>,
    /// The command to run instead of the image default, when set.
    pub command: Option<Vec<String>>,
    /// The readiness policy applied after `start`.
    pub wait_strategy_on_startup: ReadyStrategy,
    /// The readiness deadline, measured from the start of the wait.
    pub start_timeout_millis: u64,
}

impl GenericContainerBuilder {
    /// Keys and volume entries are unique and the strategy is well-formed.
    pub open spec fn wf(self) -> bool {
        &&& unique_keys(self.environment_variables@)
        &&& unique_keys(self.exposed_ports@)
        &&& unique_keys(self.labels@)
        &&& unique_strs(self.volumes@)
        &&& self.wait_strategy_on_startup.wf()
    }

    /// Every field but the image at its default.
    pub open spec fn is_fresh(self) -> bool {
        &&& self.environment_variables@.len() == 0
        &&& self.exposed_ports@.len() == 0
        &&& self.volumes@.len() == 0
        &&& self.labels@.len() == 0
        &&& self.command is None
        &&& self.wait_strategy_on_startup == ReadyStrategy::NoWait
        &&& self.start_timeout_millis == DEFAULT_START_TIMEOUT_MILLIS
    }

    fn new(image: DockerImage) -> (r: Self)
        ensures
            r.wf(),
            r.image == image,
            r.is_fresh(),
    {
        GenericContainerBuilder {
            image,
            environment_variables: Vec::new(),
            exposed_ports: Vec::new(),
            volumes: Vec::new(),
            labels: Vec::new(),
            command: None,
            wait_strategy_on_startup: ReadyStrategy::NoWait,
            start_timeout_millis: DEFAULT_START_TIMEOUT_MILLIS,
        }
    }

    /// Everything except the environment variables is unchanged.
    pub open spec fn same_but_env(self, o: Self) -> bool {
        &&& o.image == self.image
        &&& o.exposed_ports == self.exposed_ports
        &&& o.volumes == self.volumes
        &&& o.labels == self.labels
        &&& o.command == self.command
        &&& o.wait_strategy_on_startup == self.wait_strategy_on_startup
        &&& o.start_timeout_millis == self.start_timeout_millis
    }

    /// Everything except the exposed ports is unchanged.
    pub open spec fn same_but_ports(self, o: Self) -> bool {
        &&& o.image == self.image
        &&& o.environment_variables == self.environment_variables
        &&& o.volumes == self.volumes
        &&& o.labels == self.labels
        &&& o.command == self.command
        &&& o.wait_strategy_on_startup == self.wait_strategy_on_startup
        &&& o.start_timeout_millis == self.start_timeout_millis
    }

    /// Everything except the volumes is unchanged.
    pub open spec fn same_but_volumes(self, o: Self) -> bool {
        &&& o.image == self.image
        &&& o.environment_variables == self.environment_variables
        &&& o.exposed_ports == self.exposed_ports
        &&& o.labels == self.labels
        &&& o.command == self.command
        &&& o.wait_strategy_on_startup == self.wait_strategy_on_startup
        &&& o.start_timeout_millis == self.start_timeout_millis
    }

    /// Everything except the labels is unchanged.
    pub open spec fn same_but_labels(self, o: Self) -> bool {
        &&& o.image == self.image
        &&& o.environment_variables == self.environment_variables
        &&& o.exposed_ports == self.exposed_ports
        &&& o.volumes == self.volumes
        &&& o.command == self.command
        &&& o.wait_strategy_on_startup == self.wait_strategy_on_startup
        &&& o.start_timeout_millis == self.start_timeout_millis
    }

    /// Everything except the command is unchanged.
    pub open spec fn same_but_command(self, o: Self) -> bool {
        &&& o.image == self.image
        &&& o.environment_variables == self.environment_variables
        &&& o.exposed_ports == self.exposed_ports
        &&& o.volumes == self.volumes
        &&& o.labels == self.labels
        &&& o.wait_strategy_on_startup == self.wait_strategy_on_startup
        &&& o.start_timeout_millis == self.start_timeout_millis
    }

    /// Everything except the wait strategy is unchanged.
    pub open spec fn same_but_strategy(self, o: Self) -> bool {
        &&& o.image == self.image
        &&& o.environment_variables == self.environment_variables
        &&& o.exposed_ports == self.exposed_ports
        &&& o.volumes == self.volumes
        &&& o.labels == self.labels
        &&& o.command == self.command
        &&& o.start_timeout_millis == self.start_timeout_millis
    }

    /// Everything except the timeout is unchanged.
    pub open spec fn same_but_timeout(self, o: Self) -> bool {
        &&& o.image == self.image
        &&& o.environment_variables == self.environment_variables
        &&& o.exposed_ports == self.exposed_ports
        &&& o.volumes == self.volumes
        &&& o.labels == self.labels
        &&& o.command == self.command
        &&& o.wait_strategy_on_startup == self.wait_strategy_on_startup
    }

    /// Binds an environment variable; a later write to the same name wins.
    pub fn add_env(self, key: &str, value: &str) -> (r: Self)
        requires
            self.wf(),
        ensures
            r.wf(),
            self.same_but_env(r),
            kv_map(r.environment_variables@) == kv_map(self.environment_variables@).insert(
                key@,
                value@,
            ),
    {
        let mut out = self;
        out.environment_variables = kv_insert(
            out.environment_variables,
            key.to_owned(),
            value.to_owned(),
        );
        out
    }

    /// Declares a container port; `host_port` pins the published host port,
    /// `None` lets the runtime pick one.
    pub fn add_exposed_port(self, host_port: Option<u16>, container_port_spec: &str) -> (r: Self)
        requires
            self.wf(),
        ensures
            r.wf(),
            self.same_but_ports(r),
            kv_map(r.exposed_ports@) == kv_map(self.exposed_ports@).insert(
                container_port_spec@,
                host_port,
            ),
    {
        let mut out = self;
        out.exposed_ports = kv_insert(out.exposed_ports, container_port_spec.to_owned(), host_port);
        out
    }

    /// Declares `"<port>/tcp"` with a runtime-chosen host port.
    pub fn add_exposed_tcp_port(self, port: u16) -> (r: Self)
        requires
            self.wf(),
        ensures
            r.wf(),
            self.same_but_ports(r),
            kv_map(r.exposed_ports@) == kv_map(self.exposed_ports@).insert(
                tcp_port_spec(port as int),
                None::<u16>,
            ),
    {
        let spec_str = tcp_port_string(port);
        self.add_exposed_port(None, spec_str.as_str())
    }

    /// Declares `"<container_port>/tcp"` pinned to a fixed host port.
    pub fn add_fixed_exposed_tcp_port(self, host_port: u16, container_port: u16) -> (r: Self)
        requires
            self.wf(),
        ensures
            r.wf(),
            self.same_but_ports(r),
            kv_map(r.exposed_ports@) == kv_map(self.exposed_ports@).insert(
                tcp_port_spec(container_port as int),
                Some(host_port),
            ),
    {
        let spec_str = tcp_port_string(container_port);
        self.add_exposed_port(Some(host_port), spec_str.as_str())
    }

    /// Declares a volume mount; declaring it again changes nothing.
    pub fn add_volume(self, volume: &str) -> (r: Self)
        requires
            self.wf(),
        ensures
            r.wf(),
            self.same_but_volumes(r),
            str_set(r.volumes@) == str_set(self.volumes@).insert(volume@),
    {
        let mut out = self;
        out.volumes = set_insert(out.volumes, volume.to_owned());
        out
    }

    /// Binds a label; a later write to the same name wins.
    pub fn add_label(self, name: &str, value: &str) -> (r: Self)
        requires
            self.wf(),
        ensures
            r.wf(),
            self.same_but_labels(r),
            kv_map(r.labels@) == kv_map(self.labels@).insert(name@, value@),
    {
        let mut out = self;
        out.labels = kv_insert(out.labels, name.to_owned(), value.to_owned());
        out
    }

    /// Replaces the image's default command.
    pub fn with_command(self, command_parts: &[&str]) -> (r: Self)
        requires
            self.wf(),
        ensures
            r.wf(),
            self.same_but_command(r),
            r.command matches Some(v) && v@.len() == command_parts@.len() && (forall|i: int|
                0 <= i < v@.len() ==> (#[trigger] v@[i])@ == command_parts@[i]@),
    {
        let n = command_parts.len();
        let mut parts: Vec<String> = Vec::new();
        let mut i: usize = 0;
        while i < n
            invariant
                n == command_parts@.len(),
                i <= n,
                parts@.len() == i,
                forall|j: int| 0 <= j < i ==> (#[trigger] parts@[j])@ == command_parts@[j]@,
            decreases n - i,
        {
            parts.push(command_parts[i].to_owned());
            i += 1;
        }
        let mut out = self;
        out.command = Some(parts);
        out
    }

    /// Attaches a log pattern readiness strategy; the pattern must compile.
    pub fn wait_for_log_on_startup(self, log_regex: &str) -> (r: Self)
        requires
            self.wf(),
            regex_valid(log_regex@),
        ensures
            r.wf(),
            self.same_but_strategy(r),
            r.wait_strategy_on_startup matches ReadyStrategy::LogMessageRegExp(p) && p@
                == log_regex@,
    {
        let mut out = self;
        out.wait_strategy_on_startup = ReadyStrategy::LogMessageRegExp(log_regex.to_owned());
        out
    }

    /// Attaches a log pattern strategy after checking that it compiles; an
    /// expression that does not is rejected with its message.
    pub fn try_wait_for_log_on_startup(self, log_regex: &str) -> (r: Result<Self, String>)
        requires
            self.wf(),
        ensures
            regex_valid(log_regex@) ==> (r matches Ok(b) && b.wf() && self.same_but_strategy(b)
                && (b.wait_strategy_on_startup matches ReadyStrategy::LogMessageRegExp(p) && p@
                == log_regex@)),
            !regex_valid(log_regex@) ==> (r matches Err(m) && m@
                == "a valid regular expression but it was "@ + log_regex@),
    {
        if regex_compiles(log_regex) {
            Ok(self.wait_for_log_on_startup(log_regex))
        } else {
            Err(err_message("a valid regular expression but it was ", log_regex))
        }
    }

    /// Sets the readiness deadline from a duration expression such as
    /// `"30s"`; the expression must denote a duration.
    pub fn with_start_timeout(self, duration_expression: &str) -> (r: Self)
        requires
            self.wf(),
            duration_millis_of(duration_expression@) is Some,
        ensures
            r.wf(),
            self.same_but_timeout(r),
            r.start_timeout_millis == duration_millis_of(duration_expression@).unwrap(),
    {
        match parse_duration_millis(duration_expression) {
            Some(ms) => {
                let mut out = self;
                out.start_timeout_millis = ms;
                out
            },
            None => unreached(),
        }
    }

    /// Sets the readiness deadline after checking the expression; one that
    /// denotes no duration is rejected with its message.
    pub fn try_with_start_timeout(self, duration_expression: &str) -> (r: Result<Self, String>)
        requires
            self.wf(),
        ensures
            duration_millis_of(duration_expression@) is Some ==> (r matches Ok(b) && b.wf()
                && self.same_but_timeout(b) && b.start_timeout_millis == duration_millis_of(
                duration_expression@,
            ).unwrap()),
            duration_millis_of(duration_expression@) is None ==> (r matches Err(m) && m@
                == "a parseable duration but it was "@ + duration_expression@),
    {
        match parse_duration_millis(duration_expression) {
            Some(_) => Ok(self.with_start_timeout(duration_expression)),
            None => Err(err_message("a parseable duration but it was ", duration_expression)),
        }
    }

    /// The environment as `"name=value"` strings, in declaration order.
    pub fn env_strings(&self) -> (r: Vec<String>)
        ensures
            r@.len() == self.environment_variables@.len(),
            forall|i: int|
                0 <= i < r@.len() ==> (#[trigger] r@[i])@ == self.environment_variables@[i].0@
                    + "="@ + self.environment_variables@[i].1@,
    {
        let n = self.environment_variables.len();
        let mut out: Vec<String> = Vec::new();
        let mut i: usize = 0;
        while i < n
            invariant
                n == self.environment_variables@.len(),
                i <= n,
                out@.len() == i,
                forall|j: int|
                    0 <= j < i ==> (#[trigger] out@[j])@ == self.environment_variables@[j].0@
                        + "="@ + self.environment_variables@[j].1@,
            decreases n - i,
        {
            let mut s = self.environment_variables[i].0.clone();
            s.append("=");
            s.append(self.environment_variables[i].1.as_str());
            out.push(s);
            i += 1;
        }
        out
    }

    /// The decision `create` makes before submitting the specification:
    /// build instructions take precedence; else a locally present image is
    /// used; else the image is pulled.
    pub fn provisioning(&self, image_exists_locally: bool) -> (r: ProvisionAction)
        ensures
            self.image.build_instructions is Some ==> r == ProvisionAction::Build,
            self.image.build_instructions is None && image_exists_locally ==> r
                == ProvisionAction::UseLocal,
            self.image.build_instructions is None && !image_exists_locally ==> r
                == ProvisionAction::Pull,
    {
        match &self.image.build_instructions {
            Some(_) => ProvisionAction::Build,
            None => if image_exists_locally {
                ProvisionAction::UseLocal
            } else {
                ProvisionAction::Pull
            },
        }
    }

    /// Wraps the identity the runtime returned for the created container.
    pub fn into_created(self, container_id: String) -> (r: GenericContainer)
        requires
            self.wf(),
        ensures
            r.wf(),
            r.params == self,
            r.container_id == container_id,
            r.running_state is None,
    {
        GenericContainer { params: self, container_id, running_state: None }
    }
}

/// What `create` does about the image before creating the container.
#[derive(Debug, PartialEq, Eq, Structural)]
pub enum ProvisionAction {
    /// Build the image from its build instructions.
    Build,
    /// The image is already present; use it.
    UseLocal,
    /// Pull the image from its registry.
    Pull,
}

/// One created container: its specification, its runtime identity, and its
/// running state while it is started and ready.
pub struct GenericContainer {
    /// The specification the container was created from.
    pub params: GenericContainerBuilder,
    /// The identity the runtime returned on creation.
    pub container_id: String,
    /// Present exactly while the container is started and ready.
    pub running_state: Option<RunningState>,
}

impl GenericContainer {
    /// The specification and any published state are well-formed.
    pub open spec fn wf(self) -> bool {
        &&& self.params.wf()
        &&& (self.running_state matches Some(rs) ==> rs.wf())
    }

    /// The handle's answer for a container port specification.
    pub open spec fn spec_host_port(self, port_spec: Seq<char>) -> Option<u16> {
        match self.running_state {
            Some(rs) => if kv_map(rs.ports@).contains_key(port_spec) {
                Some(kv_map(rs.ports@)[port_spec])
            } else {
                None
            },
            None => None,
        }
    }

    /// Opens a builder for a parseable image reference.
    pub fn from_image(full_image_name: &str) -> (r: GenericContainerBuilder)
        requires
            spec_parse(full_image_name@) is Ok,
        ensures
            r.wf(),
            r.is_fresh(),
            r.image.matches_parsed(full_image_name@, spec_parse(full_image_name@)->Ok_0),
    {
        match DockerImage::from_str(full_image_name) {
            Ok(img) => GenericContainerBuilder::new(img),
            Err(_) => unreached(),
        }
    }

    /// Publishes the running state derived from the inspection taken after
    /// the container started and its readiness condition held.
    pub fn start(&mut self, inspect: &InspectData)
        requires
            old(self).wf(),
            inspect.id is Some,
            inspect.name is Some,
        ensures
            final(self).wf(),
            final(self).params == old(self).params,
            final(self).container_id == old(self).container_id,
            final(self).running_state matches Some(rs) && rs.id@ == inspect.id.unwrap()@ && rs.name@
                == inspect.name.unwrap()@ && kv_map(rs.ports@) == spec_running_ports(*inspect),
    {
        let rs = RunningState::from_inspect(inspect);
        self.running_state = Some(rs);
    }

    /// Clears the running state; the runtime-side stop signal is the
    /// caller's concern and the state clears even if that signal fails.
    pub fn stop(&mut self)
        requires
            old(self).wf(),
        ensures
            final(self).wf(),
            final(self).params == old(self).params,
            final(self).container_id == old(self).container_id,
            final(self).running_state is None,
    {
        self.running_state = None;
    }

    /// Clears the running state after a forceful kill; locally the effect is
    /// the same as `stop`.
    pub fn kill(&mut self)
        requires
            old(self).wf(),
        ensures
            final(self).wf(),
            final(self).params == old(self).params,
            final(self).container_id == old(self).container_id,
            final(self).running_state is None,
    {
        self.running_state = None;
    }

    /// The published host port for a container port specification; `None`
    /// while no state is published or when the port is unknown.
    pub fn get_host_port(&self, container_port_spec: &str) -> (r: Option<u16>)
        requires
            self.wf(),
        ensures
            r == self.spec_host_port(container_port_spec@),
    {
        match &self.running_state {
            Some(rs) => kv_get_u16(&rs.ports, container_port_spec),
            None => None,
        }
    }
}

/// Binding one name twice keeps only the later value, whatever was bound
/// before: the environment behaves as a map.
pub proof fn lemma_env_last_write_wins(
    m: Map<Seq<char>, Seq<char>>,
    k: Seq<char>,
    v1: Seq<char>,
    v2: Seq<char>,
)
    ensures
        m.insert(k, v1).insert(k, v2) == m.insert(k, v2),
{
    assert(m.insert(k, v1).insert(k, v2) =~= m.insert(k, v2));
}

/// A handle whose state is published answers every port it resolved.
pub proof fn lemma_started_port_visible(c: GenericContainer, port_spec: Seq<char>)
    requires
        c.running_state matches Some(rs) && kv_map(rs.ports@).contains_key(port_spec),
    ensures
        c.spec_host_port(port_spec) == Some(
            kv_map(c.running_state.unwrap().ports@)[port_spec],
        ),
{
}

/// A handle whose state is cleared answers no port at all.
pub proof fn lemma_stopped_no_ports(c: GenericContainer, port_spec: Seq<char>)
    requires
        c.running_state is None,
    ensures
        c.spec_host_port(port_spec) is None,
{
}

} // verus!
