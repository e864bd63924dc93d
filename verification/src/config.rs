//! What a backup keeps of a container's configuration, so that a container
//! like it can be created again.

use vstd::prelude::*;
use crate::container::{distinct_keys, label_views, Label};
use crate::mount::opt_text;
use crate::text::{distinct, texts};

verus! {

/// The view of a list of texts that may be absent.
pub open spec fn opt_texts(o: Option<Vec<String>>) -> Option<Seq<Seq<char>>> {
    match o {
        Some(v) => Some(texts(v@)),
        None => None,
    }
}

/// The view of a list of labels that may be absent.
pub open spec fn opt_labels(o: Option<Vec<Label>>) -> Option<Seq<(Seq<char>, Seq<char>)>> {
    match o {
        Some(v) => Some(label_views(v@)),
        None => None,
    }
}

/// How the health of a container is checked. Times are in nanoseconds.
#[derive(Clone, Debug, PartialEq, Eq)]
pub struct HealthConfig {
    pub test: Option<Vec<String>>,
    pub interval: Option<i64>,
    pub timeout: Option<i64>,
    pub retries: Option<i64>,
    pub start_period: Option<i64>,
}

/// What a `HealthConfig` stands for.
pub struct HealthConfigView {
    pub test: Option<Seq<Seq<char>>>,
    pub interval: Option<i64>,
    pub timeout: Option<i64>,
    pub retries: Option<i64>,
    pub start_period: Option<i64>,
}

impl View for HealthConfig {
    type V = HealthConfigView;

    open spec fn view(&self) -> HealthConfigView {
        HealthConfigView {
            test: opt_texts(self.test),
            interval: self.interval,
            timeout: self.timeout,
            retries: self.retries,
            start_period: self.start_period,
        }
    }
}

/// The view of a health check that may be absent.
pub open spec fn opt_health(o: Option<HealthConfig>) -> Option<HealthConfigView> {
    match o {
        Some(h) => Some(h@),
        None => None,
    }
}

/// The configuration of a container that does not depend on the host: what
/// is needed to create a container like it, and nothing that identifies the
/// container it was read from.
#[derive(Clone, Debug, PartialEq, Eq)]
pub struct ContainerConfig {
    pub hostname: Option<String>,
    pub domainname: Option<String>,
    pub user: Option<String>,
    pub attach_stdin: Option<bool>,
    pub attach_stdout: Option<bool>,
    pub attach_stderr: Option<bool>,
    /// The exposed ports, each as `<port>/<protocol>`.
    pub exposed_ports: Option<Vec<String>>,
    pub tty: Option<bool>,
    pub open_stdin: Option<bool>,
    pub stdin_once: Option<bool>,
    /// The environment, each variable as `NAME=value`.
    pub env: Option<Vec<String>>,
    pub cmd: Option<Vec<String>>,
    pub healthcheck: Option<HealthConfig>,
    pub args_escaped: Option<bool>,
    pub image: Option<String>,
    /// The paths inside the container that are volumes.
    pub volumes: Option<Vec<String>>,
    pub working_dir: Option<String>,
    pub entrypoint: Option<Vec<String>>,
    pub network_disabled: Option<bool>,
    pub mac_address: Option<String>,
    pub on_build: Option<Vec<String>>,
    pub labels: Option<Vec<Label>>,
    pub stop_signal: Option<String>,
    pub stop_timeout: Option<i64>,
    pub shell: Option<Vec<String>>,
}

/// What a `ContainerConfig` stands for.
pub struct ContainerConfigView {
    pub hostname: Option<Seq<char>>,
    pub domainname: Option<Seq<char>>,
    pub user: Option<Seq<char>>,
    pub attach_stdin: Option<bool>,
    pub attach_stdout: Option<bool>,
    pub attach_stderr: Option<bool>,
    pub exposed_ports: Option<Seq<Seq<char>>>,
    pub tty: Option<bool>,
    pub open_stdin: Option<bool>,
    pub stdin_once: Option<bool>,
    pub env: Option<Seq<Seq<char>>>,
    pub cmd: Option<Seq<Seq<char>>>,
    pub healthcheck: Option<HealthConfigView>,
    pub args_escaped: Option<bool>,
    pub image: Option<Seq<char>>,
    pub volumes: Option<Seq<Seq<char>>>,
    pub working_dir: Option<Seq<char>>,
    pub entrypoint: Option<Seq<Seq<char>>>,
    pub network_disabled: Option<bool>,
    pub mac_address: Option<Seq<char>>,
    pub on_build: Option<Seq<Seq<char>>>,
    pub labels: Option<Seq<(Seq<char>, Seq<char>)>>,
    pub stop_signal: Option<Seq<char>>,
    pub stop_timeout: Option<i64>,
    pub shell: Option<Seq<Seq<char>>>,
}

impl ContainerConfigView {
    /// The labels, the exposed ports and the volumes stand for maps and
    /// sets, as the daemon holds them: no key, port or path occurs twice.
    pub open spec fn wf(self) -> bool {
        &&& self.labels matches Some(labels) ==> distinct_keys(labels)
        &&& self.exposed_ports matches Some(ports) ==> distinct(ports)
        &&& self.volumes matches Some(volumes) ==> distinct(volumes)
    }
}

impl View for ContainerConfig {
    type V = ContainerConfigView;

    open spec fn view(&self) -> ContainerConfigView {
        ContainerConfigView {
            hostname: opt_text(self.hostname),
            domainname: opt_text(self.domainname),
            user: opt_text(self.user),
            attach_stdin: self.attach_stdin,
            attach_stdout: self.attach_stdout,
            attach_stderr: self.attach_stderr,
            exposed_ports: opt_texts(self.exposed_ports),
            tty: self.tty,
            open_stdin: self.open_stdin,
            stdin_once: self.stdin_once,
            env: opt_texts(self.env),
            cmd: opt_texts(self.cmd),
            healthcheck: opt_health(self.healthcheck),
            args_escaped: self.args_escaped,
            image: opt_text(self.image),
            volumes: opt_texts(self.volumes),
            working_dir: opt_text(self.working_dir),
            entrypoint: opt_texts(self.entrypoint),
            network_disabled: self.network_disabled,
            mac_address: opt_text(self.mac_address),
            on_build: opt_texts(self.on_build),
            labels: opt_labels(self.labels),
            stop_signal: opt_text(self.stop_signal),
            stop_timeout: self.stop_timeout,
            shell: opt_texts(self.shell),
        }
    }
}

impl ContainerConfig {
    /// A configuration that sets nothing.
    pub fn empty() -> (config: ContainerConfig)
        ensures
            config@.wf(),
            config@ == (ContainerConfigView {
                hostname: None,
                domainname: None,
                user: None,
                attach_stdin: None,
                attach_stdout: None,
                attach_stderr: None,
                exposed_ports: None,
                tty: None,
                open_stdin: None,
                stdin_once: None,
                env: None,
                cmd: None,
                healthcheck: None,
                args_escaped: None,
                image: None,
                volumes: None,
                working_dir: None,
                entrypoint: None,
                network_disabled: None,
                mac_address: None,
                on_build: None,
                labels: None,
                stop_signal: None,
                stop_timeout: None,
                shell: None,
            }),
    {
        ContainerConfig {
            hostname: None,
            domainname: None,
            user: None,
            attach_stdin: None,
            attach_stdout: None,
            attach_stderr: None,
            exposed_ports: None,
            tty: None,
            open_stdin: None,
            stdin_once: None,
            env: None,
            cmd: None,
            healthcheck: None,
            args_escaped: None,
            image: None,
            volumes: None,
            working_dir: None,
            entrypoint: None,
            network_disabled: None,
            mac_address: None,
            on_build: None,
            labels: None,
            stop_signal: None,
            stop_timeout: None,
            shell: None,
        }
    }
}

/// The configuration of a container that depends on the host: its mounts,
/// resource limits, restart policy and the rest, carried as the text that
/// the caller encoded them in.
#[derive(Clone, Debug, PartialEq, Eq)]
pub struct HostConfig {
    pub settings: String,
}

impl View for HostConfig {
    type V = Seq<char>;

    open spec fn view(&self) -> Seq<char> {
        self.settings@
    }
}

} // verus!
