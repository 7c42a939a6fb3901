//! The parts of a pod: containers, probes, mounts, ports and volumes.

use crate::named::Named;
use crate::string_map::StringMap;
use crate::text::{copy_all, copy_opt_text, copy_texts, same_all, same_opt_text, same_texts};
use vstd::prelude::*;
use vstd::std_specs::cmp::PartialEqSpecImpl;

verus! {

/// A port given either by number or by name.
#[derive(Debug)]
pub enum IntOrString {
    /// A port number.
    Int(i32),
    /// The name of a port.
    String(String),
}

/// The mathematical view of [`IntOrString`].
pub enum IntOrStringView {
    Int(i32),
    String(Seq<char>),
}

impl DeepView for IntOrString {
    type V = IntOrStringView;

    open spec fn deep_view(&self) -> IntOrStringView {
        match self {
            IntOrString::Int(n) => IntOrStringView::Int(*n),
            IntOrString::String(s) => IntOrStringView::String(s@),
        }
    }
}

impl View for IntOrString {
    type V = IntOrStringView;

    open spec fn view(&self) -> IntOrStringView {
        self.deep_view()
    }
}

impl Clone for IntOrString {
    fn clone(&self) -> (r: IntOrString)
        ensures
            r@ == self@,
    {
        match self {
            IntOrString::Int(n) => IntOrString::Int(*n),
            IntOrString::String(s) => IntOrString::String(s.clone()),
        }
    }
}

impl PartialEq for IntOrString {
    fn eq(&self, other: &IntOrString) -> (r: bool) {
        match (self, other) {
            (IntOrString::Int(a), IntOrString::Int(b)) => *a == *b,
            (IntOrString::String(a), IntOrString::String(b)) => *a == *b,
            _ => false,
        }
    }
}

impl PartialEqSpecImpl for IntOrString {
    open spec fn obeys_eq_spec() -> bool {
        true
    }

    open spec fn eq_spec(&self, other: &IntOrString) -> bool {
        self@ == other@
    }
}

/// The compute resources that a container or a claim asks for.
#[derive(Debug)]
pub struct ResourceRequirements {
    /// The least amount of each resource that is needed.
    pub requests: StringMap,
    /// The most of each resource that may be used.
    pub limits: StringMap,
}

/// The mathematical view of [`ResourceRequirements`].
pub struct ResourceRequirementsView {
    pub requests: Map<Seq<char>, Seq<char>>,
    pub limits: Map<Seq<char>, Seq<char>>,
}

impl ResourceRequirementsView {
    /// The view of the value that `ResourceRequirements::default()` builds.
    pub open spec fn default() -> ResourceRequirementsView {
        ResourceRequirementsView {
            requests: Map::empty(),
            limits: Map::empty(),
        }
    }
}

impl DeepView for ResourceRequirements {
    type V = ResourceRequirementsView;

    open spec fn deep_view(&self) -> ResourceRequirementsView {
        ResourceRequirementsView {
            requests: self.requests@,
            limits: self.limits@,
        }
    }
}

impl View for ResourceRequirements {
    type V = ResourceRequirementsView;

    open spec fn view(&self) -> ResourceRequirementsView {
        self.deep_view()
    }
}

impl Default for ResourceRequirements {
    fn default() -> (r: ResourceRequirements)
        ensures
            r@ == ResourceRequirementsView::default(),
    {
        let r = ResourceRequirements {
            requests: StringMap::new(),
            limits: StringMap::new(),
        };
        r
    }
}

impl Clone for ResourceRequirements {
    fn clone(&self) -> (r: ResourceRequirements)
        ensures
            r@ == self@,
    {
        ResourceRequirements {
            requests: self.requests.clone(),
            limits: self.limits.clone(),
        }
    }
}

impl PartialEq for ResourceRequirements {
    fn eq(&self, other: &ResourceRequirements) -> (r: bool) {
        self.requests == other.requests
            && self.limits == other.limits
    }
}

impl PartialEqSpecImpl for ResourceRequirements {
    open spec fn obeys_eq_spec() -> bool {
        true
    }

    open spec fn eq_spec(&self, other: &ResourceRequirements) -> bool {
        self@ == other@
    }
}

/// A periodic health check made by opening a TCP connection.
#[derive(Debug)]
pub struct Probe {
    /// Seconds to wait after the container starts before the first check.
    pub initial_delay_seconds: Option<i32>,
    /// Seconds between two checks.
    pub period_seconds: Option<i32>,
    /// Seconds after which a check counts as failed.
    pub timeout_seconds: Option<i32>,
    /// Failed checks in a row after which the probe gives up.
    pub failure_threshold: Option<i32>,
    /// The port to connect to.
    pub tcp_socket: Option<IntOrString>,
}

/// The mathematical view of [`Probe`].
pub struct ProbeView {
    pub initial_delay_seconds: Option<i32>,
    pub period_seconds: Option<i32>,
    pub timeout_seconds: Option<i32>,
    pub failure_threshold: Option<i32>,
    pub tcp_socket: Option<IntOrStringView>,
}

impl ProbeView {
    /// The view of the value that `Probe::default()` builds.
    pub open spec fn default() -> ProbeView {
        ProbeView {
            initial_delay_seconds: None,
            period_seconds: None,
            timeout_seconds: None,
            failure_threshold: None,
            tcp_socket: None,
        }
    }
}

impl DeepView for Probe {
    type V = ProbeView;

    open spec fn deep_view(&self) -> ProbeView {
        ProbeView {
            initial_delay_seconds: self.initial_delay_seconds,
            period_seconds: self.period_seconds,
            timeout_seconds: self.timeout_seconds,
            failure_threshold: self.failure_threshold,
            tcp_socket: self.tcp_socket.deep_view(),
        }
    }
}

impl View for Probe {
    type V = ProbeView;

    open spec fn view(&self) -> ProbeView {
        self.deep_view()
    }
}

impl Default for Probe {
    fn default() -> (r: Probe)
        ensures
            r@ == ProbeView::default(),
    {
        let r = Probe {
            initial_delay_seconds: None,
            period_seconds: None,
            timeout_seconds: None,
            failure_threshold: None,
            tcp_socket: None,
        };
        r
    }
}

impl Clone for Probe {
    fn clone(&self) -> (r: Probe)
        ensures
            r@ == self@,
    {
        Probe {
            initial_delay_seconds: self.initial_delay_seconds,
            period_seconds: self.period_seconds,
            timeout_seconds: self.timeout_seconds,
            failure_threshold: self.failure_threshold,
            tcp_socket: self.tcp_socket.clone(),
        }
    }
}

impl PartialEq for Probe {
    fn eq(&self, other: &Probe) -> (r: bool) {
        self.initial_delay_seconds == other.initial_delay_seconds
            && self.period_seconds == other.period_seconds
            && self.timeout_seconds == other.timeout_seconds
            && self.failure_threshold == other.failure_threshold
            && self.tcp_socket == other.tcp_socket
    }
}

impl PartialEqSpecImpl for Probe {
    open spec fn obeys_eq_spec() -> bool {
        true
    }

    open spec fn eq_spec(&self, other: &Probe) -> bool {
        self@ == other@
    }
}

/// The place where a container sees one of the pod's volumes.
#[derive(Debug)]
pub struct VolumeMount {
    /// Name of the volume.
    pub name: String,
    /// Path inside the container.
    pub mount_path: String,
    /// Whether the container may only read the volume.
    pub read_only: Option<bool>,
}

/// The mathematical view of [`VolumeMount`].
pub struct VolumeMountView {
    pub name: Seq<char>,
    pub mount_path: Seq<char>,
    pub read_only: Option<bool>,
}

impl VolumeMountView {
    /// The view of the value that `VolumeMount::default()` builds.
    pub open spec fn default() -> VolumeMountView {
        VolumeMountView {
            name: Seq::empty(),
            mount_path: Seq::empty(),
            read_only: None,
        }
    }
}

impl DeepView for VolumeMount {
    type V = VolumeMountView;

    open spec fn deep_view(&self) -> VolumeMountView {
        VolumeMountView {
            name: self.name@,
            mount_path: self.mount_path@,
            read_only: self.read_only,
        }
    }
}

impl View for VolumeMount {
    type V = VolumeMountView;

    open spec fn view(&self) -> VolumeMountView {
        self.deep_view()
    }
}

impl Default for VolumeMount {
    fn default() -> (r: VolumeMount)
        ensures
            r@ == VolumeMountView::default(),
    {
        let r = VolumeMount {
            name: String::new(),
            mount_path: String::new(),
            read_only: None,
        };
        r
    }
}

impl Clone for VolumeMount {
    fn clone(&self) -> (r: VolumeMount)
        ensures
            r@ == self@,
    {
        VolumeMount {
            name: self.name.clone(),
            mount_path: self.mount_path.clone(),
            read_only: self.read_only,
        }
    }
}

impl PartialEq for VolumeMount {
    fn eq(&self, other: &VolumeMount) -> (r: bool) {
        self.name == other.name
            && self.mount_path == other.mount_path
            && self.read_only == other.read_only
    }
}

impl PartialEqSpecImpl for VolumeMount {
    open spec fn obeys_eq_spec() -> bool {
        true
    }

    open spec fn eq_spec(&self, other: &VolumeMount) -> bool {
        self@ == other@
    }
}

/// A network port that a container listens on.
#[derive(Debug)]
pub struct ContainerPort {
    /// Name by which services refer to the port.
    pub name: Option<String>,
    /// The port number.
    pub container_port: i32,
    /// The transport protocol.
    pub protocol: Option<String>,
}

/// The mathematical view of [`ContainerPort`].
pub struct ContainerPortView {
    pub name: Option<Seq<char>>,
    pub container_port: i32,
    pub protocol: Option<Seq<char>>,
}

impl ContainerPortView {
    /// The view of the value that `ContainerPort::default()` builds.
    pub open spec fn default() -> ContainerPortView {
        ContainerPortView {
            name: None,
            container_port: 0,
            protocol: None,
        }
    }
}

impl DeepView for ContainerPort {
    type V = ContainerPortView;

    open spec fn deep_view(&self) -> ContainerPortView {
        ContainerPortView {
            name: self.name.deep_view(),
            container_port: self.container_port,
            protocol: self.protocol.deep_view(),
        }
    }
}

impl View for ContainerPort {
    type V = ContainerPortView;

    open spec fn view(&self) -> ContainerPortView {
        self.deep_view()
    }
}

impl Default for ContainerPort {
    fn default() -> (r: ContainerPort)
        ensures
            r@ == ContainerPortView::default(),
    {
        let r = ContainerPort {
            name: None,
            container_port: 0,
            protocol: None,
        };
        r
    }
}

impl Clone for ContainerPort {
    fn clone(&self) -> (r: ContainerPort)
        ensures
            r@ == self@,
    {
        ContainerPort {
            name: copy_opt_text(&self.name),
            container_port: self.container_port,
            protocol: copy_opt_text(&self.protocol),
        }
    }
}

impl PartialEq for ContainerPort {
    fn eq(&self, other: &ContainerPort) -> (r: bool) {
        same_opt_text(&self.name, &other.name)
            && self.container_port == other.container_port
            && same_opt_text(&self.protocol, &other.protocol)
    }
}

impl PartialEqSpecImpl for ContainerPort {
    open spec fn obeys_eq_spec() -> bool {
        true
    }

    open spec fn eq_spec(&self, other: &ContainerPort) -> bool {
        self@ == other@
    }
}

/// One container of a pod.
#[derive(Debug)]
pub struct Container {
    /// Name of the container, unique in its pod.
    pub name: String,
    /// The image to run.
    pub image: Option<String>,
    /// The command line; empty to run the image's own entry point.
    pub command: Vec<String>,
    /// The directory the command starts in.
    pub working_dir: Option<String>,
    /// The compute resources asked for.
    pub resources: ResourceRequirements,
    /// The ports the container listens on.
    pub ports: Vec<ContainerPort>,
    /// The volumes the container sees.
    pub volume_mounts: Vec<VolumeMount>,
    /// Tells when the container may receive traffic.
    pub readiness_probe: Option<Probe>,
    /// Tells when the container must be restarted.
    pub liveness_probe: Option<Probe>,
}

/// The mathematical view of [`Container`].
pub struct ContainerView {
    pub name: Seq<char>,
    pub image: Option<Seq<char>>,
    pub command: Seq<Seq<char>>,
    pub working_dir: Option<Seq<char>>,
    pub resources: ResourceRequirementsView,
    pub ports: Seq<ContainerPortView>,
    pub volume_mounts: Seq<VolumeMountView>,
    pub readiness_probe: Option<ProbeView>,
    pub liveness_probe: Option<ProbeView>,
}

impl ContainerView {
    /// The view of the value that `Container::default()` builds.
    pub open spec fn default() -> ContainerView {
        ContainerView {
            name: Seq::empty(),
            image: None,
            command: Seq::empty(),
            working_dir: None,
            resources: ResourceRequirementsView::default(),
            ports: Seq::empty(),
            volume_mounts: Seq::empty(),
            readiness_probe: None,
            liveness_probe: None,
        }
    }
}

impl DeepView for Container {
    type V = ContainerView;

    open spec fn deep_view(&self) -> ContainerView {
        ContainerView {
            name: self.name@,
            image: self.image.deep_view(),
            command: self.command.deep_view(),
            working_dir: self.working_dir.deep_view(),
            resources: self.resources@,
            ports: self.ports.deep_view(),
            volume_mounts: self.volume_mounts.deep_view(),
            readiness_probe: self.readiness_probe.deep_view(),
            liveness_probe: self.liveness_probe.deep_view(),
        }
    }
}

impl View for Container {
    type V = ContainerView;

    open spec fn view(&self) -> ContainerView {
        self.deep_view()
    }
}

impl Default for Container {
    fn default() -> (r: Container)
        ensures
            r@ == ContainerView::default(),
    {
        let r = Container {
            name: String::new(),
            image: None,
            command: Vec::new(),
            working_dir: None,
            resources: ResourceRequirements::default(),
            ports: Vec::new(),
            volume_mounts: Vec::new(),
            readiness_probe: None,
            liveness_probe: None,
        };
        proof {
            assert(r.command.deep_view() =~= Seq::empty());
            assert(r.ports.deep_view() =~= Seq::empty());
            assert(r.volume_mounts.deep_view() =~= Seq::empty());
        }
        r
    }
}

impl Clone for Container {
    fn clone(&self) -> (r: Container)
        ensures
            r@ == self@,
    {
        Container {
            name: self.name.clone(),
            image: copy_opt_text(&self.image),
            command: copy_texts(&self.command),
            working_dir: copy_opt_text(&self.working_dir),
            resources: self.resources.clone(),
            ports: copy_all(&self.ports),
            volume_mounts: copy_all(&self.volume_mounts),
            readiness_probe: self.readiness_probe.clone(),
            liveness_probe: self.liveness_probe.clone(),
        }
    }
}

impl PartialEq for Container {
    fn eq(&self, other: &Container) -> (r: bool) {
        self.name == other.name
            && same_opt_text(&self.image, &other.image)
            && same_texts(&self.command, &other.command)
            && same_opt_text(&self.working_dir, &other.working_dir)
            && self.resources == other.resources
            && same_all(&self.ports, &other.ports)
            && same_all(&self.volume_mounts, &other.volume_mounts)
            && self.readiness_probe == other.readiness_probe
            && self.liveness_probe == other.liveness_probe
    }
}

impl PartialEqSpecImpl for Container {
    open spec fn obeys_eq_spec() -> bool {
        true
    }

    open spec fn eq_spec(&self, other: &Container) -> bool {
        self@ == other@
    }
}

/// A volume that the containers of a pod can mount.
#[derive(Debug)]
pub struct Volume {
    /// Name of the volume, unique in its pod.
    pub name: String,
    /// Name of the persistent volume claim that backs the volume, if one does.
    pub claim_name: Option<String>,
    /// Whether the claim is mounted for reading only.
    pub claim_read_only: Option<bool>,
    /// Whether the volume is scratch space that lives as long as the pod.
    pub empty_dir: bool,
    /// Name of the secret that fills the volume, if one does.
    pub secret_name: Option<String>,
}

/// The mathematical view of [`Volume`].
pub struct VolumeView {
    pub name: Seq<char>,
    pub claim_name: Option<Seq<char>>,
    pub claim_read_only: Option<bool>,
    pub empty_dir: bool,
    pub secret_name: Option<Seq<char>>,
}

impl VolumeView {
    /// The view of the value that `Volume::default()` builds.
    pub open spec fn default() -> VolumeView {
        VolumeView {
            name: Seq::empty(),
            claim_name: None,
            claim_read_only: None,
            empty_dir: false,
            secret_name: None,
        }
    }
}

impl DeepView for Volume {
    type V = VolumeView;

    open spec fn deep_view(&self) -> VolumeView {
        VolumeView {
            name: self.name@,
            claim_name: self.claim_name.deep_view(),
            claim_read_only: self.claim_read_only,
            empty_dir: self.empty_dir,
            secret_name: self.secret_name.deep_view(),
        }
    }
}

impl View for Volume {
    type V = VolumeView;

    open spec fn view(&self) -> VolumeView {
        self.deep_view()
    }
}

impl Default for Volume {
    fn default() -> (r: Volume)
        ensures
            r@ == VolumeView::default(),
    {
        let r = Volume {
            name: String::new(),
            claim_name: None,
            claim_read_only: None,
            empty_dir: false,
            secret_name: None,
        };
        r
    }
}

impl Clone for Volume {
    fn clone(&self) -> (r: Volume)
        ensures
            r@ == self@,
    {
        Volume {
            name: self.name.clone(),
            claim_name: copy_opt_text(&self.claim_name),
            claim_read_only: self.claim_read_only,
            empty_dir: self.empty_dir,
            secret_name: copy_opt_text(&self.secret_name),
        }
    }
}

impl PartialEq for Volume {
    fn eq(&self, other: &Volume) -> (r: bool) {
        self.name == other.name
            && same_opt_text(&self.claim_name, &other.claim_name)
            && self.claim_read_only == other.claim_read_only
            && self.empty_dir == other.empty_dir
            && same_opt_text(&self.secret_name, &other.secret_name)
    }
}

impl PartialEqSpecImpl for Volume {
    open spec fn obeys_eq_spec() -> bool {
        true
    }

    open spec fn eq_spec(&self, other: &Volume) -> bool {
        self@ == other@
    }
}

/// What a pod runs.
#[derive(Debug)]
pub struct PodSpec {
    /// Name of the service account the pod runs as.
    pub service_account: Option<String>,
    /// Containers that run to completion, in order, before the others start.
    pub init_containers: Vec<Container>,
    /// The containers that make up the running pod.
    pub containers: Vec<Container>,
    /// The volumes the containers can mount.
    pub volumes: Vec<Volume>,
}

/// The mathematical view of [`PodSpec`].
pub struct PodSpecView {
    pub service_account: Option<Seq<char>>,
    pub init_containers: Seq<ContainerView>,
    pub containers: Seq<ContainerView>,
    pub volumes: Seq<VolumeView>,
}

impl PodSpecView {
    /// The view of the value that `PodSpec::default()` builds.
    pub open spec fn default() -> PodSpecView {
        PodSpecView {
            service_account: None,
            init_containers: Seq::empty(),
            containers: Seq::empty(),
            volumes: Seq::empty(),
        }
    }
}

impl DeepView for PodSpec {
    type V = PodSpecView;

    open spec fn deep_view(&self) -> PodSpecView {
        PodSpecView {
            service_account: self.service_account.deep_view(),
            init_containers: self.init_containers.deep_view(),
            containers: self.containers.deep_view(),
            volumes: self.volumes.deep_view(),
        }
    }
}

impl View for PodSpec {
    type V = PodSpecView;

    open spec fn view(&self) -> PodSpecView {
        self.deep_view()
    }
}

impl Default for PodSpec {
    fn default() -> (r: PodSpec)
        ensures
            r@ == PodSpecView::default(),
    {
        let r = PodSpec {
            service_account: None,
            init_containers: Vec::new(),
            containers: Vec::new(),
            volumes: Vec::new(),
        };
        proof {
            assert(r.init_containers.deep_view() =~= Seq::empty());
            assert(r.containers.deep_view() =~= Seq::empty());
            assert(r.volumes.deep_view() =~= Seq::empty());
        }
        r
    }
}

impl Clone for PodSpec {
    fn clone(&self) -> (r: PodSpec)
        ensures
            r@ == self@,
    {
        PodSpec {
            service_account: copy_opt_text(&self.service_account),
            init_containers: copy_all(&self.init_containers),
            containers: copy_all(&self.containers),
            volumes: copy_all(&self.volumes),
        }
    }
}

impl PartialEq for PodSpec {
    fn eq(&self, other: &PodSpec) -> (r: bool) {
        same_opt_text(&self.service_account, &other.service_account)
            && same_all(&self.init_containers, &other.init_containers)
            && same_all(&self.containers, &other.containers)
            && same_all(&self.volumes, &other.volumes)
    }
}

impl PartialEqSpecImpl for PodSpec {
    open spec fn obeys_eq_spec() -> bool {
        true
    }

    open spec fn eq_spec(&self, other: &PodSpec) -> bool {
        self@ == other@
    }
}

impl Named for VolumeMount {
    open spec fn named(v: VolumeMountView, name: Seq<char>) -> bool {
        v.name == name
    }

    open spec fn fresh(name: Seq<char>) -> VolumeMountView {
        VolumeMountView { name: name, ..VolumeMountView::default() }
    }

    proof fn lemma_fresh_named(name: Seq<char>) {
    }

    proof fn lemma_one_name(v: VolumeMountView, a: Seq<char>, b: Seq<char>) {
    }

    fn has_name(&self, name: &String) -> (r: bool) {
        self.name == *name
    }

    fn with_name(name: String) -> (r: VolumeMount) {
        let mut item = VolumeMount::default();
        item.name = name;
        item
    }

    fn copy(&self) -> (r: VolumeMount) {
        self.clone()
    }
}

impl Named for ContainerPort {
    open spec fn named(v: ContainerPortView, name: Seq<char>) -> bool {
        v.name == Some(name)
    }

    open spec fn fresh(name: Seq<char>) -> ContainerPortView {
        ContainerPortView { name: Some(name), ..ContainerPortView::default() }
    }

    proof fn lemma_fresh_named(name: Seq<char>) {
    }

    proof fn lemma_one_name(v: ContainerPortView, a: Seq<char>, b: Seq<char>) {
    }

    fn has_name(&self, name: &String) -> (r: bool) {
        match &self.name {
            Some(n) => *n == *name,
            None => false,
        }
    }

    fn with_name(name: String) -> (r: ContainerPort) {
        let mut item = ContainerPort::default();
        item.name = Some(name);
        item
    }

    fn copy(&self) -> (r: ContainerPort) {
        self.clone()
    }
}

impl Named for Container {
    open spec fn named(v: ContainerView, name: Seq<char>) -> bool {
        v.name == name
    }

    open spec fn fresh(name: Seq<char>) -> ContainerView {
        ContainerView { name: name, ..ContainerView::default() }
    }

    proof fn lemma_fresh_named(name: Seq<char>) {
    }

    proof fn lemma_one_name(v: ContainerView, a: Seq<char>, b: Seq<char>) {
    }

    fn has_name(&self, name: &String) -> (r: bool) {
        self.name == *name
    }

    fn with_name(name: String) -> (r: Container) {
        let mut item = Container::default();
        item.name = name;
        item
    }

    fn copy(&self) -> (r: Container) {
        self.clone()
    }
}

impl Named for Volume {
    open spec fn named(v: VolumeView, name: Seq<char>) -> bool {
        v.name == name
    }

    open spec fn fresh(name: Seq<char>) -> VolumeView {
        VolumeView { name: name, ..VolumeView::default() }
    }

    proof fn lemma_fresh_named(name: Seq<char>) {
    }

    proof fn lemma_one_name(v: VolumeView, a: Seq<char>, b: Seq<char>) {
    }

    fn has_name(&self, name: &String) -> (r: bool) {
        self.name == *name
    }

    fn with_name(name: String) -> (r: Volume) {
        let mut item = Volume::default();
        item.name = name;
        item
    }

    fn copy(&self) -> (r: Volume) {
        self.clone()
    }
}

} // verus!
