//! The child objects that one Minecraft server is made of.

use crate::meta::{ObjectMeta, ObjectMetaView};
use crate::pod::{
    IntOrString, IntOrStringView, PodSpec, PodSpecView, ResourceRequirements,
    ResourceRequirementsView,
};
use crate::string_map::StringMap;
use crate::text::{copy_all, copy_opt_text, copy_texts, same_all, same_opt_text, same_texts};
use vstd::prelude::*;
use vstd::std_specs::cmp::PartialEqSpecImpl;

verus! {

/// The identity that the server's pod runs as.
#[derive(Debug)]
pub struct ServiceAccount {
    /// Name, namespace and owners.
    pub metadata: ObjectMeta,
}

/// The mathematical view of [`ServiceAccount`].
pub struct ServiceAccountView {
    pub metadata: ObjectMetaView,
}

impl ServiceAccountView {
    /// The view of the value that `ServiceAccount::default()` builds.
    pub open spec fn default() -> ServiceAccountView {
        ServiceAccountView {
            metadata: ObjectMetaView::default(),
        }
    }
}

impl DeepView for ServiceAccount {
    type V = ServiceAccountView;

    open spec fn deep_view(&self) -> ServiceAccountView {
        ServiceAccountView {
            metadata: self.metadata@,
        }
    }
}

impl View for ServiceAccount {
    type V = ServiceAccountView;

    open spec fn view(&self) -> ServiceAccountView {
        self.deep_view()
    }
}

impl Default for ServiceAccount {
    fn default() -> (r: ServiceAccount)
        ensures
            r@ == ServiceAccountView::default(),
    {
        let r = ServiceAccount {
            metadata: ObjectMeta::default(),
        };
        r
    }
}

impl Clone for ServiceAccount {
    fn clone(&self) -> (r: ServiceAccount)
        ensures
            r@ == self@,
    {
        ServiceAccount {
            metadata: self.metadata.clone(),
        }
    }
}

impl PartialEq for ServiceAccount {
    fn eq(&self, other: &ServiceAccount) -> (r: bool) {
        self.metadata == other.metadata
    }
}

impl PartialEqSpecImpl for ServiceAccount {
    open spec fn obeys_eq_spec() -> bool {
        true
    }

    open spec fn eq_spec(&self, other: &ServiceAccount) -> bool {
        self@ == other@
    }
}

/// The claim for the storage that holds the server's data.
#[derive(Debug)]
pub struct PersistentVolumeClaim {
    /// Name, namespace and owners.
    pub metadata: ObjectMeta,
    /// The ways in which the volume may be mounted.
    pub access_modes: Vec<String>,
    /// The amount of storage asked for.
    pub resources: ResourceRequirements,
}

/// The mathematical view of [`PersistentVolumeClaim`].
pub struct PersistentVolumeClaimView {
    pub metadata: ObjectMetaView,
    pub access_modes: Seq<Seq<char>>,
    pub resources: ResourceRequirementsView,
}

impl PersistentVolumeClaimView {
    /// The view of the value that `PersistentVolumeClaim::default()` builds.
    pub open spec fn default() -> PersistentVolumeClaimView {
        PersistentVolumeClaimView {
            metadata: ObjectMetaView::default(),
            access_modes: Seq::empty(),
            resources: ResourceRequirementsView::default(),
        }
    }
}

impl DeepView for PersistentVolumeClaim {
    type V = PersistentVolumeClaimView;

    open spec fn deep_view(&self) -> PersistentVolumeClaimView {
        PersistentVolumeClaimView {
            metadata: self.metadata@,
            access_modes: self.access_modes.deep_view(),
            resources: self.resources@,
        }
    }
}

impl View for PersistentVolumeClaim {
    type V = PersistentVolumeClaimView;

    open spec fn view(&self) -> PersistentVolumeClaimView {
        self.deep_view()
    }
}

impl Default for PersistentVolumeClaim {
    fn default() -> (r: PersistentVolumeClaim)
        ensures
            r@ == PersistentVolumeClaimView::default(),
    {
        let r = PersistentVolumeClaim {
            metadata: ObjectMeta::default(),
            access_modes: Vec::new(),
            resources: ResourceRequirements::default(),
        };
        proof {
            assert(r.access_modes.deep_view() =~= Seq::empty());
        }
        r
    }
}

impl Clone for PersistentVolumeClaim {
    fn clone(&self) -> (r: PersistentVolumeClaim)
        ensures
            r@ == self@,
    {
        PersistentVolumeClaim {
            metadata: self.metadata.clone(),
            access_modes: copy_texts(&self.access_modes),
            resources: self.resources.clone(),
        }
    }
}

impl PartialEq for PersistentVolumeClaim {
    fn eq(&self, other: &PersistentVolumeClaim) -> (r: bool) {
        self.metadata == other.metadata
            && same_texts(&self.access_modes, &other.access_modes)
            && self.resources == other.resources
    }
}

impl PartialEqSpecImpl for PersistentVolumeClaim {
    open spec fn obeys_eq_spec() -> bool {
        true
    }

    open spec fn eq_spec(&self, other: &PersistentVolumeClaim) -> bool {
        self@ == other@
    }
}

/// The workload that runs the server's pod.
#[derive(Debug)]
pub struct Deployment {
    /// Name, namespace and owners.
    pub metadata: ObjectMeta,
    /// The number of pods to run.
    pub replicas: Option<i32>,
    /// The labels by which the deployment finds its pods.
    pub selector: StringMap,
    /// How pods are replaced when the template changes.
    pub strategy: Option<String>,
    /// The labels that every pod of the deployment carries.
    pub template_labels: StringMap,
    /// What every pod of the deployment runs.
    pub template: PodSpec,
}

/// The mathematical view of [`Deployment`].
pub struct DeploymentView {
    pub metadata: ObjectMetaView,
    pub replicas: Option<i32>,
    pub selector: Map<Seq<char>, Seq<char>>,
    pub strategy: Option<Seq<char>>,
    pub template_labels: Map<Seq<char>, Seq<char>>,
    pub template: PodSpecView,
}

impl DeploymentView {
    /// The view of the value that `Deployment::default()` builds.
    pub open spec fn default() -> DeploymentView {
        DeploymentView {
            metadata: ObjectMetaView::default(),
            replicas: None,
            selector: Map::empty(),
            strategy: None,
            template_labels: Map::empty(),
            template: PodSpecView::default(),
        }
    }
}

impl DeepView for Deployment {
    type V = DeploymentView;

    open spec fn deep_view(&self) -> DeploymentView {
        DeploymentView {
            metadata: self.metadata@,
            replicas: self.replicas,
            selector: self.selector@,
            strategy: self.strategy.deep_view(),
            template_labels: self.template_labels@,
            template: self.template@,
        }
    }
}

impl View for Deployment {
    type V = DeploymentView;

    open spec fn view(&self) -> DeploymentView {
        self.deep_view()
    }
}

impl Default for Deployment {
    fn default() -> (r: Deployment)
        ensures
            r@ == DeploymentView::default(),
    {
        let r = Deployment {
            metadata: ObjectMeta::default(),
            replicas: None,
            selector: StringMap::new(),
            strategy: None,
            template_labels: StringMap::new(),
            template: PodSpec::default(),
        };
        r
    }
}

impl Clone for Deployment {
    fn clone(&self) -> (r: Deployment)
        ensures
            r@ == self@,
    {
        Deployment {
            metadata: self.metadata.clone(),
            replicas: self.replicas,
            selector: self.selector.clone(),
            strategy: copy_opt_text(&self.strategy),
            template_labels: self.template_labels.clone(),
            template: self.template.clone(),
        }
    }
}

impl PartialEq for Deployment {
    fn eq(&self, other: &Deployment) -> (r: bool) {
        self.metadata == other.metadata
            && self.replicas == other.replicas
            && self.selector == other.selector
            && same_opt_text(&self.strategy, &other.strategy)
            && self.template_labels == other.template_labels
            && self.template == other.template
    }
}

impl PartialEqSpecImpl for Deployment {
    open spec fn obeys_eq_spec() -> bool {
        true
    }

    open spec fn eq_spec(&self, other: &Deployment) -> bool {
        self@ == other@
    }
}

/// One port that a service exposes.
#[derive(Debug)]
pub struct ServicePort {
    /// Name of the port.
    pub name: Option<String>,
    /// The port number that the service listens on.
    pub port: i32,
    /// The transport protocol.
    pub protocol: Option<String>,
    /// The port of the pods that traffic is sent to.
    pub target_port: Option<IntOrString>,
}

/// The mathematical view of [`ServicePort`].
pub struct ServicePortView {
    pub name: Option<Seq<char>>,
    pub port: i32,
    pub protocol: Option<Seq<char>>,
    pub target_port: Option<IntOrStringView>,
}

impl ServicePortView {
    /// The view of the value that `ServicePort::default()` builds.
    pub open spec fn default() -> ServicePortView {
        ServicePortView {
            name: None,
            port: 0,
            protocol: None,
            target_port: None,
        }
    }
}

impl DeepView for ServicePort {
    type V = ServicePortView;

    open spec fn deep_view(&self) -> ServicePortView {
        ServicePortView {
            name: self.name.deep_view(),
            port: self.port,
            protocol: self.protocol.deep_view(),
            target_port: self.target_port.deep_view(),
        }
    }
}

impl View for ServicePort {
    type V = ServicePortView;

    open spec fn view(&self) -> ServicePortView {
        self.deep_view()
    }
}

impl Default for ServicePort {
    fn default() -> (r: ServicePort)
        ensures
            r@ == ServicePortView::default(),
    {
        let r = ServicePort {
            name: None,
            port: 0,
            protocol: None,
            target_port: None,
        };
        r
    }
}

impl Clone for ServicePort {
    fn clone(&self) -> (r: ServicePort)
        ensures
            r@ == self@,
    {
        ServicePort {
            name: copy_opt_text(&self.name),
            port: self.port,
            protocol: copy_opt_text(&self.protocol),
            target_port: self.target_port.clone(),
        }
    }
}

impl PartialEq for ServicePort {
    fn eq(&self, other: &ServicePort) -> (r: bool) {
        same_opt_text(&self.name, &other.name)
            && self.port == other.port
            && same_opt_text(&self.protocol, &other.protocol)
            && self.target_port == other.target_port
    }
}

impl PartialEqSpecImpl for ServicePort {
    open spec fn obeys_eq_spec() -> bool {
        true
    }

    open spec fn eq_spec(&self, other: &ServicePort) -> bool {
        self@ == other@
    }
}

/// The stable network address of the server.
#[derive(Debug)]
pub struct Service {
    /// Name, namespace, annotations and owners.
    pub metadata: ObjectMeta,
    /// The labels of the pods that receive the traffic.
    pub selector: StringMap,
    /// How the service is exposed.
    pub type_: Option<String>,
    /// The ports that the service exposes.
    pub ports: Vec<ServicePort>,
}

/// The mathematical view of [`Service`].
pub struct ServiceView {
    pub metadata: ObjectMetaView,
    pub selector: Map<Seq<char>, Seq<char>>,
    pub type_: Option<Seq<char>>,
    pub ports: Seq<ServicePortView>,
}

impl ServiceView {
    /// The view of the value that `Service::default()` builds.
    pub open spec fn default() -> ServiceView {
        ServiceView {
            metadata: ObjectMetaView::default(),
            selector: Map::empty(),
            type_: None,
            ports: Seq::empty(),
        }
    }
}

impl DeepView for Service {
    type V = ServiceView;

    open spec fn deep_view(&self) -> ServiceView {
        ServiceView {
            metadata: self.metadata@,
            selector: self.selector@,
            type_: self.type_.deep_view(),
            ports: self.ports.deep_view(),
        }
    }
}

impl View for Service {
    type V = ServiceView;

    open spec fn view(&self) -> ServiceView {
        self.deep_view()
    }
}

impl Default for Service {
    fn default() -> (r: Service)
        ensures
            r@ == ServiceView::default(),
    {
        let r = Service {
            metadata: ObjectMeta::default(),
            selector: StringMap::new(),
            type_: None,
            ports: Vec::new(),
        };
        proof {
            assert(r.ports.deep_view() =~= Seq::empty());
        }
        r
    }
}

impl Clone for Service {
    fn clone(&self) -> (r: Service)
        ensures
            r@ == self@,
    {
        Service {
            metadata: self.metadata.clone(),
            selector: self.selector.clone(),
            type_: copy_opt_text(&self.type_),
            ports: copy_all(&self.ports),
        }
    }
}

impl PartialEq for Service {
    fn eq(&self, other: &Service) -> (r: bool) {
        self.metadata == other.metadata
            && self.selector == other.selector
            && same_opt_text(&self.type_, &other.type_)
            && same_all(&self.ports, &other.ports)
    }
}

impl PartialEqSpecImpl for Service {
    open spec fn obeys_eq_spec() -> bool {
        true
    }

    open spec fn eq_spec(&self, other: &Service) -> bool {
        self@ == other@
    }
}

/// The route that lets traffic from outside the cluster reach the service.
#[derive(Debug)]
pub struct Route {
    /// Name, namespace and owners.
    pub metadata: ObjectMeta,
    /// Where TLS ends; absent when the route has no TLS settings.
    pub termination: Option<String>,
    /// What happens to traffic that arrives without TLS.
    pub insecure_edge_termination_policy: Option<String>,
    /// The port of the service that traffic is sent to.
    pub target_port: Option<IntOrString>,
    /// The kind of the object that traffic is sent to.
    pub to_kind: String,
    /// The name of the object that traffic is sent to.
    pub to_name: String,
    /// The share of the traffic that the target receives.
    pub to_weight: i32,
}

/// The mathematical view of [`Route`].
pub struct RouteView {
    pub metadata: ObjectMetaView,
    pub termination: Option<Seq<char>>,
    pub insecure_edge_termination_policy: Option<Seq<char>>,
    pub target_port: Option<IntOrStringView>,
    pub to_kind: Seq<char>,
    pub to_name: Seq<char>,
    pub to_weight: i32,
}

impl RouteView {
    /// The view of the value that `Route::default()` builds.
    pub open spec fn default() -> RouteView {
        RouteView {
            metadata: ObjectMetaView::default(),
            termination: None,
            insecure_edge_termination_policy: None,
            target_port: None,
            to_kind: Seq::empty(),
            to_name: Seq::empty(),
            to_weight: 0,
        }
    }
}

impl DeepView for Route {
    type V = RouteView;

    open spec fn deep_view(&self) -> RouteView {
        RouteView {
            metadata: self.metadata@,
            termination: self.termination.deep_view(),
            insecure_edge_termination_policy: self.insecure_edge_termination_policy.deep_view(),
            target_port: self.target_port.deep_view(),
            to_kind: self.to_kind@,
            to_name: self.to_name@,
            to_weight: self.to_weight,
        }
    }
}

impl View for Route {
    type V = RouteView;

    open spec fn view(&self) -> RouteView {
        self.deep_view()
    }
}

impl Default for Route {
    fn default() -> (r: Route)
        ensures
            r@ == RouteView::default(),
    {
        let r = Route {
            metadata: ObjectMeta::default(),
            termination: None,
            insecure_edge_termination_policy: None,
            target_port: None,
            to_kind: String::new(),
            to_name: String::new(),
            to_weight: 0,
        };
        r
    }
}

impl Clone for Route {
    fn clone(&self) -> (r: Route)
        ensures
            r@ == self@,
    {
        Route {
            metadata: self.metadata.clone(),
            termination: copy_opt_text(&self.termination),
            insecure_edge_termination_policy: copy_opt_text(&self.insecure_edge_termination_policy),
            target_port: self.target_port.clone(),
            to_kind: self.to_kind.clone(),
            to_name: self.to_name.clone(),
            to_weight: self.to_weight,
        }
    }
}

impl PartialEq for Route {
    fn eq(&self, other: &Route) -> (r: bool) {
        self.metadata == other.metadata
            && same_opt_text(&self.termination, &other.termination)
            && same_opt_text(&self.insecure_edge_termination_policy, &other.insecure_edge_termination_policy)
            && self.target_port == other.target_port
            && self.to_kind == other.to_kind
            && self.to_name == other.to_name
            && self.to_weight == other.to_weight
    }
}

impl PartialEqSpecImpl for Route {
    open spec fn obeys_eq_spec() -> bool {
        true
    }

    open spec fn eq_spec(&self, other: &Route) -> bool {
        self@ == other@
    }
}

/// The kinds of child object, in the order in which they are applied.
#[derive(Clone, Copy, Debug, PartialEq, Eq, Hash, Structural)]
pub enum ChildKind {
    ServiceAccount,
    PersistentVolumeClaim,
    Deployment,
    Service,
    Route,
}

/// A child object of any kind.
#[derive(Debug)]
pub enum ChildObject {
    ServiceAccount(ServiceAccount),
    PersistentVolumeClaim(PersistentVolumeClaim),
    Deployment(Deployment),
    Service(Service),
    Route(Route),
}

/// The mathematical view of [`ChildObject`].
pub enum ChildObjectView {
    ServiceAccount(ServiceAccountView),
    PersistentVolumeClaim(PersistentVolumeClaimView),
    Deployment(DeploymentView),
    Service(ServiceView),
    Route(RouteView),
}

impl ChildObjectView {
    /// The kind of the object.
    pub open spec fn kind(self) -> ChildKind {
        match self {
            ChildObjectView::ServiceAccount(_) => ChildKind::ServiceAccount,
            ChildObjectView::PersistentVolumeClaim(_) => ChildKind::PersistentVolumeClaim,
            ChildObjectView::Deployment(_) => ChildKind::Deployment,
            ChildObjectView::Service(_) => ChildKind::Service,
            ChildObjectView::Route(_) => ChildKind::Route,
        }
    }

    /// The metadata of the object.
    pub open spec fn metadata(self) -> ObjectMetaView {
        match self {
            ChildObjectView::ServiceAccount(o) => o.metadata,
            ChildObjectView::PersistentVolumeClaim(o) => o.metadata,
            ChildObjectView::Deployment(o) => o.metadata,
            ChildObjectView::Service(o) => o.metadata,
            ChildObjectView::Route(o) => o.metadata,
        }
    }

    /// The object of the given kind that holds nothing but its name and namespace.
    pub open spec fn blank(
        kind: ChildKind,
        namespace: Option<Seq<char>>,
        name: Seq<char>,
    ) -> ChildObjectView {
        let metadata = ObjectMetaView { name: Some(name), namespace, ..ObjectMetaView::default() };
        match kind {
            ChildKind::ServiceAccount => ChildObjectView::ServiceAccount(
                ServiceAccountView { metadata, ..ServiceAccountView::default() },
            ),
            ChildKind::PersistentVolumeClaim => ChildObjectView::PersistentVolumeClaim(
                PersistentVolumeClaimView { metadata, ..PersistentVolumeClaimView::default() },
            ),
            ChildKind::Deployment => ChildObjectView::Deployment(
                DeploymentView { metadata, ..DeploymentView::default() },
            ),
            ChildKind::Service => ChildObjectView::Service(
                ServiceView { metadata, ..ServiceView::default() },
            ),
            ChildKind::Route => ChildObjectView::Route(
                RouteView { metadata, ..RouteView::default() },
            ),
        }
    }
}

impl DeepView for ChildObject {
    type V = ChildObjectView;

    open spec fn deep_view(&self) -> ChildObjectView {
        match self {
            ChildObject::ServiceAccount(o) => ChildObjectView::ServiceAccount(o@),
            ChildObject::PersistentVolumeClaim(o) => ChildObjectView::PersistentVolumeClaim(o@),
            ChildObject::Deployment(o) => ChildObjectView::Deployment(o@),
            ChildObject::Service(o) => ChildObjectView::Service(o@),
            ChildObject::Route(o) => ChildObjectView::Route(o@),
        }
    }
}

impl View for ChildObject {
    type V = ChildObjectView;

    open spec fn view(&self) -> ChildObjectView {
        self.deep_view()
    }
}

impl Clone for ChildObject {
    fn clone(&self) -> (r: ChildObject)
        ensures
            r@ == self@,
    {
        match self {
            ChildObject::ServiceAccount(o) => ChildObject::ServiceAccount(o.clone()),
            ChildObject::PersistentVolumeClaim(o) => {
                ChildObject::PersistentVolumeClaim(o.clone())
            },
            ChildObject::Deployment(o) => ChildObject::Deployment(o.clone()),
            ChildObject::Service(o) => ChildObject::Service(o.clone()),
            ChildObject::Route(o) => ChildObject::Route(o.clone()),
        }
    }
}

impl PartialEq for ChildObject {
    fn eq(&self, other: &ChildObject) -> (r: bool) {
        match (self, other) {
            (ChildObject::ServiceAccount(a), ChildObject::ServiceAccount(b)) => *a == *b,
            (ChildObject::PersistentVolumeClaim(a), ChildObject::PersistentVolumeClaim(b)) => {
                *a == *b
            },
            (ChildObject::Deployment(a), ChildObject::Deployment(b)) => *a == *b,
            (ChildObject::Service(a), ChildObject::Service(b)) => *a == *b,
            (ChildObject::Route(a), ChildObject::Route(b)) => *a == *b,
            _ => false,
        }
    }
}

impl PartialEqSpecImpl for ChildObject {
    open spec fn obeys_eq_spec() -> bool {
        true
    }

    open spec fn eq_spec(&self, other: &ChildObject) -> bool {
        self@ == other@
    }
}

impl ChildObject {
    /// The kind of the object.
    pub fn kind(&self) -> (r: ChildKind)
        ensures
            r == self@.kind(),
    {
        match self {
            ChildObject::ServiceAccount(_) => ChildKind::ServiceAccount,
            ChildObject::PersistentVolumeClaim(_) => ChildKind::PersistentVolumeClaim,
            ChildObject::Deployment(_) => ChildKind::Deployment,
            ChildObject::Service(_) => ChildKind::Service,
            ChildObject::Route(_) => ChildKind::Route,
        }
    }

    /// The metadata of the object.
    pub fn metadata(&self) -> (r: &ObjectMeta)
        ensures
            r@ == self@.metadata(),
    {
        match self {
            ChildObject::ServiceAccount(o) => &o.metadata,
            ChildObject::PersistentVolumeClaim(o) => &o.metadata,
            ChildObject::Deployment(o) => &o.metadata,
            ChildObject::Service(o) => &o.metadata,
            ChildObject::Route(o) => &o.metadata,
        }
    }

    /// The object of the given kind that holds nothing but its name and namespace.
    pub fn blank(kind: ChildKind, namespace: Option<String>, name: String) -> (r: ChildObject)
        ensures
            r@ == ChildObjectView::blank(kind, namespace.deep_view(), name@),
    {
        let mut metadata = ObjectMeta::default();
        metadata.name = Some(name);
        metadata.namespace = namespace;
        match kind {
            ChildKind::ServiceAccount => {
                let mut o = ServiceAccount::default();
                o.metadata = metadata;
                ChildObject::ServiceAccount(o)
            },
            ChildKind::PersistentVolumeClaim => {
                let mut o = PersistentVolumeClaim::default();
                o.metadata = metadata;
                ChildObject::PersistentVolumeClaim(o)
            },
            ChildKind::Deployment => {
                let mut o = Deployment::default();
                o.metadata = metadata;
                ChildObject::Deployment(o)
            },
            ChildKind::Service => {
                let mut o = Service::default();
                o.metadata = metadata;
                ChildObject::Service(o)
            },
            ChildKind::Route => {
                let mut o = Route::default();
                o.metadata = metadata;
                ChildObject::Route(o)
            },
        }
    }
}

} // verus!
