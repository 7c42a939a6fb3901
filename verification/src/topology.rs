//! The desired state of each child object.
//!
//! Every function here is pure: it takes the parent resource and the child as
//! the cluster holds it (or a blank one), and returns the child as it should be.
//! What the desired state does not speak of is left as it was found.

use crate::crd::{Minecraft, MinecraftView};
use crate::error::{outcome, ReconcileError, ReconcileErrorView};
use crate::meta::ObjectMetaView;
use crate::ownership::{stamp_owner, stamped};
use crate::pod::{IntOrString, IntOrStringView, ResourceRequirements, ResourceRequirementsView};
use crate::resources::{
    PersistentVolumeClaim, PersistentVolumeClaimView, Route, RouteView, Service, ServiceAccount,
    ServiceAccountView, ServicePort, ServicePortView, ServiceView,
};
use crate::string_map::StringMap;
use crate::text::text;
use vstd::prelude::*;

verus! {

/// Label key for the name of the application.
pub const KUBERNETES_LABEL_NAME: &'static str = "app.kubernetes.io/name";

/// Label key for the instance of the application.
pub const KUBERNETES_LABEL_INSTANCE: &'static str = "app.kubernetes.io/instance";

/// Label key for the component within the application.
pub const KUBERNETES_LABEL_COMPONENT: &'static str = "app.kubernetes.io/component";

/// Annotation that asks the platform to issue a serving certificate into the
/// secret it names.
pub const SERVING_CERT_ANNOTATION: &'static str =
    "service.beta.openshift.io/serving-cert-secret-name";

/// Role of the service account and of the deployment.
pub const ROLE_SERVER: &'static str = "server";

/// Role of the persistent volume claim.
pub const ROLE_DATA: &'static str = "data";

/// Role of the service and of the route.
pub const ROLE_SERVICE: &'static str = "minecraft";

/// Role of the secret that holds the serving certificate.
pub const ROLE_TLS_SECRET: &'static str = "minecraft-tls";

/// Name of the port on which the TLS sidecar listens.
pub const TLS_PORT_NAME: &'static str = "mc-tls";

/// Number of the port on which the TLS sidecar listens.
pub const TLS_PORT: i32 = 11337;

/// Number of the port on which the game server listens.
pub const GAME_PORT: i32 = 1337;

/// The name of the child that plays `role` for the parent called `parent`.
pub open spec fn child_name(parent: Seq<char>, role: Seq<char>) -> Seq<char> {
    parent + "-"@ + role
}

/// The labels that mark the server's pods: the deployment selects its pods by
/// them, stamps them on its pod template, and the service routes to them.
pub open spec fn selector_labels(parent: Seq<char>) -> Map<Seq<char>, Seq<char>> {
    Map::<Seq<char>, Seq<char>>::empty().insert(KUBERNETES_LABEL_NAME@, "server"@).insert(
        KUBERNETES_LABEL_INSTANCE@,
        "server-"@ + parent,
    ).insert(KUBERNETES_LABEL_COMPONENT@, "server"@)
}

/// Resource requirements after the request and the limit of one kind of
/// resource were set: a given amount is bound, an absent one is unbound.
pub open spec fn with_resource(
    resources: ResourceRequirementsView,
    kind: Seq<char>,
    request: Option<Seq<char>>,
    limit: Option<Seq<char>>,
) -> ResourceRequirementsView {
    ResourceRequirementsView {
        requests: match request {
            Some(amount) => resources.requests.insert(kind, amount),
            None => resources.requests.remove(kind),
        },
        limits: match limit {
            Some(amount) => resources.limits.insert(kind, amount),
            None => resources.limits.remove(kind),
        },
    }
}

/// The service account as it should be: owned by the parent, otherwise as found.
pub open spec fn desired_service_account(
    parent: MinecraftView,
    base: ServiceAccountView,
) -> Result<ServiceAccountView, ReconcileErrorView> {
    match stamped(base.metadata, parent) {
        Ok(metadata) => Ok(ServiceAccountView { metadata }),
        Err(error) => Err(error),
    }
}

/// The claim as it should be: owned by the parent, mounted by a single writer,
/// asking for one gibibyte of storage and setting no limit.
pub open spec fn desired_persistent_volume_claim(
    parent: MinecraftView,
    base: PersistentVolumeClaimView,
) -> Result<PersistentVolumeClaimView, ReconcileErrorView> {
    match stamped(base.metadata, parent) {
        Ok(metadata) => Ok(
            PersistentVolumeClaimView {
                metadata,
                access_modes: seq!["ReadWriteOnce"@],
                resources: with_resource(base.resources, "storage"@, Some("1Gi"@), None),
            },
        ),
        Err(error) => Err(error),
    }
}

/// The one port of the service: the TLS listener, addressed by its name.
pub open spec fn tls_service_port() -> ServicePortView {
    ServicePortView {
        name: Some(TLS_PORT_NAME@),
        port: TLS_PORT,
        protocol: Some("TCP"@),
        target_port: Some(IntOrStringView::String(TLS_PORT_NAME@)),
    }
}

/// The service as it should be: owned by the parent, a cluster-internal address
/// for the TLS port of the server's pods, annotated so that the platform issues
/// the serving certificate into the secret called `tls_secret`.
pub open spec fn desired_service(
    parent: MinecraftView,
    tls_secret: Seq<char>,
    base: ServiceView,
) -> Result<ServiceView, ReconcileErrorView>
    recommends
        parent.metadata.name is Some,
{
    match stamped(base.metadata, parent) {
        Ok(metadata) => Ok(
            ServiceView {
                metadata: ObjectMetaView {
                    annotations: metadata.annotations.insert(SERVING_CERT_ANNOTATION@, tls_secret),
                    ..metadata
                },
                selector: selector_labels(parent.name()),
                type_: Some("ClusterIP"@),
                ports: seq![tls_service_port()],
            },
        ),
        Err(error) => Err(error),
    }
}

/// The route as it should be: owned by the parent, passing TLS through
/// untouched to the TLS port of the service called `service`, with all of the
/// traffic and no fallback for traffic without TLS.
pub open spec fn desired_route(parent: MinecraftView, service: Seq<char>, base: RouteView) -> Result<
    RouteView,
    ReconcileErrorView,
> {
    match stamped(base.metadata, parent) {
        Ok(metadata) => Ok(
            RouteView {
                metadata,
                termination: Some("Passthrough"@),
                insecure_edge_termination_policy: Some("None"@),
                target_port: Some(IntOrStringView::String(TLS_PORT_NAME@)),
                to_kind: "Service"@,
                to_name: service,
                to_weight: 100,
            },
        ),
        Err(error) => Err(error),
    }
}

/// The name of the child that plays `name` for `minecraft`.
pub fn resource_name(minecraft: &Minecraft, name: &str) -> (r: String)
    requires
        minecraft@.metadata.name is Some,
    ensures
        r@ == child_name(minecraft@.name(), name@),
{
    let mut r = match &minecraft.metadata.name {
        Some(parent) => parent.clone(),
        None => String::new(),
    };
    r.append("-");
    r.append(name);
    r
}

/// The labels that mark the pods of `minecraft`'s server.
pub fn selector(minecraft: &Minecraft) -> (r: StringMap)
    requires
        minecraft@.metadata.name is Some,
    ensures
        r@ == selector_labels(minecraft@.name()),
{
    let mut instance = text("server-");
    match &minecraft.metadata.name {
        Some(parent) => instance.append(parent.as_str()),
        None => {},
    }
    let mut r = StringMap::new();
    r.insert(text(KUBERNETES_LABEL_NAME), text("server"));
    r.insert(text(KUBERNETES_LABEL_INSTANCE), instance);
    r.insert(text(KUBERNETES_LABEL_COMPONENT), text("server"));
    r
}

/// Sets the request and the limit of one kind of resource: a given amount is
/// bound, an absent one is unbound.
pub fn set_resources(
    resources: &mut ResourceRequirements,
    kind: &str,
    request: Option<&str>,
    limit: Option<&str>,
)
    ensures
        final(resources)@ == with_resource(
            old(resources)@,
            kind@,
            match request {
                Some(amount) => Some(amount@),
                None => None,
            },
            match limit {
                Some(amount) => Some(amount@),
                None => None,
            },
        ),
{
    match request {
        Some(amount) => resources.requests.insert(text(kind), text(amount)),
        None => resources.requests.remove(kind),
    }
    match limit {
        Some(amount) => resources.limits.insert(text(kind), text(amount)),
        None => resources.limits.remove(kind),
    }
}

/// Brings the service account to its desired state.
pub fn service_account(minecraft: &Minecraft, base: ServiceAccount) -> (r: Result<
    ServiceAccount,
    ReconcileError,
>)
    requires
        minecraft@.metadata.name is Some,
    ensures
        outcome(r) == desired_service_account(minecraft@, base@),
{
    let mut sa = base;
    stamp_owner(&mut sa.metadata, minecraft)?;
    Ok(sa)
}

/// Brings the persistent volume claim to its desired state.
pub fn persistent_volume_claim(minecraft: &Minecraft, base: PersistentVolumeClaim) -> (r: Result<
    PersistentVolumeClaim,
    ReconcileError,
>)
    requires
        minecraft@.metadata.name is Some,
    ensures
        outcome(r) == desired_persistent_volume_claim(minecraft@, base@),
{
    let mut pvc = base;
    stamp_owner(&mut pvc.metadata, minecraft)?;
    pvc.access_modes = vec![text("ReadWriteOnce")];
    assert(pvc.access_modes.deep_view() =~= seq!["ReadWriteOnce"@]);
    set_resources(&mut pvc.resources, "storage", Some("1Gi"), None);
    Ok(pvc)
}

/// Brings the service to its desired state.
pub fn service(minecraft: &Minecraft, tls_secret: &str, base: Service) -> (r: Result<
    Service,
    ReconcileError,
>)
    requires
        minecraft@.metadata.name is Some,
    ensures
        outcome(r) == desired_service(minecraft@, tls_secret@, base@),
{
    let mut service = base;
    stamp_owner(&mut service.metadata, minecraft)?;
    service.metadata.annotations.insert(text(SERVING_CERT_ANNOTATION), text(tls_secret));
    service.selector = selector(minecraft);
    service.type_ = Some(text("ClusterIP"));
    service.ports = vec![
        ServicePort {
            name: Some(text(TLS_PORT_NAME)),
            port: TLS_PORT,
            protocol: Some(text("TCP")),
            target_port: Some(IntOrString::String(text(TLS_PORT_NAME))),
        },
    ];
    assert(service.ports.deep_view() =~= seq![tls_service_port()]);
    Ok(service)
}

/// Brings the route to its desired state.
pub fn route(minecraft: &Minecraft, service: &str, base: Route) -> (r: Result<
    Route,
    ReconcileError,
>)
    requires
        minecraft@.metadata.name is Some,
    ensures
        outcome(r) == desired_route(minecraft@, service@, base@),
{
    let mut route = base;
    stamp_owner(&mut route.metadata, minecraft)?;
    route.termination = Some(text("Passthrough"));
    route.insecure_edge_termination_policy = Some(text("None"));
    route.target_port = Some(IntOrString::String(text(TLS_PORT_NAME)));
    route.to_kind = text("Service");
    route.to_name = text(service);
    route.to_weight = 100;
    Ok(route)
}

} // verus!
