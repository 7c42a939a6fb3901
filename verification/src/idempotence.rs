//! Bringing a child to its desired state twice is the same as doing it once.
//!
//! This is what lets a reconciliation that follows a successful one write
//! nothing: every child is found in its desired state, and the desired state of
//! that is the same state again.

use crate::crd::MinecraftView;
use crate::error::ReconcileErrorView;
use crate::laws::{lemma_container_names_differ, lemma_current_named, lemma_ownership};
use crate::named::{current, holds, lemma_put_other, lemma_put_same, lemma_put_settles, put, Named};
use crate::pod::{
    Container, ContainerPort, ContainerPortView, ContainerView, PodSpecView,
    ResourceRequirementsView, Volume, VolumeMount, VolumeMountView, VolumeView,
};
use crate::resources::{ChildKind, ChildObjectView};
use crate::sync::{base_of, desired, planned, PlanView};
use crate::topology::{
    child_name, with_resource, ROLE_DATA, ROLE_SERVER, ROLE_TLS_SECRET, TLS_PORT, TLS_PORT_NAME,
};
use crate::workload::{
    desired_pod, download_container, server_container, tls_container, with_data_volume,
    with_download, with_logs_volume, with_mount, with_port, with_server, with_tls,
    with_tls_volume,
};
use vstd::prelude::*;

verus! {

/// Setting the same amounts of a resource twice is the same as setting them once.
pub proof fn lemma_with_resource_twice(
    resources: ResourceRequirementsView,
    kind: Seq<char>,
    request: Option<Seq<char>>,
    limit: Option<Seq<char>>,
)
    ensures
        with_resource(with_resource(resources, kind, request, limit), kind, request, limit)
            == with_resource(resources, kind, request, limit),
{
    let once = with_resource(resources, kind, request, limit);
    let twice = with_resource(once, kind, request, limit);
    assert(twice.requests =~= once.requests);
    assert(twice.limits =~= once.limits);
}

/// Putting what a list already finds under a name changes nothing.
pub proof fn lemma_put_found<T: Named>(s: Seq<T::V>, name: Seq<char>, item: T::V)
    requires
        holds::<T>(s, name),
        current::<T>(s, name) == item,
    ensures
        put::<T>(s, name, item) == s,
{
    lemma_put_same::<T>(s, name);
}

/// Once a volume is mounted, the list of mounts holds the mount, and mounting
/// the volume the same way again changes nothing.
pub proof fn lemma_with_mount_settles(
    mounts: Seq<VolumeMountView>,
    name: Seq<char>,
    path: Seq<char>,
    read_only: bool,
)
    ensures
        holds::<VolumeMount>(with_mount(mounts, name, path, read_only), name),
        current::<VolumeMount>(with_mount(mounts, name, path, read_only), name)
            == (VolumeMountView { name, mount_path: path, read_only: Some(read_only) }),
        with_mount(with_mount(mounts, name, path, read_only), name, path, read_only)
            == with_mount(mounts, name, path, read_only),
{
    lemma_current_named::<VolumeMount>(mounts, name);
    let item = VolumeMountView {
        mount_path: path,
        read_only: Some(read_only),
        ..current::<VolumeMount>(mounts, name)
    };
    lemma_put_settles::<VolumeMount>(mounts, name, item);
}

/// Mounting one volume leaves the mount of another volume as it was.
pub proof fn lemma_with_mount_other(
    mounts: Seq<VolumeMountView>,
    name: Seq<char>,
    path: Seq<char>,
    read_only: bool,
    other: Seq<char>,
)
    requires
        other != name,
    ensures
        holds::<VolumeMount>(with_mount(mounts, name, path, read_only), other) == holds::<
            VolumeMount,
        >(mounts, other),
        current::<VolumeMount>(with_mount(mounts, name, path, read_only), other) == current::<
            VolumeMount,
        >(mounts, other),
{
    lemma_current_named::<VolumeMount>(mounts, name);
    let item = VolumeMountView {
        mount_path: path,
        read_only: Some(read_only),
        ..current::<VolumeMount>(mounts, name)
    };
    lemma_put_other::<VolumeMount>(mounts, name, item, other);
}

/// Once a port is set, setting it the same way again changes nothing.
pub proof fn lemma_with_port_twice(
    ports: Seq<ContainerPortView>,
    name: Seq<char>,
    number: i32,
    protocol: Option<Seq<char>>,
)
    ensures
        with_port(with_port(ports, name, number, protocol), name, number, protocol) == with_port(
            ports,
            name,
            number,
            protocol,
        ),
{
    lemma_current_named::<ContainerPort>(ports, name);
    let item = ContainerPortView {
        container_port: number,
        protocol,
        ..current::<ContainerPort>(ports, name)
    };
    lemma_put_settles::<ContainerPort>(ports, name, item);
}

/// The desired state of the init container is its own desired state.
pub proof fn lemma_download_container_twice(base: ContainerView)
    ensures
        download_container(download_container(base)) == download_container(base),
        download_container(base).name == base.name,
{
    lemma_with_mount_settles(base.volume_mounts, "data"@, "/data"@, false);
}

/// The desired state of the game server's container is its own desired state.
pub proof fn lemma_server_container_twice(base: ContainerView)
    ensures
        server_container(server_container(base)) == server_container(base),
        server_container(base).name == base.name,
{
    lemma_container_names_differ();
    lemma_with_resource_twice(base.resources, "memory"@, Some("2Gi"@), Some("2Gi"@));
    let m0 = base.volume_mounts;
    let m1 = with_mount(m0, "data"@, "/data"@, false);
    let m2 = with_mount(m1, "logs"@, "/logs"@, false);
    lemma_with_mount_settles(m0, "data"@, "/data"@, false);
    lemma_with_mount_settles(m1, "logs"@, "/logs"@, false);
    lemma_with_mount_other(m1, "logs"@, "/logs"@, false, "data"@);
    let data = VolumeMountView { name: "data"@, mount_path: "/data"@, read_only: Some(false) };
    lemma_put_found::<VolumeMount>(m2, "data"@, data);
    assert(with_mount(m2, "data"@, "/data"@, false) == m2);
    assert(with_mount(m2, "logs"@, "/logs"@, false) == m2);
}

/// The desired state of the TLS sidecar's container is its own desired state.
pub proof fn lemma_tls_container_twice(base: ContainerView)
    ensures
        tls_container(tls_container(base)) == tls_container(base),
        tls_container(base).name == base.name,
{
    lemma_with_resource_twice(base.resources, "memory"@, Some("64Mi"@), Some("64Mi"@));
    lemma_with_mount_settles(base.volume_mounts, "tls"@, "/etc/mc-tls"@, true);
    lemma_with_port_twice(base.ports, TLS_PORT_NAME@, TLS_PORT, Some("TCP"@));
}

/// The desired state of the init containers is its own desired state.
pub proof fn lemma_with_download_twice(containers: Seq<ContainerView>)
    ensures
        with_download(with_download(containers)) == with_download(containers),
{
    let found = current::<Container>(containers, "download"@);
    lemma_current_named::<Container>(containers, "download"@);
    lemma_download_container_twice(found);
    lemma_put_settles::<Container>(containers, "download"@, download_container(found));
}

/// The desired state of the running containers is its own desired state.
pub proof fn lemma_with_containers_twice(containers: Seq<ContainerView>)
    ensures
        with_tls(with_server(with_tls(with_server(containers)))) == with_tls(
            with_server(containers),
        ),
{
    lemma_container_names_differ();
    let c0 = containers;
    let found_server = current::<Container>(c0, "server"@);
    let server = server_container(found_server);
    lemma_current_named::<Container>(c0, "server"@);
    lemma_server_container_twice(found_server);
    lemma_put_settles::<Container>(c0, "server"@, server);
    let c1 = with_server(c0);
    let found_tls = current::<Container>(c1, "tls"@);
    let tls = tls_container(found_tls);
    lemma_current_named::<Container>(c1, "tls"@);
    lemma_tls_container_twice(found_tls);
    lemma_put_settles::<Container>(c1, "tls"@, tls);
    lemma_put_other::<Container>(c1, "tls"@, tls, "server"@);
    let c2 = with_tls(c1);
    assert(current::<Container>(c2, "server"@) == server);
    lemma_put_found::<Container>(c2, "server"@, server);
    assert(with_server(c2) == c2);
    assert(current::<Container>(c2, "tls"@) == tls);
    lemma_put_found::<Container>(c2, "tls"@, tls);
}

/// The desired state of the volumes is its own desired state.
pub proof fn lemma_with_volumes_twice(volumes: Seq<VolumeView>, pvc: Seq<char>, tls_secret: Seq<char>)
    ensures
        ({
            let once = with_tls_volume(
                with_logs_volume(with_data_volume(volumes, pvc)),
                tls_secret,
            );
            with_tls_volume(with_logs_volume(with_data_volume(once, pvc)), tls_secret) == once
        }),
{
    lemma_container_names_differ();
    let v0 = volumes;
    lemma_current_named::<Volume>(v0, "data"@);
    let data = VolumeView {
        claim_name: Some(pvc),
        claim_read_only: Some(false),
        ..current::<Volume>(v0, "data"@)
    };
    lemma_put_settles::<Volume>(v0, "data"@, data);
    let v1 = with_data_volume(v0, pvc);
    lemma_current_named::<Volume>(v1, "logs"@);
    let logs = VolumeView { empty_dir: true, ..current::<Volume>(v1, "logs"@) };
    lemma_put_settles::<Volume>(v1, "logs"@, logs);
    lemma_put_other::<Volume>(v1, "logs"@, logs, "data"@);
    let v2 = with_logs_volume(v1);
    lemma_current_named::<Volume>(v2, "tls"@);
    let tls = VolumeView { secret_name: Some(tls_secret), ..current::<Volume>(v2, "tls"@) };
    lemma_put_settles::<Volume>(v2, "tls"@, tls);
    lemma_put_other::<Volume>(v2, "tls"@, tls, "data"@);
    lemma_put_other::<Volume>(v2, "tls"@, tls, "logs"@);
    let v3 = with_tls_volume(v2, tls_secret);
    assert(current::<Volume>(v3, "data"@) == data);
    lemma_put_found::<Volume>(v3, "data"@, data);
    assert(with_data_volume(v3, pvc) == v3);
    assert(current::<Volume>(v3, "logs"@) == logs);
    lemma_put_found::<Volume>(v3, "logs"@, logs);
    assert(with_logs_volume(v3) == v3);
    assert(current::<Volume>(v3, "tls"@) == tls);
    lemma_put_found::<Volume>(v3, "tls"@, tls);
}

/// The desired state of the pod is its own desired state.
pub proof fn lemma_desired_pod_twice(
    service_account: Seq<char>,
    tls_secret: Seq<char>,
    pvc: Seq<char>,
    base: PodSpecView,
)
    ensures
        desired_pod(
            service_account,
            tls_secret,
            pvc,
            desired_pod(service_account, tls_secret, pvc, base),
        ) == desired_pod(service_account, tls_secret, pvc, base),
{
    lemma_with_download_twice(base.init_containers);
    lemma_with_containers_twice(base.containers);
    lemma_with_volumes_twice(base.volumes, pvc, tls_secret);
}

/// The desired state of a child is its own desired state: bringing a child to
/// its desired state twice is the same as doing it once.
pub proof fn lemma_desired_twice(parent: MinecraftView, base: ChildObjectView)
    requires
        parent.metadata.name is Some,
    ensures
        desired(parent, base) matches Ok(child) ==> desired(parent, child) == Ok::<
            ChildObjectView,
            ReconcileErrorView,
        >(child),
{
    match base {
        ChildObjectView::ServiceAccount(b) => {},
        ChildObjectView::PersistentVolumeClaim(b) => {
            lemma_with_resource_twice(b.resources, "storage"@, Some("1Gi"@), None);
        },
        ChildObjectView::Deployment(b) => {
            let name = parent.name();
            lemma_desired_pod_twice(
                child_name(name, ROLE_SERVER@),
                child_name(name, ROLE_TLS_SECRET@),
                child_name(name, ROLE_DATA@),
                b.template,
            );
        },
        ChildObjectView::Service(b) => {
            if desired(parent, base) is Ok {
                let child = desired(parent, base)->Ok_0->Service_0;
                let again = desired(parent, ChildObjectView::Service(child))->Ok_0->Service_0;
                assert(again.metadata.annotations =~= child.metadata.annotations);
            }
        },
        ChildObjectView::Route(b) => {},
    }
}

/// A child that the cluster holds in its desired state is left alone: the plan
/// for it writes nothing.
pub proof fn lemma_settled_child_is_unchanged(
    parent: MinecraftView,
    kind: ChildKind,
    existing: Option<ChildObjectView>,
)
    requires
        parent.metadata.name is Some,
    ensures
        planned(parent, kind, existing) matches Ok(plan) ==> planned(
            parent,
            kind,
            Some(plan.resource()),
        ) == Ok::<PlanView, ReconcileErrorView>(PlanView::Unchanged(plan.resource())),
{
    let base = base_of(parent, kind, existing);
    lemma_desired_twice(parent, base);
    lemma_ownership(parent, base);
}

} // verus!
