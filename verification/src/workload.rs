//! The desired state of the deployment that runs the server.
//!
//! The pod has one init container, which fetches the server artifact into the
//! data volume and accepts the EULA, and two running containers: the game server
//! and the sidecar that terminates TLS in front of it. There is always exactly
//! one pod, and a new pod starts only after the old one is gone, because two
//! servers must never write the same save data.

use crate::crd::{Minecraft, MinecraftView};
use crate::error::{outcome, ReconcileError, ReconcileErrorView};
use crate::named::{current, current_item, put, put_item};
use crate::ownership::{stamp_owner, stamped};
use crate::pod::{
    Container, ContainerPort, ContainerPortView, ContainerView, IntOrString, IntOrStringView,
    PodSpecView, Probe, ProbeView, Volume, VolumeMount, VolumeMountView, VolumeView,
};
use crate::resources::{Deployment, DeploymentView};
use crate::text::text;
use crate::topology::{
    selector, selector_labels, set_resources, with_resource, GAME_PORT, TLS_PORT, TLS_PORT_NAME,
};
use vstd::prelude::*;

verus! {

/// Image of the init container.
pub const DOWNLOAD_IMAGE: &'static str = "registry.access.redhat.com/ubi8-minimal";

/// Image of the game server and of the TLS sidecar.
pub const SERVER_IMAGE: &'static str = "docker.io/ctron/minecraft-base:latest";

/// What the init container runs: fetch the server artifact unless it is there
/// already, then accept the EULA. Running it again does no harm.
pub const DOWNLOAD_SCRIPT: &'static str =
    "\nmkdir -p /data/server\ntest -f /data/server/server.jar || curl https://launcher.mojang.com/v1/objects/a412fd69db1f81db3f511c1463fd304675244077/server.jar -Ls -o /data/server/server.jar\necho \"eula=true\" > /data/eula.txt \n                                    ";

/// A TCP probe that first runs after thirty seconds and then every ten.
pub open spec fn tcp_probe(port: i32, timeout: i32, failures: i32) -> ProbeView {
    ProbeView {
        initial_delay_seconds: Some(30),
        period_seconds: Some(10),
        timeout_seconds: Some(timeout),
        failure_threshold: Some(failures),
        tcp_socket: Some(IntOrStringView::Int(port)),
    }
}

/// The readiness probe of a container that listens on `port`: a check fails
/// after one second, and three failures in a row take the container out of
/// service.
pub open spec fn readiness_probe(port: i32) -> ProbeView {
    tcp_probe(port, 1, 3)
}

/// The liveness probe of a container that listens on `port`: a check fails
/// after three seconds, and five failures in a row restart the container.
pub open spec fn liveness_probe(port: i32) -> ProbeView {
    tcp_probe(port, 3, 5)
}

/// The mounts of a container once the volume `name` is mounted at `path`.
pub open spec fn with_mount(
    mounts: Seq<VolumeMountView>,
    name: Seq<char>,
    path: Seq<char>,
    read_only: bool,
) -> Seq<VolumeMountView> {
    put::<VolumeMount>(
        mounts,
        name,
        VolumeMountView {
            mount_path: path,
            read_only: Some(read_only),
            ..current::<VolumeMount>(mounts, name)
        },
    )
}

/// The ports of a container once the port `name` has the given number and
/// protocol.
pub open spec fn with_port(
    ports: Seq<ContainerPortView>,
    name: Seq<char>,
    number: i32,
    protocol: Option<Seq<char>>,
) -> Seq<ContainerPortView> {
    put::<ContainerPort>(
        ports,
        name,
        ContainerPortView {
            container_port: number,
            protocol,
            ..current::<ContainerPort>(ports, name)
        },
    )
}

/// The command line of the init container.
pub open spec fn download_command() -> Seq<Seq<char>> {
    seq!["bash"@, "-c"@, DOWNLOAD_SCRIPT@]
}

/// The command line of the game server.
pub open spec fn server_command() -> Seq<Seq<char>> {
    seq![
        "java"@,
        "-XX:+PrintFlagsFinal"@,
        "-jar"@,
        "/data/server/server.jar"@,
        "--nogui"@,
        "--port"@,
        "1337"@,
    ]
}

/// The command line of the TLS sidecar.
pub open spec fn tls_command() -> Seq<Seq<char>> {
    seq!["stunnel"@, "/etc/mctunnel.conf"@]
}

/// The init container as it should be.
pub open spec fn download_container(base: ContainerView) -> ContainerView {
    ContainerView {
        image: Some(DOWNLOAD_IMAGE@),
        command: download_command(),
        volume_mounts: with_mount(base.volume_mounts, "data"@, "/data"@, false),
        ..base
    }
}

/// The game server's container as it should be.
pub open spec fn server_container(base: ContainerView) -> ContainerView {
    ContainerView {
        image: Some(SERVER_IMAGE@),
        resources: with_resource(base.resources, "memory"@, Some("2Gi"@), Some("2Gi"@)),
        working_dir: Some("/data"@),
        command: server_command(),
        volume_mounts: with_mount(
            with_mount(base.volume_mounts, "data"@, "/data"@, false),
            "logs"@,
            "/logs"@,
            false,
        ),
        readiness_probe: Some(readiness_probe(GAME_PORT)),
        liveness_probe: Some(liveness_probe(GAME_PORT)),
        ..base
    }
}

/// The TLS sidecar's container as it should be.
pub open spec fn tls_container(base: ContainerView) -> ContainerView {
    ContainerView {
        image: Some(SERVER_IMAGE@),
        resources: with_resource(base.resources, "memory"@, Some("64Mi"@), Some("64Mi"@)),
        command: tls_command(),
        ports: with_port(base.ports, TLS_PORT_NAME@, TLS_PORT, Some("TCP"@)),
        volume_mounts: with_mount(base.volume_mounts, "tls"@, "/etc/mc-tls"@, true),
        readiness_probe: Some(readiness_probe(TLS_PORT)),
        liveness_probe: Some(liveness_probe(TLS_PORT)),
        ..base
    }
}

/// The init containers once the download step is as it should be.
pub open spec fn with_download(containers: Seq<ContainerView>) -> Seq<ContainerView> {
    put::<Container>(
        containers,
        "download"@,
        download_container(current::<Container>(containers, "download"@)),
    )
}

/// The running containers once the game server is as it should be.
pub open spec fn with_server(containers: Seq<ContainerView>) -> Seq<ContainerView> {
    put::<Container>(
        containers,
        "server"@,
        server_container(current::<Container>(containers, "server"@)),
    )
}

/// The running containers once the TLS sidecar is as it should be.
pub open spec fn with_tls(containers: Seq<ContainerView>) -> Seq<ContainerView> {
    put::<Container>(containers, "tls"@, tls_container(current::<Container>(containers, "tls"@)))
}

/// The volumes once `data` is backed by the claim called `pvc`.
pub open spec fn with_data_volume(volumes: Seq<VolumeView>, pvc: Seq<char>) -> Seq<VolumeView> {
    put::<Volume>(
        volumes,
        "data"@,
        VolumeView {
            claim_name: Some(pvc),
            claim_read_only: Some(false),
            ..current::<Volume>(volumes, "data"@)
        },
    )
}

/// The volumes once `logs` is scratch space.
pub open spec fn with_logs_volume(volumes: Seq<VolumeView>) -> Seq<VolumeView> {
    put::<Volume>(
        volumes,
        "logs"@,
        VolumeView { empty_dir: true, ..current::<Volume>(volumes, "logs"@) },
    )
}

/// The volumes once `tls` is filled from the secret called `tls_secret`.
pub open spec fn with_tls_volume(volumes: Seq<VolumeView>, tls_secret: Seq<char>) -> Seq<
    VolumeView,
> {
    put::<Volume>(
        volumes,
        "tls"@,
        VolumeView { secret_name: Some(tls_secret), ..current::<Volume>(volumes, "tls"@) },
    )
}

/// The pod as it should be.
pub open spec fn desired_pod(
    service_account: Seq<char>,
    tls_secret: Seq<char>,
    pvc: Seq<char>,
    base: PodSpecView,
) -> PodSpecView {
    PodSpecView {
        service_account: Some(service_account),
        init_containers: with_download(base.init_containers),
        containers: with_tls(with_server(base.containers)),
        volumes: with_tls_volume(
            with_logs_volume(with_data_volume(base.volumes, pvc)),
            tls_secret,
        ),
    }
}

/// The deployment as it should be: owned by the parent, one replica that is
/// recreated rather than rolled, selecting and labelling its pods by the
/// server's labels, and running the desired pod.
pub open spec fn desired_deployment(
    parent: MinecraftView,
    service_account: Seq<char>,
    tls_secret: Seq<char>,
    pvc: Seq<char>,
    base: DeploymentView,
) -> Result<DeploymentView, ReconcileErrorView>
    recommends
        parent.metadata.name is Some,
{
    match stamped(base.metadata, parent) {
        Ok(metadata) => Ok(
            DeploymentView {
                metadata,
                replicas: Some(1),
                selector: selector_labels(parent.name()),
                strategy: Some("Recreate"@),
                template_labels: selector_labels(parent.name()),
                template: desired_pod(service_account, tls_secret, pvc, base.template),
            },
        ),
        Err(error) => Err(error),
    }
}

/// A TCP probe that first runs after thirty seconds and then every ten.
fn probe(port: i32, timeout: i32, failures: i32) -> (r: Probe)
    ensures
        r@ == tcp_probe(port, timeout, failures),
{
    Probe {
        initial_delay_seconds: Some(30),
        period_seconds: Some(10),
        timeout_seconds: Some(timeout),
        failure_threshold: Some(failures),
        tcp_socket: Some(IntOrString::Int(port)),
    }
}

/// Mounts the volume `name` at `path`.
fn apply_volume_mount(mounts: &mut Vec<VolumeMount>, name: &str, path: &str, read_only: bool)
    ensures
        final(mounts).deep_view() == with_mount(old(mounts).deep_view(), name@, path@, read_only),
{
    let mut mount = current_item(mounts, name);
    mount.mount_path = text(path);
    mount.read_only = Some(read_only);
    put_item(mounts, name, mount);
}

/// Gives the port `name` its number and protocol.
fn add_port(ports: &mut Vec<ContainerPort>, name: &str, number: i32, protocol: Option<String>)
    ensures
        final(ports).deep_view() == with_port(
            old(ports).deep_view(),
            name@,
            number,
            protocol.deep_view(),
        ),
{
    let mut port = current_item(ports, name);
    port.container_port = number;
    port.protocol = protocol;
    put_item(ports, name, port);
}

/// Brings the init container to its desired state.
fn apply_download(containers: &mut Vec<Container>)
    ensures
        final(containers).deep_view() == with_download(old(containers).deep_view()),
{
    let mut container = current_item(containers, "download");
    container.image = Some(text(DOWNLOAD_IMAGE));
    container.command = vec![text("bash"), text("-c"), text(DOWNLOAD_SCRIPT)];
    assert(container.command.deep_view() =~= download_command());
    apply_volume_mount(&mut container.volume_mounts, "data", "/data", false);
    put_item(containers, "download", container);
}

/// Brings the game server's container to its desired state.
fn apply_server(containers: &mut Vec<Container>)
    ensures
        final(containers).deep_view() == with_server(old(containers).deep_view()),
{
    let mut container = current_item(containers, "server");
    container.image = Some(text(SERVER_IMAGE));
    set_resources(&mut container.resources, "memory", Some("2Gi"), Some("2Gi"));
    container.working_dir = Some(text("/data"));
    container.command = vec![
        text("java"),
        text("-XX:+PrintFlagsFinal"),
        text("-jar"),
        text("/data/server/server.jar"),
        text("--nogui"),
        text("--port"),
        text("1337"),
    ];
    assert(container.command.deep_view() =~= server_command());
    apply_volume_mount(&mut container.volume_mounts, "data", "/data", false);
    apply_volume_mount(&mut container.volume_mounts, "logs", "/logs", false);
    container.readiness_probe = Some(probe(GAME_PORT, 1, 3));
    container.liveness_probe = Some(probe(GAME_PORT, 3, 5));
    put_item(containers, "server", container);
}

/// Brings the TLS sidecar's container to its desired state.
fn apply_tls(containers: &mut Vec<Container>)
    ensures
        final(containers).deep_view() == with_tls(old(containers).deep_view()),
{
    let mut container = current_item(containers, "tls");
    container.image = Some(text(SERVER_IMAGE));
    set_resources(&mut container.resources, "memory", Some("64Mi"), Some("64Mi"));
    container.command = vec![text("stunnel"), text("/etc/mctunnel.conf")];
    assert(container.command.deep_view() =~= tls_command());
    add_port(&mut container.ports, TLS_PORT_NAME, TLS_PORT, Some(text("TCP")));
    apply_volume_mount(&mut container.volume_mounts, "tls", "/etc/mc-tls", true);
    container.readiness_probe = Some(probe(TLS_PORT, 1, 3));
    container.liveness_probe = Some(probe(TLS_PORT, 3, 5));
    put_item(containers, "tls", container);
}

/// Brings the three volumes of the pod to their desired state.
fn apply_volumes(volumes: &mut Vec<Volume>, tls_secret: String, pvc: String)
    ensures
        final(volumes).deep_view() == with_tls_volume(
            with_logs_volume(with_data_volume(old(volumes).deep_view(), pvc@)),
            tls_secret@,
        ),
{
    let mut data = current_item(volumes, "data");
    data.claim_name = Some(pvc);
    data.claim_read_only = Some(false);
    put_item(volumes, "data", data);
    let mut logs = current_item(volumes, "logs");
    logs.empty_dir = true;
    put_item(volumes, "logs", logs);
    let mut tls = current_item(volumes, "tls");
    tls.secret_name = Some(tls_secret);
    put_item(volumes, "tls", tls);
}

/// Brings the deployment that runs the server to its desired state.
///
/// `service_account`, `tls_secret` and `pvc` are the names of the siblings that
/// the pod refers to. Fails where the parent has no unique identifier.
pub fn deploy_server(
    minecraft: &Minecraft,
    service_account: String,
    tls_secret: String,
    pvc: String,
    base: Deployment,
) -> (r: Result<Deployment, ReconcileError>)
    requires
        minecraft@.metadata.name is Some,
    ensures
        outcome(r) == desired_deployment(
            minecraft@,
            service_account@,
            tls_secret@,
            pvc@,
            base@,
        ),
{
    let mut deployment = base;
    stamp_owner(&mut deployment.metadata, minecraft)?;
    // there is only ever one server
    deployment.replicas = Some(1);
    deployment.selector = selector(minecraft);
    deployment.strategy = Some(text("Recreate"));
    deployment.template_labels = selector(minecraft);
    deployment.template.service_account = Some(service_account);
    apply_download(&mut deployment.template.init_containers);
    apply_server(&mut deployment.template.containers);
    apply_tls(&mut deployment.template.containers);
    apply_volumes(&mut deployment.template.volumes, tls_secret, pvc);
    Ok(deployment)
}

} // verus!
