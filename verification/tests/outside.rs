use std::collections::BTreeMap;

use k8s_openapi::api;
use k8s_openapi::api::apps::v1::{Deployment as KDeployment, DeploymentStrategy};
use k8s_openapi::apimachinery::pkg::api::resource::Quantity;
use k8s_openapi::apimachinery::pkg::apis::meta::v1::{LabelSelector, ObjectMeta as KObjectMeta};
use k8s_openapi::apimachinery::pkg::util::intstr::IntOrString as KIntOrString;
use operator_framework::install::container::{
    ApplyContainer, ApplyPort, ApplyVolume, ApplyVolumeMount, SetResources,
};
use operator_framework::utils::UseOrCreate;

use minecraft_operator::crd::{Minecraft, MinecraftSpec};
use minecraft_operator::meta::ObjectMeta;
use minecraft_operator::pod::{
    Container, ContainerPort, IntOrString, PodSpec, Probe, ResourceRequirements, Volume,
    VolumeMount,
};
use minecraft_operator::resources::Deployment;
use minecraft_operator::string_map::StringMap;
use minecraft_operator::topology::set_resources;
use minecraft_operator::workload::{deploy_server, DOWNLOAD_SCRIPT};

type KContainer = api::core::v1::Container;
type KContainerPort = api::core::v1::ContainerPort;
type EmptyDirVolumeSource = api::core::v1::EmptyDirVolumeSource;
type PersistentVolumeClaimVolumeSource = api::core::v1::PersistentVolumeClaimVolumeSource;
type KPodSpec = api::core::v1::PodSpec;
type KProbe = api::core::v1::Probe;
type KResourceRequirements = api::core::v1::ResourceRequirements;
type SecretVolumeSource = api::core::v1::SecretVolumeSource;
type TCPSocketAction = api::core::v1::TCPSocketAction;
type KVolume = api::core::v1::Volume;
type KVolumeMount = api::core::v1::VolumeMount;

fn parent(name: &str) -> Minecraft {
    Minecraft {
        metadata: ObjectMeta {
            name: Some(name.to_string()),
            namespace: Some("ns".to_string()),
            uid: Some("u1".to_string()),
            ..Default::default()
        },
        spec: MinecraftSpec {},
        status: None,
    }
}

fn selector(prefix: &str) -> BTreeMap<String, String> {
    let mut selector = BTreeMap::new();
    selector.insert("app.kubernetes.io/name".to_string(), "server".to_string());
    selector.insert("app.kubernetes.io/instance".to_string(), format!("server-{}", prefix));
    selector.insert("app.kubernetes.io/component".to_string(), "server".to_string());
    selector
}

fn k_probe(port: i32, timeout: i32, failures: i32) -> KProbe {
    KProbe {
        initial_delay_seconds: Some(30),
        period_seconds: Some(10),
        timeout_seconds: Some(timeout),
        failure_threshold: Some(failures),
        tcp_socket: Some(TCPSocketAction { port: KIntOrString::Int(port), ..Default::default() }),
        ..Default::default()
    }
}

/// The deployment as the cluster's own helpers build it.
fn with_helpers(
    prefix: &str,
    service_account: String,
    tls_secret: String,
    pvc: String,
    mut deployment: KDeployment,
) -> KDeployment {
    deployment
        .spec
        .use_or_create_err(|spec| {
            spec.replicas = Some(1);
            let selector = selector(prefix);
            spec.selector = LabelSelector {
                match_labels: Some(selector.clone()),
                ..Default::default()
            };
            spec.strategy = Some(DeploymentStrategy {
                type_: Some("Recreate".to_string()),
                ..Default::default()
            });
            spec.template.metadata = Some(KObjectMeta {
                labels: Some(selector.clone()),
                ..Default::default()
            });
            spec.template.spec.use_or_create_err(|pod_spec| {
                pod_spec.service_account = Some(service_account);
                pod_spec.init_containers.apply_container("download", |container| {
                    container.image = Some("registry.access.redhat.com/ubi8-minimal".to_string());
                    container.command = Some(vec![
                        "bash".to_string(),
                        "-c".to_string(),
                        DOWNLOAD_SCRIPT.to_string(),
                    ]);
                    container.apply_volume_mount("data", |v| {
                        v.mount_path = "/data".to_string();
                        v.read_only = Some(false);
                        Ok(())
                    })?;
                    Ok(())
                })?;
                pod_spec.containers.apply_container("server", |container| {
                    container.image = Some("docker.io/ctron/minecraft-base:latest".to_string());
                    container.resources.use_or_create(|res| {
                        res.set_resources("memory", Some("2Gi"), Some("2Gi"));
                    });
                    container.working_dir = Some("/data".to_string());
                    container.command = Some(
                        vec![
                            "java",
                            "-XX:+PrintFlagsFinal",
                            "-jar",
                            "/data/server/server.jar",
                            "--nogui",
                            "--port",
                            "1337",
                        ]
                        .iter()
                        .map(|s| s.to_string())
                        .collect(),
                    );
                    container.apply_volume_mount("data", |v| {
                        v.mount_path = "/data".to_string();
                        v.read_only = Some(false);
                        Ok(())
                    })?;
                    container.apply_volume_mount("logs", |v| {
                        v.mount_path = "/logs".to_string();
                        v.read_only = Some(false);
                        Ok(())
                    })?;
                    container.readiness_probe = Some(k_probe(1337, 1, 3));
                    container.liveness_probe = Some(k_probe(1337, 3, 5));
                    Ok(())
                })?;
                pod_spec.containers.apply_container("tls", |container| {
                    container.image = Some("docker.io/ctron/minecraft-base:latest".to_string());
                    container.resources.use_or_create(|res| {
                        res.set_resources("memory", Some("64Mi"), Some("64Mi"));
                    });
                    container.command =
                        Some(vec!["stunnel".to_string(), "/etc/mctunnel.conf".to_string()]);
                    container.add_port("mc-tls", 11337, Some("TCP".to_string()))?;
                    container.apply_volume_mount("tls", |mount| {
                        mount.mount_path = "/etc/mc-tls".to_string();
                        mount.read_only = Some(true);
                        Ok(())
                    })?;
                    container.readiness_probe = Some(k_probe(11337, 1, 3));
                    container.liveness_probe = Some(k_probe(11337, 3, 5));
                    Ok(())
                })?;
                pod_spec.apply_volume("data", |v| {
                    v.persistent_volume_claim = Some(PersistentVolumeClaimVolumeSource {
                        claim_name: pvc,
                        read_only: Some(false),
                    });
                    Ok(())
                })?;
                pod_spec.apply_volume("logs", |v| {
                    v.empty_dir = Some(EmptyDirVolumeSource { ..Default::default() });
                    Ok(())
                })?;
                pod_spec.apply_volume("tls", |v| {
                    v.secret = Some(SecretVolumeSource {
                        secret_name: Some(tls_secret),
                        ..Default::default()
                    });
                    Ok(())
                })?;
                Ok(())
            })?;
            Ok(())
        })
        .unwrap();
    deployment
}

fn map(m: &Option<BTreeMap<String, String>>) -> StringMap {
    StringMap::from_pairs(m.iter().flatten().map(|(k, v)| (k.clone(), v.clone())).collect())
}

fn quantities(m: &Option<BTreeMap<String, Quantity>>) -> StringMap {
    StringMap::from_pairs(m.iter().flatten().map(|(k, v)| (k.clone(), v.0.clone())).collect())
}

fn resources(r: &Option<KResourceRequirements>) -> ResourceRequirements {
    match r {
        None => ResourceRequirements::default(),
        Some(r) => ResourceRequirements {
            requests: quantities(&r.requests),
            limits: quantities(&r.limits),
        },
    }
}

fn probe(p: &KProbe) -> Probe {
    Probe {
        initial_delay_seconds: p.initial_delay_seconds,
        period_seconds: p.period_seconds,
        timeout_seconds: p.timeout_seconds,
        failure_threshold: p.failure_threshold,
        tcp_socket: p.tcp_socket.as_ref().map(|s| match &s.port {
            KIntOrString::Int(n) => IntOrString::Int(*n),
            KIntOrString::String(s) => IntOrString::String(s.clone()),
        }),
    }
}

fn container(c: &KContainer) -> Container {
    Container {
        name: c.name.clone(),
        image: c.image.clone(),
        command: c.command.clone().unwrap_or_default(),
        working_dir: c.working_dir.clone(),
        resources: resources(&c.resources),
        ports: c
            .ports
            .iter()
            .flatten()
            .map(|p| ContainerPort {
                name: p.name.clone(),
                container_port: p.container_port,
                protocol: p.protocol.clone(),
            })
            .collect(),
        volume_mounts: c
            .volume_mounts
            .iter()
            .flatten()
            .map(|v| VolumeMount {
                name: v.name.clone(),
                mount_path: v.mount_path.clone(),
                read_only: v.read_only,
            })
            .collect(),
        readiness_probe: c.readiness_probe.as_ref().map(probe),
        liveness_probe: c.liveness_probe.as_ref().map(probe),
    }
}

fn volume(v: &KVolume) -> Volume {
    Volume {
        name: v.name.clone(),
        claim_name: v.persistent_volume_claim.as_ref().map(|c| c.claim_name.clone()),
        claim_read_only: v.persistent_volume_claim.as_ref().and_then(|c| c.read_only),
        empty_dir: v.empty_dir.is_some(),
        secret_name: v.secret.as_ref().and_then(|s| s.secret_name.clone()),
    }
}

fn pod(p: &Option<KPodSpec>) -> PodSpec {
    match p {
        None => PodSpec::default(),
        Some(p) => PodSpec {
            service_account: p.service_account.clone(),
            init_containers: p.init_containers.iter().flatten().map(container).collect(),
            containers: p.containers.iter().map(container).collect(),
            volumes: p.volumes.iter().flatten().map(volume).collect(),
        },
    }
}

/// The plain data of a deployment, owners aside.
fn model(d: &KDeployment) -> Deployment {
    let spec = d.spec.as_ref();
    Deployment {
        metadata: ObjectMeta {
            name: d.metadata.name.clone(),
            namespace: d.metadata.namespace.clone(),
            uid: d.metadata.uid.clone(),
            labels: map(&d.metadata.labels),
            annotations: map(&d.metadata.annotations),
            owner_references: vec![],
        },
        replicas: spec.and_then(|s| s.replicas),
        selector: map(&spec.and_then(|s| s.selector.match_labels.clone())),
        strategy: spec.and_then(|s| s.strategy.as_ref()).and_then(|s| s.type_.clone()),
        template_labels: map(
            &spec.and_then(|s| s.template.metadata.as_ref()).and_then(|m| m.labels.clone()),
        ),
        template: pod(&spec.and_then(|s| s.template.spec.clone())),
    }
}

fn agree(base: KDeployment) {
    let p = parent("p");
    let expected = model(&with_helpers(
        "p",
        "p-server".to_string(),
        "p-minecraft-tls".to_string(),
        "p-data".to_string(),
        base.clone(),
    ));
    let mut built = deploy_server(
        &p,
        "p-server".to_string(),
        "p-minecraft-tls".to_string(),
        "p-data".to_string(),
        model(&base),
    )
    .unwrap();
    assert_eq!(built.metadata.owner_references.len(), 1);
    built.metadata.owner_references = vec![];
    assert_eq!(built, expected);
}

fn k_mount(name: &str, path: &str, read_only: Option<bool>) -> KVolumeMount {
    KVolumeMount {
        name: name.to_string(),
        mount_path: path.to_string(),
        read_only,
        ..Default::default()
    }
}

#[test]
fn deployment_agrees_with_the_helpers_from_nothing() {
    agree(KDeployment::default());
}

#[test]
fn deployment_agrees_with_the_helpers_on_a_found_deployment() {
    let mut base = KDeployment::default();
    base.metadata.name = Some("p-server".to_string());
    base.metadata.labels = Some(selector("someone"));
    let mut limits = BTreeMap::new();
    limits.insert("cpu".to_string(), Quantity("2".to_string()));
    limits.insert("memory".to_string(), Quantity("1Gi".to_string()));
    let spec = base.spec.get_or_insert_with(Default::default);
    spec.replicas = Some(4);
    spec.template.spec = Some(KPodSpec {
        service_account: Some("default".to_string()),
        init_containers: Some(vec![
            KContainer { name: "first".to_string(), ..Default::default() },
            KContainer {
                name: "download".to_string(),
                image: Some("old".to_string()),
                volume_mounts: Some(vec![
                    k_mount("other", "/other", None),
                    k_mount("data", "/elsewhere", Some(true)),
                    k_mount("data", "/twice", Some(true)),
                ]),
                ..Default::default()
            },
        ]),
        containers: vec![
            KContainer {
                name: "tls".to_string(),
                ports: Some(vec![
                    KContainerPort {
                        name: None,
                        container_port: 1,
                        ..Default::default()
                    },
                    KContainerPort {
                        name: Some("mc-tls".to_string()),
                        container_port: 2,
                        protocol: Some("UDP".to_string()),
                        ..Default::default()
                    },
                ]),
                ..Default::default()
            },
            KContainer { name: "sidecar".to_string(), ..Default::default() },
            KContainer {
                name: "server".to_string(),
                working_dir: Some("/tmp".to_string()),
                resources: Some(KResourceRequirements { limits: Some(limits), requests: None }),
                volume_mounts: Some(vec![k_mount("logs", "/var/log", Some(true))]),
                readiness_probe: Some(k_probe(1, 2, 3)),
                ..Default::default()
            },
            KContainer { name: "server".to_string(), ..Default::default() },
        ],
        volumes: Some(vec![
            KVolume {
                name: "tls".to_string(),
                empty_dir: Some(Default::default()),
                ..Default::default()
            },
            KVolume { name: "cache".to_string(), ..Default::default() },
            KVolume {
                name: "data".to_string(),
                secret: Some(SecretVolumeSource {
                    secret_name: Some("old".to_string()),
                    ..Default::default()
                }),
                ..Default::default()
            },
        ]),
        ..Default::default()
    });
    agree(base);
}

#[test]
fn deployment_agrees_with_the_helpers_on_its_own_result() {
    let once = with_helpers(
        "p",
        "p-server".to_string(),
        "p-minecraft-tls".to_string(),
        "p-data".to_string(),
        KDeployment::default(),
    );
    agree(once);
}

#[test]
fn set_resources_agrees_with_the_helper() {
    let mut requests = BTreeMap::new();
    requests.insert("storage".to_string(), Quantity("5Gi".to_string()));
    requests.insert("cpu".to_string(), Quantity("1".to_string()));
    let mut limits = BTreeMap::new();
    limits.insert("storage".to_string(), Quantity("9Gi".to_string()));
    for base in [
        KResourceRequirements::default(),
        KResourceRequirements { requests: Some(requests.clone()), limits: None },
        KResourceRequirements { requests: Some(requests), limits: Some(limits) },
    ] {
        for (request, limit) in
            [(Some("1Gi"), None), (None, Some("2Gi")), (Some("3Gi"), Some("4Gi")), (None, None)]
        {
            let mut expected = base.clone();
            expected.set_resources("storage", request, limit);
            let mut built = resources(&Some(base.clone()));
            set_resources(&mut built, "storage", request, limit);
            assert_eq!(built, resources(&Some(expected)));
        }
    }
}
