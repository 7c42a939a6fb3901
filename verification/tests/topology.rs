use minecraft_operator::crd::{Minecraft, MinecraftSpec};
use minecraft_operator::error::ReconcileError;
use minecraft_operator::meta::{ObjectMeta, OwnerReference};
use minecraft_operator::named::{current_item, put_item};
use minecraft_operator::ownership::stamp_owner;
use minecraft_operator::pod::{
    Container, ContainerPort, IntOrString, Probe, ResourceRequirements, Volume, VolumeMount,
};
use minecraft_operator::resources::{
    ChildKind, ChildObject, Deployment, PersistentVolumeClaim, Route, Service, ServiceAccount,
    ServicePort,
};
use minecraft_operator::string_map::StringMap;
use minecraft_operator::sync::{create_or_update, mutate, role, Plan};
use minecraft_operator::topology::{
    persistent_volume_claim, resource_name, route, selector, service, service_account,
    set_resources, KUBERNETES_LABEL_COMPONENT, KUBERNETES_LABEL_INSTANCE, KUBERNETES_LABEL_NAME,
};
use minecraft_operator::workload::{deploy_server, DOWNLOAD_SCRIPT};

fn parent(name: &str, namespace: &str, uid: Option<&str>) -> Minecraft {
    Minecraft {
        metadata: ObjectMeta {
            name: Some(name.to_string()),
            namespace: Some(namespace.to_string()),
            uid: uid.map(|u| u.to_string()),
            ..Default::default()
        },
        spec: MinecraftSpec {},
        status: None,
    }
}

fn owner(name: &str, uid: &str) -> OwnerReference {
    OwnerReference {
        api_version: "minecraft.dentrassi.de/v1alpha1".to_string(),
        kind: "Minecraft".to_string(),
        name: name.to_string(),
        uid: uid.to_string(),
        controller: Some(true),
        block_owner_deletion: Some(true),
    }
}

fn labels(name: &str) -> StringMap {
    StringMap::from_pairs(vec![
        ("app.kubernetes.io/name".to_string(), "server".to_string()),
        ("app.kubernetes.io/instance".to_string(), format!("server-{}", name)),
        ("app.kubernetes.io/component".to_string(), "server".to_string()),
    ])
}

fn probe(port: i32, timeout: i32, failures: i32) -> Probe {
    Probe {
        initial_delay_seconds: Some(30),
        period_seconds: Some(10),
        timeout_seconds: Some(timeout),
        failure_threshold: Some(failures),
        tcp_socket: Some(IntOrString::Int(port)),
    }
}

fn mount(name: &str, path: &str, read_only: bool) -> VolumeMount {
    VolumeMount { name: name.to_string(), mount_path: path.to_string(), read_only: Some(read_only) }
}

fn memory(amount: &str) -> ResourceRequirements {
    ResourceRequirements {
        requests: StringMap::from_pairs(vec![("memory".to_string(), amount.to_string())]),
        limits: StringMap::from_pairs(vec![("memory".to_string(), amount.to_string())]),
    }
}

fn built_deployment(p: &Minecraft, base: Deployment) -> Deployment {
    deploy_server(
        p,
        "p-server".to_string(),
        "p-minecraft-tls".to_string(),
        "p-data".to_string(),
        base,
    )
    .unwrap()
}

#[test]
fn child_names_are_parent_name_and_role() {
    let p = parent("p", "ns", Some("u1"));
    assert_eq!(resource_name(&p, "server"), "p-server");
    assert_eq!(resource_name(&p, "data"), "p-data");
    assert_eq!(resource_name(&p, "minecraft"), "p-minecraft");
    assert_eq!(resource_name(&p, "minecraft-tls"), "p-minecraft-tls");
    assert_eq!(resource_name(&p, role(ChildKind::ServiceAccount)), "p-server");
    assert_eq!(resource_name(&p, role(ChildKind::PersistentVolumeClaim)), "p-data");
    assert_eq!(resource_name(&p, role(ChildKind::Deployment)), "p-server");
    assert_eq!(resource_name(&p, role(ChildKind::Service)), "p-minecraft");
    assert_eq!(resource_name(&p, role(ChildKind::Route)), "p-minecraft");
    let other = parent("world-2", "ns", None);
    assert_eq!(resource_name(&other, "data"), "world-2-data");
    assert_eq!(resource_name(&other, "data"), resource_name(&other, "data"));
}

#[test]
fn selector_is_the_three_key_label_set() {
    let p = parent("p", "ns", Some("u1"));
    let s = selector(&p);
    assert_eq!(s.get(KUBERNETES_LABEL_NAME), Some("server".to_string()));
    assert_eq!(s.get(KUBERNETES_LABEL_INSTANCE), Some("server-p".to_string()));
    assert_eq!(s.get(KUBERNETES_LABEL_COMPONENT), Some("server".to_string()));
    assert_eq!(s.pairs().len(), 3);
    assert_eq!(s, labels("p"));
    assert_eq!(KUBERNETES_LABEL_NAME, "app.kubernetes.io/name");
    assert_eq!(KUBERNETES_LABEL_INSTANCE, "app.kubernetes.io/instance");
    assert_eq!(KUBERNETES_LABEL_COMPONENT, "app.kubernetes.io/component");
}

#[test]
fn stamp_owner_sets_exactly_one_controlling_owner() {
    let p = parent("p", "ns", Some("u1"));
    let mut meta = ObjectMeta::default();
    meta.name = Some("p-server".to_string());
    meta.owner_references = vec![owner("someone-else", "u9"), owner("another", "u8")];
    assert_eq!(stamp_owner(&mut meta, &p), Ok(()));
    assert_eq!(meta.owner_references, vec![owner("p", "u1")]);
    assert_eq!(meta.name, Some("p-server".to_string()));
    assert_eq!(meta.owner_references[0].controller, Some(true));
    assert_eq!(meta.owner_references[0].block_owner_deletion, Some(true));
}

#[test]
fn stamp_owner_fails_without_uid() {
    let p = parent("p", "ns", None);
    let mut meta = ObjectMeta::default();
    meta.owner_references = vec![owner("someone-else", "u9")];
    let before = meta.clone();
    assert_eq!(stamp_owner(&mut meta, &p), Err(ReconcileError::MissingUid));
    assert_eq!(meta, before);
}

#[test]
fn error_messages() {
    assert_eq!(ReconcileError::MissingUid.message(), "Missing UID");
    assert_eq!(ReconcileError::Api("boom".to_string()).message(), "boom");
    assert_eq!(ReconcileError::UnexpectedEvent.message(), "Unexpected event");
}

#[test]
fn service_account_is_owned_only() {
    let p = parent("p", "ns", Some("u1"));
    let mut base = ServiceAccount::default();
    base.metadata.name = Some("p-server".to_string());
    base.metadata.labels = StringMap::from_pairs(vec![("keep".to_string(), "me".to_string())]);
    let sa = service_account(&p, base.clone()).unwrap();
    let mut expected = base;
    expected.metadata.owner_references = vec![owner("p", "u1")];
    assert_eq!(sa, expected);
    assert_eq!(
        service_account(&parent("p", "ns", None), ServiceAccount::default()),
        Err(ReconcileError::MissingUid)
    );
}

#[test]
fn claim_asks_for_one_gibibyte_single_writer_no_limit() {
    let p = parent("p", "ns", Some("u1"));
    let mut base = PersistentVolumeClaim::default();
    base.access_modes = vec!["ReadOnlyMany".to_string()];
    base.resources.limits =
        StringMap::from_pairs(vec![("storage".to_string(), "5Gi".to_string())]);
    base.resources.requests =
        StringMap::from_pairs(vec![("storage".to_string(), "2Gi".to_string())]);
    let pvc = persistent_volume_claim(&p, base).unwrap();
    assert_eq!(pvc.access_modes, vec!["ReadWriteOnce".to_string()]);
    assert_eq!(pvc.resources.requests.get("storage"), Some("1Gi".to_string()));
    assert_eq!(pvc.resources.limits.get("storage"), None);
    assert_eq!(pvc.metadata.owner_references, vec![owner("p", "u1")]);
}

#[test]
fn set_resources_binds_and_unbinds() {
    let mut r = ResourceRequirements::default();
    set_resources(&mut r, "memory", Some("2Gi"), Some("3Gi"));
    assert_eq!(r.requests.get("memory"), Some("2Gi".to_string()));
    assert_eq!(r.limits.get("memory"), Some("3Gi".to_string()));
    set_resources(&mut r, "cpu", Some("1"), None);
    assert_eq!(r.requests.get("cpu"), Some("1".to_string()));
    assert_eq!(r.limits.get("cpu"), None);
    set_resources(&mut r, "memory", None, Some("4Gi"));
    assert_eq!(r.requests.get("memory"), None);
    assert_eq!(r.limits.get("memory"), Some("4Gi".to_string()));
    assert_eq!(r.requests.get("cpu"), Some("1".to_string()));
}

#[test]
fn service_targets_the_tls_port_of_the_pods() {
    let p = parent("p", "ns", Some("u1"));
    let mut base = Service::default();
    base.metadata.annotations = StringMap::from_pairs(vec![("keep".to_string(), "me".to_string())]);
    let s = service(&p, "p-minecraft-tls", base).unwrap();
    assert_eq!(s.type_, Some("ClusterIP".to_string()));
    assert_eq!(
        s.ports,
        vec![ServicePort {
            name: Some("mc-tls".to_string()),
            port: 11337,
            protocol: Some("TCP".to_string()),
            target_port: Some(IntOrString::String("mc-tls".to_string())),
        }]
    );
    assert_eq!(s.selector, labels("p"));
    assert_eq!(
        s.metadata.annotations.get("service.beta.openshift.io/serving-cert-secret-name"),
        Some("p-minecraft-tls".to_string())
    );
    assert_eq!(s.metadata.annotations.get("keep"), Some("me".to_string()));
    assert_eq!(s.metadata.owner_references, vec![owner("p", "u1")]);
}

#[test]
fn route_passes_tls_through_to_the_service() {
    let p = parent("p", "ns", Some("u1"));
    let r = route(&p, "p-minecraft", Route::default()).unwrap();
    let mut expected = Route::default();
    expected.metadata.owner_references = vec![owner("p", "u1")];
    expected.termination = Some("Passthrough".to_string());
    expected.insecure_edge_termination_policy = Some("None".to_string());
    expected.target_port = Some(IntOrString::String("mc-tls".to_string()));
    expected.to_kind = "Service".to_string();
    expected.to_name = "p-minecraft".to_string();
    expected.to_weight = 100;
    assert_eq!(r, expected);
}

#[test]
fn deployment_from_nothing() {
    let p = parent("p", "ns", Some("u1"));
    let d = built_deployment(&p, Deployment::default());
    assert_eq!(d.replicas, Some(1));
    assert_eq!(d.strategy, Some("Recreate".to_string()));
    assert_eq!(d.selector, labels("p"));
    assert_eq!(d.template_labels, labels("p"));
    assert_eq!(d.metadata.owner_references, vec![owner("p", "u1")]);
    assert_eq!(d.template.service_account, Some("p-server".to_string()));

    assert_eq!(
        d.template.init_containers,
        vec![Container {
            name: "download".to_string(),
            image: Some("registry.access.redhat.com/ubi8-minimal".to_string()),
            command: vec!["bash".to_string(), "-c".to_string(), DOWNLOAD_SCRIPT.to_string()],
            volume_mounts: vec![mount("data", "/data", false)],
            ..Default::default()
        }]
    );
    assert_eq!(
        d.template.containers,
        vec![
            Container {
                name: "server".to_string(),
                image: Some("docker.io/ctron/minecraft-base:latest".to_string()),
                command: vec![
                    "java".to_string(),
                    "-XX:+PrintFlagsFinal".to_string(),
                    "-jar".to_string(),
                    "/data/server/server.jar".to_string(),
                    "--nogui".to_string(),
                    "--port".to_string(),
                    "1337".to_string(),
                ],
                working_dir: Some("/data".to_string()),
                resources: memory("2Gi"),
                ports: vec![],
                volume_mounts: vec![mount("data", "/data", false), mount("logs", "/logs", false)],
                readiness_probe: Some(probe(1337, 1, 3)),
                liveness_probe: Some(probe(1337, 3, 5)),
            },
            Container {
                name: "tls".to_string(),
                image: Some("docker.io/ctron/minecraft-base:latest".to_string()),
                command: vec!["stunnel".to_string(), "/etc/mctunnel.conf".to_string()],
                working_dir: None,
                resources: memory("64Mi"),
                ports: vec![ContainerPort {
                    name: Some("mc-tls".to_string()),
                    container_port: 11337,
                    protocol: Some("TCP".to_string()),
                }],
                volume_mounts: vec![mount("tls", "/etc/mc-tls", true)],
                readiness_probe: Some(probe(11337, 1, 3)),
                liveness_probe: Some(probe(11337, 3, 5)),
            },
        ]
    );
    assert_eq!(
        d.template.volumes,
        vec![
            Volume {
                name: "data".to_string(),
                claim_name: Some("p-data".to_string()),
                claim_read_only: Some(false),
                empty_dir: false,
                secret_name: None,
            },
            Volume {
                name: "logs".to_string(),
                claim_name: None,
                claim_read_only: None,
                empty_dir: true,
                secret_name: None,
            },
            Volume {
                name: "tls".to_string(),
                claim_name: None,
                claim_read_only: None,
                empty_dir: false,
                secret_name: Some("p-minecraft-tls".to_string()),
            },
        ]
    );
}

#[test]
fn download_script_fetches_the_artifact_and_accepts_the_eula() {
    assert!(DOWNLOAD_SCRIPT.starts_with("\nmkdir -p /data/server\n"));
    assert!(DOWNLOAD_SCRIPT.contains(
        "test -f /data/server/server.jar || curl https://launcher.mojang.com/v1/objects/a412fd69db1f81db3f511c1463fd304675244077/server.jar -Ls -o /data/server/server.jar\n"
    ));
    assert!(DOWNLOAD_SCRIPT.contains("echo \"eula=true\" > /data/eula.txt \n"));
    assert_eq!(DOWNLOAD_SCRIPT.len(), 256);
}

#[test]
fn probe_policy_holds_whatever_was_found() {
    let p = parent("p", "ns", Some("u1"));
    let mut base = Deployment::default();
    base.replicas = Some(7);
    base.template.containers = vec![
        Container {
            name: "tls".to_string(),
            readiness_probe: Some(probe(1, 9, 9)),
            liveness_probe: None,
            ..Default::default()
        },
        Container { name: "extra".to_string(), ..Default::default() },
        Container {
            name: "server".to_string(),
            readiness_probe: Some(probe(2, 8, 8)),
            liveness_probe: Some(probe(3, 7, 7)),
            ..Default::default()
        },
    ];
    let d = built_deployment(&p, base);
    assert_eq!(d.replicas, Some(1));
    assert_eq!(d.template.containers.len(), 3);
    let tls = &d.template.containers[0];
    let extra = &d.template.containers[1];
    let server = &d.template.containers[2];
    assert_eq!(tls.name, "tls");
    assert_eq!(server.name, "server");
    assert_eq!(*extra, Container { name: "extra".to_string(), ..Default::default() });
    let ready = server.readiness_probe.as_ref().unwrap();
    assert_eq!(ready.initial_delay_seconds, Some(30));
    assert_eq!(ready.period_seconds, Some(10));
    assert_eq!(ready.timeout_seconds, Some(1));
    assert_eq!(ready.failure_threshold, Some(3));
    assert_eq!(ready.tcp_socket, Some(IntOrString::Int(1337)));
    let live = server.liveness_probe.as_ref().unwrap();
    assert_eq!(live.initial_delay_seconds, Some(30));
    assert_eq!(live.period_seconds, Some(10));
    assert_eq!(live.timeout_seconds, Some(3));
    assert_eq!(live.failure_threshold, Some(5));
    assert_eq!(live.tcp_socket, Some(IntOrString::Int(1337)));
    assert_eq!(tls.readiness_probe, Some(probe(11337, 1, 3)));
    assert_eq!(tls.liveness_probe, Some(probe(11337, 3, 5)));
}

#[test]
fn what_the_desired_state_does_not_speak_of_is_kept() {
    let p = parent("p", "ns", Some("u1"));
    let mut base = Deployment::default();
    base.metadata.labels = StringMap::from_pairs(vec![("team".to_string(), "games".to_string())]);
    let mut server = Container { name: "server".to_string(), ..Default::default() };
    server.resources.limits = StringMap::from_pairs(vec![
        ("cpu".to_string(), "2".to_string()),
        ("memory".to_string(), "1Gi".to_string()),
    ]);
    server.volume_mounts = vec![mount("cache", "/cache", true), mount("data", "/old", true)];
    server.ports = vec![ContainerPort {
        name: Some("game".to_string()),
        container_port: 1337,
        protocol: None,
    }];
    base.template.containers = vec![server];
    base.template.volumes = vec![Volume {
        name: "cache".to_string(),
        empty_dir: true,
        ..Default::default()
    }];
    let d = built_deployment(&p, base);
    assert_eq!(d.metadata.labels.get("team"), Some("games".to_string()));
    let server = &d.template.containers[0];
    assert_eq!(server.resources.limits.get("cpu"), Some("2".to_string()));
    assert_eq!(server.resources.limits.get("memory"), Some("2Gi".to_string()));
    assert_eq!(server.resources.requests.get("memory"), Some("2Gi".to_string()));
    assert_eq!(
        server.volume_mounts,
        vec![mount("cache", "/cache", true), mount("data", "/data", false), mount("logs", "/logs", false)]
    );
    assert_eq!(server.ports.len(), 1);
    assert_eq!(d.template.containers.len(), 2);
    assert_eq!(d.template.containers[1].name, "tls");
    assert_eq!(d.template.volumes.len(), 4);
    assert_eq!(d.template.volumes[0].name, "cache");
    assert_eq!(d.template.volumes[1].name, "data");
}

#[test]
fn desired_state_is_its_own_desired_state() {
    let p = parent("p", "ns", Some("u1"));
    for kind in [
        ChildKind::ServiceAccount,
        ChildKind::PersistentVolumeClaim,
        ChildKind::Deployment,
        ChildKind::Service,
        ChildKind::Route,
    ] {
        let blank = ChildObject::blank(kind, Some("ns".to_string()), "n".to_string());
        let once = mutate(&p, blank).unwrap();
        let twice = mutate(&p, once.clone()).unwrap();
        assert_eq!(once, twice);
        assert_eq!(once.kind(), kind);
        assert_eq!(once.metadata().owner_references, vec![owner("p", "u1")]);
    }
}

#[test]
fn plan_creates_replaces_or_leaves_alone() {
    let p = parent("p", "ns", Some("u1"));
    let created = match create_or_update(&p, ChildKind::Service, None).unwrap() {
        Plan::Create(object) => object,
        other => panic!("expected a create, got {:?}", other),
    };
    assert_eq!(created.kind(), ChildKind::Service);
    assert_eq!(created.metadata().name, Some("p-minecraft".to_string()));
    assert_eq!(created.metadata().namespace, Some("ns".to_string()));

    match create_or_update(&p, ChildKind::Service, Some(created.clone())).unwrap() {
        Plan::Unchanged(object) => assert_eq!(object, created),
        other => panic!("expected no change, got {:?}", other),
    }

    let mut drifted = match created.clone() {
        ChildObject::Service(s) => s,
        _ => unreachable!(),
    };
    drifted.type_ = Some("NodePort".to_string());
    match create_or_update(&p, ChildKind::Service, Some(ChildObject::Service(drifted))).unwrap() {
        Plan::Replace(object) => assert_eq!(object, created),
        other => panic!("expected a replace, got {:?}", other),
    }

    assert_eq!(
        create_or_update(&p, ChildKind::Route, Some(created)).unwrap_err(),
        ReconcileError::UnexpectedEvent
    );
    assert_eq!(
        create_or_update(&parent("p", "ns", None), ChildKind::Route, None).unwrap_err(),
        ReconcileError::MissingUid
    );
}

#[test]
fn named_lists_update_in_place_or_append() {
    let mut mounts = vec![mount("a", "/a", false), mount("b", "/b", false), mount("a", "/x", true)];
    let found = current_item(&mounts, "a");
    assert_eq!(found, mount("a", "/a", false));
    let fresh: VolumeMount = current_item(&mounts, "c");
    assert_eq!(fresh, VolumeMount { name: "c".to_string(), ..Default::default() });
    put_item(&mut mounts, "a", mount("a", "/new", true));
    assert_eq!(
        mounts,
        vec![mount("a", "/new", true), mount("b", "/b", false), mount("a", "/x", true)]
    );
    put_item(&mut mounts, "c", mount("c", "/c", false));
    assert_eq!(mounts.len(), 4);
    assert_eq!(mounts[3], mount("c", "/c", false));
}
