use std::collections::HashMap;

use minecraft_operator::controller::{Action, Event, MinecraftController, Phase};
use minecraft_operator::crd::{Minecraft, MinecraftSpec, MinecraftStatus};
use minecraft_operator::error::ReconcileError;
use minecraft_operator::meta::ObjectMeta;
use minecraft_operator::pod::IntOrString;
use minecraft_operator::resources::{ChildKind, ChildObject};
use minecraft_operator::status::{conclude, report};

#[derive(Clone, Copy, Debug, PartialEq)]
enum Call {
    Get(ChildKind),
    Create(ChildKind),
    Replace(ChildKind),
    Status,
}

struct Cluster {
    children: HashMap<(ChildKind, String), ChildObject>,
    parent: Option<Minecraft>,
    calls: Vec<(Call, String)>,
    fail: Option<(Call, String)>,
}

impl Cluster {
    fn new() -> Cluster {
        Cluster { children: HashMap::new(), parent: None, calls: Vec::new(), fail: None }
    }

    fn count(&self, call: Call) -> usize {
        self.calls.iter().filter(|(c, _)| *c == call).count()
    }

    fn writes(&self) -> usize {
        self.calls
            .iter()
            .filter(|(c, _)| matches!(c, Call::Create(_) | Call::Replace(_)))
            .count()
    }

    fn failing(&self, call: Call) -> Option<String> {
        match &self.fail {
            Some((c, message)) if *c == call => Some(message.clone()),
            _ => None,
        }
    }

    fn perform(&mut self, action: Action) -> Event {
        match action {
            Action::Get { kind, name } => {
                self.calls.push((Call::Get(kind), name.clone()));
                if let Some(message) = self.failing(Call::Get(kind)) {
                    return Event::Failed(message);
                }
                match self.children.get(&(kind, name)) {
                    Some(object) => Event::Found(object.clone()),
                    None => Event::Missing,
                }
            }
            Action::Create(object) => {
                let kind = object.kind();
                let name = object.metadata().name.clone().unwrap();
                self.calls.push((Call::Create(kind), name.clone()));
                if let Some(message) = self.failing(Call::Create(kind)) {
                    return Event::Failed(message);
                }
                assert!(!self.children.contains_key(&(kind, name.clone())));
                self.children.insert((kind, name), object);
                Event::Written
            }
            Action::Replace(object) => {
                let kind = object.kind();
                let name = object.metadata().name.clone().unwrap();
                self.calls.push((Call::Replace(kind), name.clone()));
                if let Some(message) = self.failing(Call::Replace(kind)) {
                    return Event::Failed(message);
                }
                assert!(self.children.contains_key(&(kind, name.clone())));
                self.children.insert((kind, name), object);
                Event::Written
            }
            Action::ReplaceStatus(parent) => {
                self.calls.push((Call::Status, parent.metadata.name.clone().unwrap()));
                if let Some(message) = self.failing(Call::Status) {
                    return Event::Failed(message);
                }
                self.parent = Some(parent);
                Event::Written
            }
            Action::Finish(_) => unreachable!(),
        }
    }
}

fn drive(
    controller: &MinecraftController,
    original: &Minecraft,
    cluster: &mut Cluster,
) -> Result<(), ReconcileError> {
    cluster.calls.clear();
    let mut phase = Phase::Idle;
    let mut event = Event::Start;
    for _ in 0..12 {
        let (next, action) = controller.reconcile(original, phase, event);
        if let Action::Finish(result) = action {
            assert_eq!(next, Phase::Done);
            return result;
        }
        event = cluster.perform(action);
        phase = next;
    }
    panic!("the reconciliation did not end in twelve steps");
}

fn parent(name: &str, namespace: &str, uid: Option<&str>) -> Minecraft {
    Minecraft {
        metadata: ObjectMeta {
            name: Some(name.to_string()),
            namespace: Some(namespace.to_string()),
            uid: uid.map(|u| u.to_string()),
            ..Default::default()
        },
        spec: MinecraftSpec {},
        status: None,
    }
}

fn active() -> MinecraftStatus {
    MinecraftStatus { phase: "Active".to_string(), message: None }
}

fn failed(message: &str) -> MinecraftStatus {
    MinecraftStatus { phase: "Failed".to_string(), message: Some(message.to_string()) }
}

#[test]
fn controller_remembers_how_it_was_made() {
    let controller = MinecraftController::new("games", true);
    assert_eq!(controller.namespace(), "games");
    assert!(controller.has_openshift());
    assert!(!MinecraftController::new("games", false).has_openshift());
}

#[test]
fn first_reconciliation_of_an_empty_cluster() {
    let controller = MinecraftController::new("ns", true);
    let p = parent("p", "ns", Some("u1"));
    let mut cluster = Cluster::new();
    assert_eq!(drive(&controller, &p, &mut cluster), Ok(()));

    assert_eq!(
        cluster.calls,
        vec![
            (Call::Get(ChildKind::ServiceAccount), "p-server".to_string()),
            (Call::Create(ChildKind::ServiceAccount), "p-server".to_string()),
            (Call::Get(ChildKind::PersistentVolumeClaim), "p-data".to_string()),
            (Call::Create(ChildKind::PersistentVolumeClaim), "p-data".to_string()),
            (Call::Get(ChildKind::Deployment), "p-server".to_string()),
            (Call::Create(ChildKind::Deployment), "p-server".to_string()),
            (Call::Get(ChildKind::Service), "p-minecraft".to_string()),
            (Call::Create(ChildKind::Service), "p-minecraft".to_string()),
            (Call::Get(ChildKind::Route), "p-minecraft".to_string()),
            (Call::Create(ChildKind::Route), "p-minecraft".to_string()),
            (Call::Status, "p".to_string()),
        ]
    );
    assert_eq!(cluster.children.len(), 5);

    let pvc = match &cluster.children[&(ChildKind::PersistentVolumeClaim, "p-data".to_string())] {
        ChildObject::PersistentVolumeClaim(pvc) => pvc.clone(),
        other => panic!("not a claim: {:?}", other),
    };
    assert_eq!(pvc.metadata.namespace, Some("ns".to_string()));
    assert_eq!(pvc.access_modes, vec!["ReadWriteOnce".to_string()]);
    assert_eq!(pvc.resources.requests.get("storage"), Some("1Gi".to_string()));
    assert_eq!(pvc.resources.limits.pairs().len(), 0);

    let deployment = match &cluster.children[&(ChildKind::Deployment, "p-server".to_string())] {
        ChildObject::Deployment(d) => d.clone(),
        other => panic!("not a deployment: {:?}", other),
    };
    assert_eq!(deployment.replicas, Some(1));
    assert_eq!(deployment.strategy, Some("Recreate".to_string()));
    assert_eq!(deployment.template.containers.len(), 2);
    assert_eq!(deployment.template.init_containers.len(), 1);
    assert_eq!(deployment.template.service_account, Some("p-server".to_string()));
    assert_eq!(deployment.template.volumes[0].claim_name, Some("p-data".to_string()));
    assert_eq!(deployment.template.volumes[2].secret_name, Some("p-minecraft-tls".to_string()));

    let service = match &cluster.children[&(ChildKind::Service, "p-minecraft".to_string())] {
        ChildObject::Service(s) => s.clone(),
        other => panic!("not a service: {:?}", other),
    };
    assert_eq!(service.type_, Some("ClusterIP".to_string()));
    assert_eq!(service.ports.len(), 1);
    assert_eq!(service.ports[0].port, 11337);
    assert_eq!(service.ports[0].protocol, Some("TCP".to_string()));
    assert_eq!(service.selector, deployment.template_labels);
    assert_eq!(service.selector, deployment.selector);
    assert_eq!(
        service.metadata.annotations.get("service.beta.openshift.io/serving-cert-secret-name"),
        Some("p-minecraft-tls".to_string())
    );

    let route = match &cluster.children[&(ChildKind::Route, "p-minecraft".to_string())] {
        ChildObject::Route(r) => r.clone(),
        other => panic!("not a route: {:?}", other),
    };
    assert_eq!(route.termination, Some("Passthrough".to_string()));
    assert_eq!(route.insecure_edge_termination_policy, Some("None".to_string()));
    assert_eq!(route.target_port, Some(IntOrString::String("mc-tls".to_string())));
    assert_eq!(route.to_kind, "Service");
    assert_eq!(route.to_name, "p-minecraft");
    assert_eq!(route.to_weight, 100);

    for child in cluster.children.values() {
        let owners = &child.metadata().owner_references;
        assert_eq!(owners.len(), 1);
        assert_eq!(owners[0].kind, "Minecraft");
        assert_eq!(owners[0].api_version, "minecraft.dentrassi.de/v1alpha1");
        assert_eq!(owners[0].name, "p");
        assert_eq!(owners[0].uid, "u1");
        assert_eq!(owners[0].controller, Some(true));
        assert_eq!(child.metadata().namespace, Some("ns".to_string()));
    }

    let written = cluster.parent.clone().unwrap();
    assert_eq!(written.status, Some(active()));
    assert_eq!(written.metadata, p.metadata);
}

#[test]
fn second_reconciliation_writes_nothing() {
    let controller = MinecraftController::new("ns", true);
    let p = parent("p", "ns", Some("u1"));
    let mut cluster = Cluster::new();
    assert_eq!(drive(&controller, &p, &mut cluster), Ok(()));
    let after = cluster.parent.clone().unwrap();
    let before: Vec<ChildObject> = [
        (ChildKind::ServiceAccount, "p-server"),
        (ChildKind::PersistentVolumeClaim, "p-data"),
        (ChildKind::Deployment, "p-server"),
        (ChildKind::Service, "p-minecraft"),
        (ChildKind::Route, "p-minecraft"),
    ]
    .iter()
    .map(|(k, n)| cluster.children[&(*k, n.to_string())].clone())
    .collect();

    assert_eq!(drive(&controller, &after, &mut cluster), Ok(()));
    assert_eq!(cluster.writes(), 0);
    assert_eq!(cluster.count(Call::Status), 0);
    assert_eq!(cluster.calls.len(), 5);
    let now: Vec<ChildObject> = [
        (ChildKind::ServiceAccount, "p-server"),
        (ChildKind::PersistentVolumeClaim, "p-data"),
        (ChildKind::Deployment, "p-server"),
        (ChildKind::Service, "p-minecraft"),
        (ChildKind::Route, "p-minecraft"),
    ]
    .iter()
    .map(|(k, n)| cluster.children[&(*k, n.to_string())].clone())
    .collect();
    assert_eq!(before, now);
}

#[test]
fn status_is_written_only_when_it_changes() {
    let controller = MinecraftController::new("ns", false);
    let mut p = parent("p", "ns", Some("u1"));
    let mut cluster = Cluster::new();
    assert_eq!(drive(&controller, &p, &mut cluster), Ok(()));
    assert_eq!(cluster.count(Call::Status), 1);
    // the stale parent is written again, the fresh one is not
    assert_eq!(drive(&controller, &p, &mut cluster), Ok(()));
    assert_eq!(cluster.count(Call::Status), 1);
    p.status = Some(active());
    assert_eq!(drive(&controller, &p, &mut cluster), Ok(()));
    assert_eq!(cluster.count(Call::Status), 0);
    p.status = Some(failed("earlier trouble"));
    assert_eq!(drive(&controller, &p, &mut cluster), Ok(()));
    assert_eq!(cluster.count(Call::Status), 1);
    assert_eq!(cluster.parent.clone().unwrap().status, Some(active()));
}

#[test]
fn report_and_conclude() {
    let mut p = parent("p", "ns", Some("u1"));
    let computed = conclude(&p, None);
    assert_eq!(computed.status, Some(active()));
    assert_eq!(computed.metadata, p.metadata);
    assert_eq!(report(&p, computed.clone()), Some(computed.clone()));
    p.status = Some(active());
    assert_eq!(report(&p, computed), None);
    let broken = conclude(&p, Some("no luck".to_string()));
    assert_eq!(broken.status, Some(failed("no luck")));
    assert_eq!(report(&p, broken.clone()), Some(broken));
}

#[test]
fn without_routes_no_route_is_touched() {
    let controller = MinecraftController::new("ns", false);
    let p = parent("p", "ns", Some("u1"));
    let mut cluster = Cluster::new();
    assert_eq!(drive(&controller, &p, &mut cluster), Ok(()));
    assert_eq!(cluster.count(Call::Get(ChildKind::Route)), 0);
    assert_eq!(cluster.count(Call::Create(ChildKind::Route)), 0);
    assert_eq!(cluster.count(Call::Replace(ChildKind::Route)), 0);
    assert_eq!(cluster.children.len(), 4);
    assert_eq!(cluster.calls.len(), 9);
    assert_eq!(cluster.parent.clone().unwrap().status, Some(active()));

    let (phase, action) = controller.reconcile(&p, Phase::Reading(ChildKind::Route), Event::Missing);
    assert_eq!(phase, Phase::Done);
    assert!(matches!(action, Action::Finish(Err(ReconcileError::UnexpectedEvent))));
    let (phase, action) = controller.reconcile(&p, Phase::Writing(ChildKind::Route), Event::Written);
    assert_eq!(phase, Phase::Done);
    assert!(matches!(action, Action::Finish(Err(ReconcileError::UnexpectedEvent))));
}

#[test]
fn failure_leaves_earlier_children_applied_and_is_recorded() {
    let controller = MinecraftController::new("ns", true);
    let p = parent("p", "ns", Some("u1"));
    let mut cluster = Cluster::new();
    cluster.fail = Some((Call::Create(ChildKind::Deployment), "quota exceeded".to_string()));
    assert_eq!(drive(&controller, &p, &mut cluster), Ok(()));
    assert_eq!(cluster.children.len(), 2);
    assert!(cluster.children.contains_key(&(ChildKind::ServiceAccount, "p-server".to_string())));
    assert!(cluster
        .children
        .contains_key(&(ChildKind::PersistentVolumeClaim, "p-data".to_string())));
    assert_eq!(cluster.count(Call::Get(ChildKind::Service)), 0);
    assert_eq!(cluster.count(Call::Get(ChildKind::Route)), 0);
    let after = cluster.parent.clone().unwrap();
    assert_eq!(after.status, Some(failed("quota exceeded")));
    assert_eq!(after.metadata, p.metadata);

    cluster.fail = None;
    assert_eq!(drive(&controller, &after, &mut cluster), Ok(()));
    assert_eq!(cluster.children.len(), 5);
    assert_eq!(cluster.count(Call::Create(ChildKind::ServiceAccount)), 0);
    assert_eq!(cluster.count(Call::Replace(ChildKind::ServiceAccount)), 0);
    assert_eq!(cluster.count(Call::Create(ChildKind::PersistentVolumeClaim)), 0);
    assert_eq!(cluster.count(Call::Replace(ChildKind::PersistentVolumeClaim)), 0);
    assert_eq!(cluster.writes(), 3);
    assert_eq!(cluster.parent.clone().unwrap().status, Some(active()));
}

#[test]
fn failed_read_ends_the_sequence() {
    let controller = MinecraftController::new("ns", true);
    let p = parent("p", "ns", Some("u1"));
    let mut cluster = Cluster::new();
    cluster.fail = Some((Call::Get(ChildKind::ServiceAccount), "unauthorized".to_string()));
    assert_eq!(drive(&controller, &p, &mut cluster), Ok(()));
    assert_eq!(
        cluster.calls,
        vec![
            (Call::Get(ChildKind::ServiceAccount), "p-server".to_string()),
            (Call::Status, "p".to_string()),
        ]
    );
    assert!(cluster.children.is_empty());
    assert_eq!(cluster.parent.clone().unwrap().status, Some(failed("unauthorized")));
}

#[test]
fn parent_without_uid_fails_with_the_error_text() {
    let controller = MinecraftController::new("ns", true);
    let p = parent("p", "ns", None);
    let mut cluster = Cluster::new();
    assert_eq!(drive(&controller, &p, &mut cluster), Ok(()));
    assert_eq!(cluster.writes(), 0);
    assert_eq!(cluster.calls.len(), 2);
    assert_eq!(cluster.parent.clone().unwrap().status, Some(failed("Missing UID")));
}

#[test]
fn failed_status_write_is_the_result() {
    let controller = MinecraftController::new("ns", false);
    let p = parent("p", "ns", Some("u1"));
    let mut cluster = Cluster::new();
    cluster.fail = Some((Call::Status, "conflict".to_string()));
    assert_eq!(
        drive(&controller, &p, &mut cluster),
        Err(ReconcileError::Api("conflict".to_string()))
    );
    assert_eq!(cluster.children.len(), 4);
    assert_eq!(cluster.parent, None);
}

#[test]
fn drifted_child_is_replaced() {
    let controller = MinecraftController::new("ns", true);
    let mut p = parent("p", "ns", Some("u1"));
    let mut cluster = Cluster::new();
    assert_eq!(drive(&controller, &p, &mut cluster), Ok(()));
    p.status = Some(active());
    let key = (ChildKind::Deployment, "p-server".to_string());
    let good = cluster.children[&key].clone();
    let mut drifted = match good.clone() {
        ChildObject::Deployment(d) => d,
        _ => unreachable!(),
    };
    drifted.replicas = Some(3);
    drifted.template.containers[0].image = Some("something/else".to_string());
    cluster.children.insert(key.clone(), ChildObject::Deployment(drifted));
    assert_eq!(drive(&controller, &p, &mut cluster), Ok(()));
    assert_eq!(cluster.writes(), 1);
    assert_eq!(cluster.count(Call::Replace(ChildKind::Deployment)), 1);
    assert_eq!(cluster.count(Call::Status), 0);
    assert_eq!(cluster.children[&key], good);
}

#[test]
fn events_that_do_not_answer_the_action_are_refused() {
    let controller = MinecraftController::new("ns", true);
    let p = parent("p", "ns", Some("u1"));
    let cases = vec![
        (Phase::Idle, Event::Written),
        (Phase::Idle, Event::Missing),
        (Phase::Reading(ChildKind::Service), Event::Written),
        (Phase::Reading(ChildKind::Service), Event::Start),
        (
            Phase::Reading(ChildKind::Service),
            Event::Found(ChildObject::blank(ChildKind::Route, None, "p-minecraft".to_string())),
        ),
        (Phase::Writing(ChildKind::Service), Event::Missing),
        (Phase::Reporting, Event::Start),
        (Phase::Done, Event::Start),
        (Phase::Done, Event::Written),
    ];
    for (phase, event) in cases {
        let (next, action) = controller.reconcile(&p, phase, event);
        assert_eq!(next, Phase::Done);
        assert!(matches!(action, Action::Finish(Err(ReconcileError::UnexpectedEvent))));
    }
}

#[test]
fn single_steps() {
    let controller = MinecraftController::new("ns", true);
    let p = parent("p", "ns", Some("u1"));
    let (phase, action) = controller.reconcile(&p, Phase::Idle, Event::Start);
    assert_eq!(phase, Phase::Reading(ChildKind::ServiceAccount));
    match action {
        Action::Get { kind, name } => {
            assert_eq!(kind, ChildKind::ServiceAccount);
            assert_eq!(name, "p-server");
        }
        other => panic!("expected a read, got {:?}", other),
    }
    let (phase, action) =
        controller.reconcile(&p, Phase::Writing(ChildKind::Service), Event::Written);
    assert_eq!(phase, Phase::Reading(ChildKind::Route));
    assert!(matches!(action, Action::Get { kind: ChildKind::Route, .. }));
    let (phase, action) = controller.reconcile(&p, Phase::Writing(ChildKind::Route), Event::Written);
    assert_eq!(phase, Phase::Reporting);
    match action {
        Action::ReplaceStatus(parent) => assert_eq!(parent.status, Some(active())),
        other => panic!("expected a status write, got {:?}", other),
    }
    let (phase, action) = controller.reconcile(&p, Phase::Reporting, Event::Written);
    assert_eq!(phase, Phase::Done);
    assert!(matches!(action, Action::Finish(Ok(()))));
    let (phase, action) =
        controller.reconcile(&p, Phase::Reporting, Event::Failed("gone".to_string()));
    assert_eq!(phase, Phase::Done);
    match action {
        Action::Finish(Err(error)) => assert_eq!(error, ReconcileError::Api("gone".to_string())),
        other => panic!("expected an error, got {:?}", other),
    }
}
