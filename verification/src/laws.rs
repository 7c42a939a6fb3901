//! What holds of the desired state, whatever the cluster holds.

use crate::crd::{Minecraft, MinecraftView};
use crate::error::ReconcileErrorView;
use crate::named::{current, holds, lemma_first, lemma_put_other, lemma_put_settles, Named};
use crate::ownership::owner_of;
use crate::pod::{Container, IntOrStringView};
use crate::resources::{ChildKind, ChildObjectView, DeploymentView};
use crate::sync::{desired, name_of, role_of};
use crate::topology::{
    child_name, ROLE_DATA, ROLE_SERVER, ROLE_SERVICE, ROLE_TLS_SECRET,
};
use crate::topology::{GAME_PORT, TLS_PORT};
use crate::workload::{
    desired_deployment, liveness_probe, readiness_probe, server_container, tls_container,
    with_server,
};
use vstd::prelude::*;

verus! {

/// Names that end in different roles are different names.
pub proof fn lemma_child_name_injective(parent: Seq<char>, a: Seq<char>, b: Seq<char>)
    requires
        a != b,
    ensures
        child_name(parent, a) != child_name(parent, b),
{
    let prefix = parent + "-"@;
    let x = child_name(parent, a);
    let y = child_name(parent, b);
    if x == y {
        assert(x.subrange(prefix.len() as int, x.len() as int) =~= a);
        assert(y.subrange(prefix.len() as int, y.len() as int) =~= b);
    }
}

/// The four roles are four different texts.
pub proof fn lemma_roles_differ()
    ensures
        ROLE_SERVER@ != ROLE_DATA@,
        ROLE_SERVER@ != ROLE_SERVICE@,
        ROLE_SERVER@ != ROLE_TLS_SECRET@,
        ROLE_DATA@ != ROLE_SERVICE@,
        ROLE_DATA@ != ROLE_TLS_SECRET@,
        ROLE_SERVICE@ != ROLE_TLS_SECRET@,
{
    reveal_strlit("server");
    reveal_strlit("data");
    reveal_strlit("minecraft");
    reveal_strlit("minecraft-tls");
    assert(ROLE_SERVER@.len() == 6);
    assert(ROLE_DATA@.len() == 4);
    assert(ROLE_SERVICE@.len() == 9);
    assert(ROLE_TLS_SECRET@.len() == 13);
}

/// The name of a child depends on the parent's name and the child's kind alone:
/// it is the parent's name, a hyphen, and `server`, `data` or `minecraft`.
/// Children of one kind never share a name with the secret, and two children
/// share a name only where they are the service account and the deployment, or
/// the service and the route.
pub proof fn lemma_child_names(parent: MinecraftView, other: MinecraftView, kind: ChildKind)
    requires
        parent.metadata.name is Some,
        other.metadata.name == parent.metadata.name,
    ensures
        name_of(parent, kind) == name_of(other, kind),
        name_of(parent, kind) == child_name(parent.name(), "server"@) || name_of(parent, kind)
            == child_name(parent.name(), "data"@) || name_of(parent, kind) == child_name(
            parent.name(),
            "minecraft"@,
        ),
        name_of(parent, kind) != child_name(parent.name(), ROLE_TLS_SECRET@),
        forall|a: ChildKind, b: ChildKind|
            name_of(parent, a) == name_of(parent, b) ==> role_of(a) == role_of(b),
{
    lemma_roles_differ();
    lemma_child_name_injective(parent.name(), role_of(kind), ROLE_TLS_SECRET@);
    assert forall|a: ChildKind, b: ChildKind|
        name_of(parent, a) == name_of(parent, b) implies role_of(a) == role_of(b) by {
        if role_of(a) != role_of(b) {
            lemma_child_name_injective(parent.name(), role_of(a), role_of(b));
        }
    }
}

/// The desired state of a child can be built exactly when the parent has a
/// unique identifier. It is then of the same kind as the state it was built
/// from, keeps its name and namespace, and names the parent as its one owner:
/// by kind, name and unique identifier, as the controller.
pub proof fn lemma_ownership(parent: MinecraftView, base: ChildObjectView)
    requires
        parent.metadata.name is Some,
    ensures
        desired(parent, base) is Ok <==> parent.metadata.uid is Some,
        parent.metadata.uid is None ==> desired(parent, base) == Err::<
            ChildObjectView,
            ReconcileErrorView,
        >(ReconcileErrorView::MissingUid),
        desired(parent, base) matches Ok(child) ==> {
            &&& child.kind() == base.kind()
            &&& child.metadata().name == base.metadata().name
            &&& child.metadata().namespace == base.metadata().namespace
            &&& child.metadata().owner_references == seq![owner_of(parent)]
            &&& owner_of(parent).kind == Minecraft::KIND@
            &&& owner_of(parent).api_version == Minecraft::API_VERSION@
            &&& owner_of(parent).name == parent.metadata.name->0
            &&& owner_of(parent).uid == parent.metadata.uid->0
            &&& owner_of(parent).controller == Some(true)
            &&& owner_of(parent).block_owner_deletion == Some(true)
        },
{
}

/// The three container names are three different texts.
pub proof fn lemma_container_names_differ()
    ensures
        "server"@ != "tls"@,
        "data"@ != "logs"@,
        "data"@ != "tls"@,
        "logs"@ != "tls"@,
{
    reveal_strlit("server");
    reveal_strlit("tls");
    reveal_strlit("data");
    reveal_strlit("logs");
    assert("server"@.len() == 6);
    assert("tls"@.len() == 3);
    assert("data"@.len() == 4);
    assert("logs"@[0] == 'l');
    assert("data"@[0] == 'd');
}

/// Whatever the deployment was found as, its desired state runs exactly one
/// replica, and the pod holds a container `server` and a container `tls` whose
/// probes follow the probe policy: both probes of a container connect to the
/// container's own port, first after thirty seconds and then every ten; the
/// readiness probe times out after one second and gives up after three
/// failures, the liveness probe after three seconds and five failures.
pub proof fn lemma_probe_policy(
    parent: MinecraftView,
    service_account: Seq<char>,
    tls_secret: Seq<char>,
    pvc: Seq<char>,
    base: DeploymentView,
)
    requires
        parent.metadata.name is Some,
        parent.metadata.uid is Some,
    ensures
        desired_deployment(parent, service_account, tls_secret, pvc, base) matches Ok(d) && {
            let containers = d.template.containers;
            let server = current::<Container>(containers, "server"@);
            let tls = current::<Container>(containers, "tls"@);
            &&& d.replicas == Some(1i32)
            &&& holds::<Container>(containers, "server"@)
            &&& holds::<Container>(containers, "tls"@)
            &&& server.name == "server"@
            &&& tls.name == "tls"@
            &&& server.readiness_probe == Some(readiness_probe(GAME_PORT))
            &&& server.liveness_probe == Some(liveness_probe(GAME_PORT))
            &&& tls.readiness_probe == Some(readiness_probe(TLS_PORT))
            &&& tls.liveness_probe == Some(liveness_probe(TLS_PORT))
            &&& GAME_PORT == 1337
            &&& TLS_PORT == 11337
        },
        forall|port: i32|
            {
                &&& (#[trigger] readiness_probe(port)).initial_delay_seconds == Some(30i32)
                &&& readiness_probe(port).period_seconds == Some(10i32)
                &&& readiness_probe(port).timeout_seconds == Some(1i32)
                &&& readiness_probe(port).failure_threshold == Some(3i32)
                &&& readiness_probe(port).tcp_socket == Some(IntOrStringView::Int(port))
            },
        forall|port: i32|
            {
                &&& (#[trigger] liveness_probe(port)).initial_delay_seconds == Some(30i32)
                &&& liveness_probe(port).period_seconds == Some(10i32)
                &&& liveness_probe(port).timeout_seconds == Some(3i32)
                &&& liveness_probe(port).failure_threshold == Some(5i32)
                &&& liveness_probe(port).tcp_socket == Some(IntOrStringView::Int(port))
            },
{
    lemma_container_names_differ();
    let c0 = base.template.containers;
    let server = server_container(current::<Container>(c0, "server"@));
    lemma_current_named::<Container>(c0, "server"@);
    lemma_put_settles::<Container>(c0, "server"@, server);
    let c1 = with_server(c0);
    let tls = tls_container(current::<Container>(c1, "tls"@));
    lemma_current_named::<Container>(c1, "tls"@);
    lemma_put_settles::<Container>(c1, "tls"@, tls);
    lemma_put_other::<Container>(c1, "tls"@, tls, "server"@);
}

/// What a list finds under a name goes by that name.
pub proof fn lemma_current_named<T: Named>(s: Seq<T::V>, name: Seq<char>)
    ensures
        T::named(current::<T>(s, name), name),
{
    if holds::<T>(s, name) {
        lemma_first::<T>(s, name);
    } else {
        T::lemma_fresh_named(name);
    }
}

} // verus!
