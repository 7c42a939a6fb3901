//! The custom resource that declares one Minecraft server.

use crate::meta::{ObjectMeta, ObjectMetaView};
use crate::text::{copy_opt_text, same_opt_text};
use vstd::prelude::*;
use vstd::std_specs::cmp::PartialEqSpecImpl;

verus! {

/// The desired state of a server. It has no settings yet.
#[derive(Debug)]
pub struct MinecraftSpec {
}

/// The mathematical view of [`MinecraftSpec`].
pub struct MinecraftSpecView {
}

impl MinecraftSpecView {
    /// The view of the value that `MinecraftSpec::default()` builds.
    pub open spec fn default() -> MinecraftSpecView {
        MinecraftSpecView {
        }
    }
}

impl DeepView for MinecraftSpec {
    type V = MinecraftSpecView;

    open spec fn deep_view(&self) -> MinecraftSpecView {
        MinecraftSpecView {
        }
    }
}

impl View for MinecraftSpec {
    type V = MinecraftSpecView;

    open spec fn view(&self) -> MinecraftSpecView {
        self.deep_view()
    }
}

impl Default for MinecraftSpec {
    fn default() -> (r: MinecraftSpec)
        ensures
            r@ == MinecraftSpecView::default(),
    {
        let r = MinecraftSpec {
        };
        r
    }
}

impl Clone for MinecraftSpec {
    fn clone(&self) -> (r: MinecraftSpec)
        ensures
            r@ == self@,
    {
        MinecraftSpec {
        }
    }
}

impl PartialEq for MinecraftSpec {
    fn eq(&self, other: &MinecraftSpec) -> (r: bool) {
        true
    }
}

impl PartialEqSpecImpl for MinecraftSpec {
    open spec fn obeys_eq_spec() -> bool {
        true
    }

    open spec fn eq_spec(&self, other: &MinecraftSpec) -> bool {
        self@ == other@
    }
}

/// The outcome of the last reconciliation, as recorded on the resource.
#[derive(Debug)]
pub struct MinecraftStatus {
    /// Either `Active` or `Failed`.
    pub phase: String,
    /// The text of the error that made the reconciliation fail.
    pub message: Option<String>,
}

/// The mathematical view of [`MinecraftStatus`].
pub struct MinecraftStatusView {
    pub phase: Seq<char>,
    pub message: Option<Seq<char>>,
}

impl MinecraftStatusView {
    /// The view of the value that `MinecraftStatus::default()` builds.
    pub open spec fn default() -> MinecraftStatusView {
        MinecraftStatusView {
            phase: Seq::empty(),
            message: None,
        }
    }
}

impl DeepView for MinecraftStatus {
    type V = MinecraftStatusView;

    open spec fn deep_view(&self) -> MinecraftStatusView {
        MinecraftStatusView {
            phase: self.phase@,
            message: self.message.deep_view(),
        }
    }
}

impl View for MinecraftStatus {
    type V = MinecraftStatusView;

    open spec fn view(&self) -> MinecraftStatusView {
        self.deep_view()
    }
}

impl Default for MinecraftStatus {
    fn default() -> (r: MinecraftStatus)
        ensures
            r@ == MinecraftStatusView::default(),
    {
        let r = MinecraftStatus {
            phase: String::new(),
            message: None,
        };
        r
    }
}

impl Clone for MinecraftStatus {
    fn clone(&self) -> (r: MinecraftStatus)
        ensures
            r@ == self@,
    {
        MinecraftStatus {
            phase: self.phase.clone(),
            message: copy_opt_text(&self.message),
        }
    }
}

impl PartialEq for MinecraftStatus {
    fn eq(&self, other: &MinecraftStatus) -> (r: bool) {
        self.phase == other.phase
            && same_opt_text(&self.message, &other.message)
    }
}

impl PartialEqSpecImpl for MinecraftStatus {
    open spec fn obeys_eq_spec() -> bool {
        true
    }

    open spec fn eq_spec(&self, other: &MinecraftStatus) -> bool {
        self@ == other@
    }
}

/// One declared Minecraft server.
#[derive(Debug)]
pub struct Minecraft {
    /// Name, namespace and identity of the resource.
    pub metadata: ObjectMeta,
    /// The desired state.
    pub spec: MinecraftSpec,
    /// The recorded outcome of the last reconciliation, if there was one.
    pub status: Option<MinecraftStatus>,
}

/// The mathematical view of [`Minecraft`].
pub struct MinecraftView {
    pub metadata: ObjectMetaView,
    pub spec: MinecraftSpecView,
    pub status: Option<MinecraftStatusView>,
}

impl MinecraftView {
    /// The view of the value that `Minecraft::default()` builds.
    pub open spec fn default() -> MinecraftView {
        MinecraftView {
            metadata: ObjectMetaView::default(),
            spec: MinecraftSpecView::default(),
            status: None,
        }
    }
}

impl DeepView for Minecraft {
    type V = MinecraftView;

    open spec fn deep_view(&self) -> MinecraftView {
        MinecraftView {
            metadata: self.metadata@,
            spec: self.spec@,
            status: self.status.deep_view(),
        }
    }
}

impl View for Minecraft {
    type V = MinecraftView;

    open spec fn view(&self) -> MinecraftView {
        self.deep_view()
    }
}

impl Default for Minecraft {
    fn default() -> (r: Minecraft)
        ensures
            r@ == MinecraftView::default(),
    {
        let r = Minecraft {
            metadata: ObjectMeta::default(),
            spec: MinecraftSpec::default(),
            status: None,
        };
        r
    }
}

impl Clone for Minecraft {
    fn clone(&self) -> (r: Minecraft)
        ensures
            r@ == self@,
    {
        Minecraft {
            metadata: self.metadata.clone(),
            spec: self.spec.clone(),
            status: self.status.clone(),
        }
    }
}

impl PartialEq for Minecraft {
    fn eq(&self, other: &Minecraft) -> (r: bool) {
        self.metadata == other.metadata
            && self.spec == other.spec
            && self.status == other.status
    }
}

impl PartialEqSpecImpl for Minecraft {
    open spec fn obeys_eq_spec() -> bool {
        true
    }

    open spec fn eq_spec(&self, other: &Minecraft) -> bool {
        self@ == other@
    }
}

impl Minecraft {
    /// The API group of the resource.
    pub const GROUP: &'static str = "minecraft.dentrassi.de";

    /// The version of the resource in its group.
    pub const VERSION: &'static str = "v1alpha1";

    /// The kind of the resource.
    pub const KIND: &'static str = "Minecraft";

    /// Group and version, as owner references spell them.
    pub const API_VERSION: &'static str = "minecraft.dentrassi.de/v1alpha1";
}

impl MinecraftView {
    /// A resource can be reconciled once it has a name and a namespace.
    pub open spec fn well_formed(self) -> bool {
        self.metadata.name is Some && self.metadata.namespace is Some
    }

    /// The name of the resource.
    pub open spec fn name(self) -> Seq<char>
        recommends
            self.metadata.name is Some,
    {
        self.metadata.name->0
    }
}

} // verus!
