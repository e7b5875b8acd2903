//! The parts of Kubernetes objects that the controller reads or sets. What is not here is left
//! unset in the objects that are sent to the cluster.

use crate::string_map::StringMap;
use crate::text::{opt_view, opt_views, views};
use vstd::prelude::*;

verus! {

/// The object that owns another, and with which the other is deleted.
#[derive(Debug)]
pub struct OwnerReference {
    pub api_version: String,
    pub kind: String,
    pub name: String,
    pub uid: String,
}

/// The model of an [`OwnerReference`].
#[verifier::ext_equal]
pub struct OwnerReferenceView {
    pub api_version: Seq<char>,
    pub kind: Seq<char>,
    pub name: Seq<char>,
    pub uid: Seq<char>,
}

impl View for OwnerReference {
    type V = OwnerReferenceView;

    open spec fn view(&self) -> OwnerReferenceView {
        OwnerReferenceView {
            api_version: self.api_version@,
            kind: self.kind@,
            name: self.name@,
            uid: self.uid@,
        }
    }
}

/// The metadata of an object.
#[derive(Debug)]
pub struct ObjectMeta {
    pub name: Option<String>,
    pub namespace: Option<String>,
    pub uid: Option<String>,
    pub labels: Option<StringMap>,
    pub annotations: Option<StringMap>,
    pub owner_references: Option<Vec<OwnerReference>>,
}

/// The model of an [`ObjectMeta`].
#[verifier::ext_equal]
pub struct ObjectMetaView {
    pub name: Option<Seq<char>>,
    pub namespace: Option<Seq<char>>,
    pub uid: Option<Seq<char>>,
    pub labels: Option<Map<Seq<char>, Seq<char>>>,
    pub annotations: Option<Map<Seq<char>, Seq<char>>>,
    pub owner_references: Option<Seq<OwnerReferenceView>>,
}

impl View for ObjectMeta {
    type V = ObjectMetaView;

    open spec fn view(&self) -> ObjectMetaView {
        ObjectMetaView {
            name: opt_view(self.name),
            namespace: opt_view(self.namespace),
            uid: opt_view(self.uid),
            labels: opt_view(self.labels),
            annotations: opt_view(self.annotations),
            owner_references: opt_views(self.owner_references),
        }
    }
}

/// A request for storage.
#[derive(Debug)]
pub struct PersistentVolumeClaim {
    pub metadata: ObjectMeta,
    pub spec: PersistentVolumeClaimSpec,
}

/// The model of a [`PersistentVolumeClaim`].
#[verifier::ext_equal]
pub struct PersistentVolumeClaimView {
    pub metadata: ObjectMetaView,
    pub spec: PersistentVolumeClaimSpecView,
}

impl View for PersistentVolumeClaim {
    type V = PersistentVolumeClaimView;

    open spec fn view(&self) -> PersistentVolumeClaimView {
        PersistentVolumeClaimView {
            metadata: self.metadata@,
            spec: self.spec@,
        }
    }
}

/// What a [`PersistentVolumeClaim`] asks for.
#[derive(Debug)]
pub struct PersistentVolumeClaimSpec {
    pub storage_class_name: String,
    pub access_modes: Vec<String>,
    /// The requested quantity of each resource.
    pub requests: StringMap,
}

/// The model of a [`PersistentVolumeClaimSpec`].
#[verifier::ext_equal]
pub struct PersistentVolumeClaimSpecView {
    pub storage_class_name: Seq<char>,
    pub access_modes: Seq<Seq<char>>,
    pub requests: Map<Seq<char>, Seq<char>>,
}

impl View for PersistentVolumeClaimSpec {
    type V = PersistentVolumeClaimSpecView;

    open spec fn view(&self) -> PersistentVolumeClaimSpecView {
        PersistentVolumeClaimSpecView {
            storage_class_name: self.storage_class_name@,
            access_modes: views(self.access_modes@),
            requests: self.requests@,
        }
    }
}

/// A deployment of pods.
#[derive(Debug)]
pub struct Deployment {
    pub metadata: ObjectMeta,
    pub spec: DeploymentSpec,
}

/// The model of a [`Deployment`].
#[verifier::ext_equal]
pub struct DeploymentView {
    pub metadata: ObjectMetaView,
    pub spec: DeploymentSpecView,
}

impl View for Deployment {
    type V = DeploymentView;

    open spec fn view(&self) -> DeploymentView {
        DeploymentView {
            metadata: self.metadata@,
            spec: self.spec@,
        }
    }
}

/// Which pods a [`Deployment`] keeps running, and how it replaces them.
#[derive(Debug)]
pub struct DeploymentSpec {
    pub strategy_type: String,
    /// The labels by which the deployment knows its pods.
    pub match_labels: StringMap,
    pub template: PodTemplateSpec,
}

/// The model of a [`DeploymentSpec`].
#[verifier::ext_equal]
pub struct DeploymentSpecView {
    pub strategy_type: Seq<char>,
    pub match_labels: Map<Seq<char>, Seq<char>>,
    pub template: PodTemplateSpecView,
}

impl View for DeploymentSpec {
    type V = DeploymentSpecView;

    open spec fn view(&self) -> DeploymentSpecView {
        DeploymentSpecView {
            strategy_type: self.strategy_type@,
            match_labels: self.match_labels@,
            template: self.template@,
        }
    }
}

/// The pods that a [`Deployment`] creates.
#[derive(Debug)]
pub struct PodTemplateSpec {
    pub labels: StringMap,
    pub spec: PodSpec,
}

/// The model of a [`PodTemplateSpec`].
#[verifier::ext_equal]
pub struct PodTemplateSpecView {
    pub labels: Map<Seq<char>, Seq<char>>,
    pub spec: PodSpecView,
}

impl View for PodTemplateSpec {
    type V = PodTemplateSpecView;

    open spec fn view(&self) -> PodTemplateSpecView {
        PodTemplateSpecView {
            labels: self.labels@,
            spec: self.spec@,
        }
    }
}

/// The volumes and containers of a pod.
#[derive(Debug)]
pub struct PodSpec {
    pub volumes: Vec<Volume>,
    pub init_containers: Vec<Container>,
    pub containers: Vec<Container>,
}

/// The model of a [`PodSpec`].
#[verifier::ext_equal]
pub struct PodSpecView {
    pub volumes: Seq<VolumeView>,
    pub init_containers: Seq<ContainerView>,
    pub containers: Seq<ContainerView>,
}

impl View for PodSpec {
    type V = PodSpecView;

    open spec fn view(&self) -> PodSpecView {
        PodSpecView {
            volumes: views(self.volumes@),
            init_containers: views(self.init_containers@),
            containers: views(self.containers@),
        }
    }
}

/// A volume of a pod, backed by a volume claim.
#[derive(Debug)]
pub struct Volume {
    pub name: String,
    pub claim_name: String,
    pub read_only: bool,
}

/// The model of a [`Volume`].
#[verifier::ext_equal]
pub struct VolumeView {
    pub name: Seq<char>,
    pub claim_name: Seq<char>,
    pub read_only: bool,
}

impl View for Volume {
    type V = VolumeView;

    open spec fn view(&self) -> VolumeView {
        VolumeView {
            name: self.name@,
            claim_name: self.claim_name@,
            read_only: self.read_only,
        }
    }
}

/// A container of a pod.
#[derive(Debug)]
pub struct Container {
    pub name: String,
    pub image: String,
    pub command: Option<Vec<String>>,
    pub args: Option<Vec<String>>,
    pub env: Option<Vec<EnvVar>>,
    pub volume_mounts: Option<Vec<VolumeMount>>,
    pub security_context: SecurityContext,
    /// The requested quantity of each resource.
    pub requests: Option<StringMap>,
}

/// The model of a [`Container`].
#[verifier::ext_equal]
pub struct ContainerView {
    pub name: Seq<char>,
    pub image: Seq<char>,
    pub command: Option<Seq<Seq<char>>>,
    pub args: Option<Seq<Seq<char>>>,
    pub env: Option<Seq<EnvVarView>>,
    pub volume_mounts: Option<Seq<VolumeMountView>>,
    pub security_context: SecurityContextView,
    pub requests: Option<Map<Seq<char>, Seq<char>>>,
}

impl View for Container {
    type V = ContainerView;

    open spec fn view(&self) -> ContainerView {
        ContainerView {
            name: self.name@,
            image: self.image@,
            command: opt_views(self.command),
            args: opt_views(self.args),
            env: opt_views(self.env),
            volume_mounts: opt_views(self.volume_mounts),
            security_context: self.security_context@,
            requests: opt_view(self.requests),
        }
    }
}

/// An environment variable of a container.
#[derive(Debug)]
pub struct EnvVar {
    pub name: String,
    pub value: Option<String>,
}

/// The model of an [`EnvVar`].
#[verifier::ext_equal]
pub struct EnvVarView {
    pub name: Seq<char>,
    pub value: Option<Seq<char>>,
}

impl View for EnvVar {
    type V = EnvVarView;

    open spec fn view(&self) -> EnvVarView {
        EnvVarView {
            name: self.name@,
            value: opt_view(self.value),
        }
    }
}

/// Where a container sees a volume.
#[derive(Debug)]
pub struct VolumeMount {
    /// The name of the volume.
    pub name: String,
    pub mount_path: String,
}

/// The model of a [`VolumeMount`].
#[verifier::ext_equal]
pub struct VolumeMountView {
    pub name: Seq<char>,
    pub mount_path: Seq<char>,
}

impl View for VolumeMount {
    type V = VolumeMountView;

    open spec fn view(&self) -> VolumeMountView {
        VolumeMountView {
            name: self.name@,
            mount_path: self.mount_path@,
        }
    }
}

/// The privileges of a container.
#[derive(Debug)]
pub struct SecurityContext {
    pub privileged: Option<bool>,
    pub added_capabilities: Option<Vec<String>>,
}

/// The model of a [`SecurityContext`].
#[verifier::ext_equal]
pub struct SecurityContextView {
    pub privileged: Option<bool>,
    pub added_capabilities: Option<Seq<Seq<char>>>,
}

impl View for SecurityContext {
    type V = SecurityContextView;

    open spec fn view(&self) -> SecurityContextView {
        SecurityContextView {
            privileged: self.privileged,
            added_capabilities: opt_views(self.added_capabilities),
        }
    }
}

/// A service.
#[derive(Debug)]
pub struct Service {
    pub metadata: ObjectMeta,
    pub spec: Option<ServiceSpec>,
    /// The addresses in the load balancer status, one ingress point for each.
    pub ingress: Option<Vec<String>>,
}

/// The model of a [`Service`].
#[verifier::ext_equal]
pub struct ServiceView {
    pub metadata: ObjectMetaView,
    pub spec: Option<ServiceSpecView>,
    pub ingress: Option<Seq<Seq<char>>>,
}

impl View for Service {
    type V = ServiceView;

    open spec fn view(&self) -> ServiceView {
        ServiceView {
            metadata: self.metadata@,
            spec: opt_view(self.spec),
            ingress: opt_views(self.ingress),
        }
    }
}

/// What a [`Service`] asks for.
#[derive(Debug)]
pub struct ServiceSpec {
    pub load_balancer_class: Option<String>,
    pub cluster_ip: Option<String>,
    pub load_balancer_ip: Option<String>,
}

/// The model of a [`ServiceSpec`].
#[verifier::ext_equal]
pub struct ServiceSpecView {
    pub load_balancer_class: Option<Seq<char>>,
    pub cluster_ip: Option<Seq<char>>,
    pub load_balancer_ip: Option<Seq<char>>,
}

impl View for ServiceSpec {
    type V = ServiceSpecView;

    open spec fn view(&self) -> ServiceSpecView {
        ServiceSpecView {
            load_balancer_class: opt_view(self.load_balancer_class),
            cluster_ip: opt_view(self.cluster_ip),
            load_balancer_ip: opt_view(self.load_balancer_ip),
        }
    }
}

} // verus!
