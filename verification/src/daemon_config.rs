//! The daemon's configuration.
pub mod document;
pub mod laws;
pub mod logging;
pub mod module;
pub mod policy;
pub mod validate;

use crate::text::{trim_end_char, without_trailing};
use vstd::prelude::*;

verus! {

/// Which wire protocol a module speaks.
#[derive(Clone, Copy, Debug, PartialEq, Eq, Structural)]
pub enum ModuleProtocol {
    /// The daemon's own, which is also what a module that declares nothing means.
    Subc,
    /// Not any: the module is spawned and watched, and never registers.
    NoProtocol,
}

/// The sections of the configuration that a rescan cannot apply: the daemon reads
/// them when it starts, and reports a later change as one that needs a restart.
#[derive(Clone, Copy, Debug, PartialEq, Eq, Structural)]
pub enum RestartRequiredSection {
    Port,
    Storage,
    AdmissionFactsCarrierModuleId,
    AdmissionFactsTargets,
}

/// The key of a section.
pub open spec fn section_label(section: RestartRequiredSection) -> Seq<char> {
    match section {
        RestartRequiredSection::Port => "port"@,
        RestartRequiredSection::Storage => "storage"@,
        RestartRequiredSection::AdmissionFactsCarrierModuleId =>
            "admission_facts_carrier_module_id"@,
        RestartRequiredSection::AdmissionFactsTargets => "admission_facts_targets"@,
    }
}

impl RestartRequiredSection {
    /// All of them, in the order in which they are reported.
    pub const ALL: [RestartRequiredSection; 4] = [
        RestartRequiredSection::Port,
        RestartRequiredSection::Storage,
        RestartRequiredSection::AdmissionFactsCarrierModuleId,
        RestartRequiredSection::AdmissionFactsTargets,
    ];

    /// The key of the section.
    pub fn label(self) -> (r: &'static str)
        ensures
            r@ == section_label(self),
    {
        match self {
            RestartRequiredSection::Port => "port",
            RestartRequiredSection::Storage => "storage",
            RestartRequiredSection::AdmissionFactsCarrierModuleId =>
                "admission_facts_carrier_module_id",
            RestartRequiredSection::AdmissionFactsTargets => "admission_facts_targets",
        }
    }
}

/// The one storage backend of all managed modules.
#[derive(Debug)]
pub enum StorageConfig {
    /// Each module has a database file of its own below the data home.
    Sqlite { data_home: String },
}

/// Where a module finds its store. The daemon hands it out and has no way to tell
/// whether the module uses it.
#[derive(Debug)]
pub struct StorageDescriptor {
    pub module_id: String,
    pub storage_namespace: String,
    pub isolation_kind: String,
    pub backend: String,
    pub path: String,
}

/// A [`StorageDescriptor`] over characters.
#[verifier::ext_equal]
pub struct DescriptorView {
    pub module_id: Seq<char>,
    pub storage_namespace: Seq<char>,
    pub isolation_kind: Seq<char>,
    pub backend: Seq<char>,
    pub path: Seq<char>,
}

impl View for StorageDescriptor {
    type V = DescriptorView;

    open spec fn view(&self) -> DescriptorView {
        DescriptorView {
            module_id: self.module_id@,
            storage_namespace: self.storage_namespace@,
            isolation_kind: self.isolation_kind@,
            backend: self.backend@,
            path: self.path@,
        }
    }
}

/// The store of a module: one database for each, `<data home>/cortexkit/<module
/// id>/store.db`, with forward slashes on every platform.
pub open spec fn store_of(storage: StorageConfig, module_id: Seq<char>) -> DescriptorView {
    match storage {
        StorageConfig::Sqlite { data_home } => DescriptorView {
            module_id,
            storage_namespace: "default"@,
            isolation_kind: "module"@,
            backend: "sqlite"@,
            path: without_trailing(data_home@, '/') + "/cortexkit/"@ + module_id + "/store.db"@,
        },
    }
}

impl StorageConfig {
    /// The store of a module.
    pub fn descriptor_for(&self, module_id: &str) -> (r: StorageDescriptor)
        ensures
            r@ == store_of(*self, module_id@),
    {
        match self {
            StorageConfig::Sqlite { data_home } => StorageDescriptor {
                module_id: module_id.to_owned(),
                storage_namespace: String::from_str("default"),
                isolation_kind: String::from_str("module"),
                backend: String::from_str("sqlite"),
                path: String::from_str(trim_end_char(data_home.as_str(), '/')).concat(
                    "/cortexkit/",
                ).concat(module_id).concat("/store.db"),
            },
        }
    }
}

} // verus!
