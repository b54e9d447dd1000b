//! Catalog preparation for a locally installed update client.
//!
//! The library finds the catalog archive and the inventory collector among the
//! files of a directory, derives the manifest path of an expanded archive,
//! rewrites the manifest's location attributes, computes the digest record of
//! the rewritten manifest and plans the writes to the configuration store.
//! A run ties these stages together and ends at the first failure.
//!
//! Everything here works on plain values; reading and writing files, running
//! the expansion tool and touching the configuration store are left to the
//! caller, who is told what to do step by step.

pub mod digest;
pub mod discovery;
pub mod error;
pub mod events;
pub mod expansion;
pub mod paths;
pub mod payload;
pub mod pipeline;
pub mod publish;
pub mod registry;
pub mod rewrite;
pub mod seqs;
pub mod text;
pub mod util;

pub use crate::digest::{digest, get_hash_sha384, DigestRecord};
pub use crate::discovery::{
    check_catalog_info, discover, get_catalog_and_ic_paths, get_catalog_path, is_cab_path,
    is_ic_path, is_ic_path_marked, CatalogInfo,
};
pub use crate::error::{
    CatalogError, DiscoveryError, ExpansionError, PublishError, RewriteError,
};
pub use crate::events::{Attribute, DocumentVersion, ManifestEvent, OtherEvent, QName};
pub use crate::expansion::{cab_to_xml, expand_command, ProcessOutcome};
pub use crate::paths::{filename_to_lower_string, manifest_path_of, rewritten_path_of};
pub use crate::payload::{encrypt, InputData};
pub use crate::pipeline::{handle, Action, Event, Run, RunState, INSTALL_PATH};
pub use crate::publish::{
    du_or_dcu, handle_reg, PublishPhase, PublishStep, Publisher, RegistryPublishRequest,
    Software, StoreCommand, StoreReply, DCU_PATH, DU_PATH, SERVICE_KEY,
};
pub use crate::registry::{
    delete_reg_key_vaule, open_reg_subkey, set_reg_vaule, str_to_pcwstr, RegType, RegValue,
    ToOptionU8Slice, ToRegValue,
};
pub use crate::rewrite::{
    handle_xml, rewrite_attributes, rewrite_event, rewrite_events, rewrite_value, standard_rules,
    AttributeRewriteRule, PathDialect, RewriteAction,
};
pub use crate::util::{add, Bar, Foo};
