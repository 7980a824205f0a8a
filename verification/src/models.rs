//! The data the console shows: assets, datasets, policies, credentials and their parts.

pub mod version;
pub mod dataspace_dataset;
pub mod properties;
pub mod asset_item;
pub mod participant;
pub mod consumer_provider;
pub mod datasource_types;
pub mod control_plane_dsp_metadata;
pub mod common_expression_language_item;
pub mod contract_definition_item;
pub mod data_plane;
pub mod dataset_extra_fields;
pub mod policy_definition;
pub mod verifiable_credential;
