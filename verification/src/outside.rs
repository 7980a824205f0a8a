//! Types of outside crates that the models carry without looking inside them.

use vstd::prelude::*;

verus! {

/// An ODRL policy of the connector's management API, carried as it is.
#[verifier::external_type_specification]
#[verifier::external_body]
pub struct ExPolicy(edc_connector_client_next::types::policy::Policy);

/// An ODRL permission, carried as it is.
#[verifier::external_type_specification]
#[verifier::external_body]
pub struct ExPermission(edc_connector_client_next::types::policy::Permission);

/// An ODRL obligation, carried as it is.
#[verifier::external_type_specification]
#[verifier::external_body]
pub struct ExObligation(edc_connector_client_next::types::policy::Obligation);

/// An ODRL prohibition, carried as it is.
#[verifier::external_type_specification]
#[verifier::external_body]
pub struct ExProhibition(edc_connector_client_next::types::policy::Prohibition);

/// A JSON value, carried as it is.
#[verifier::external_type_specification]
#[verifier::external_body]
pub struct ExJsonValue(serde_json::Value);

} // verus!
