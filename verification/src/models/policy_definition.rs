//! Policy definitions as the console lists them.

use vstd::prelude::*;
use edc_connector_client_next::types::policy::{Obligation, Permission, Prohibition};
use std::collections::HashMap;

verus! {

/// The kind of an ODRL policy.
#[derive(Debug, Clone, Copy, PartialEq, Eq)]
pub enum PolicyKind {
    SetPolicy,
    Offer,
    Agreement,
}

/// The name of a policy kind.
pub open spec fn kind_label(kind: PolicyKind) -> Seq<char> {
    match kind {
        PolicyKind::SetPolicy => "Set"@,
        PolicyKind::Offer => "Offer"@,
        PolicyKind::Agreement => "Agreement"@,
    }
}

impl PolicyKind {
    /// The name of the kind.
    pub fn label(&self) -> (res: String)
        ensures
            res@ == kind_label(*self),
    {
        match self {
            PolicyKind::SetPolicy => "Set".to_string(),
            PolicyKind::Offer => "Offer".to_string(),
            PolicyKind::Agreement => "Agreement".to_string(),
        }
    }
}

/// A policy definition: its id, display name, kind and rules.
#[derive(Clone, Debug, PartialEq)]
pub struct PolicyDefinitionItem {
    pub id: String,
    pub name: String,
    pub kind: String,
    pub permissions: Vec<Permission>,
    pub obligations: Vec<Obligation>,
    pub prohibitions: Vec<Prohibition>,
    pub extensible_properties: HashMap<String, serde_json::Value>,
    pub assignee: Option<String>,
    pub assigner: Option<String>,
}

impl PolicyDefinitionItem {
    /// The item for the definition `id` whose private property `name` is `private_name`
    /// (when it is a string); the name falls back to the id.
    pub fn from_definition(
        id: String,
        private_name: Option<String>,
        kind: PolicyKind,
        permissions: Vec<Permission>,
        obligations: Vec<Obligation>,
        prohibitions: Vec<Prohibition>,
        extensible_properties: HashMap<String, serde_json::Value>,
        assignee: Option<String>,
        assigner: Option<String>,
    ) -> (res: PolicyDefinitionItem)
        ensures
            res.id == id,
            res.name@ == match private_name {
                Some(n) => n@,
                None => id@,
            },
            res.kind@ == kind_label(kind),
            res.permissions == permissions,
            res.obligations == obligations,
            res.prohibitions == prohibitions,
            res.extensible_properties == extensible_properties,
            res.assignee == assignee,
            res.assigner == assigner,
    {
        let name = match private_name {
            Some(n) => n,
            None => id.clone(),
        };
        PolicyDefinitionItem {
            id,
            name,
            kind: kind.label(),
            permissions,
            obligations,
            prohibitions,
            extensible_properties,
            assignee,
            assigner,
        }
    }

    /// The item for a bare policy with id `policy_id`: the id, empty when absent, is also
    /// its name.
    pub fn from_policy(
        policy_id: Option<String>,
        kind: PolicyKind,
        permissions: Vec<Permission>,
        obligations: Vec<Obligation>,
        prohibitions: Vec<Prohibition>,
        extensible_properties: HashMap<String, serde_json::Value>,
        assignee: Option<String>,
        assigner: Option<String>,
    ) -> (res: PolicyDefinitionItem)
        ensures
            res.id@ == crate::models::asset_item::or_empty(crate::text::opt_view(policy_id)),
            res.name@ == res.id@,
            res.kind@ == kind_label(kind),
            res.permissions == permissions,
            res.obligations == obligations,
            res.prohibitions == prohibitions,
            res.extensible_properties == extensible_properties,
            res.assignee == assignee,
            res.assigner == assigner,
    {
        let id = match policy_id {
            Some(i) => i,
            None => String::new(),
        };
        let name = id.clone();
        PolicyDefinitionItem {
            id,
            name,
            kind: kind.label(),
            permissions,
            obligations,
            prohibitions,
            extensible_properties,
            assignee,
            assigner,
        }
    }
}

} // verus!
