//! Contract definitions: which policies govern which assets.

use vstd::prelude::*;
use crate::models::properties::{as_text, JsonValue};
use crate::text::views;

verus! {

/// A contract definition as the console lists it.
#[derive(Clone, Debug, PartialEq)]
pub struct ContractDefinitionItem {
    pub id: String,
    pub access_policy_id: String,
    pub contract_policy_id: String,
    pub asset_ids: Vec<String>,
}

/// The asset id an asset-selector criterion names: its right operand when that is a string,
/// else a note that it is not a valid id.
pub open spec fn asset_id_of(operand: JsonValue) -> Seq<char> {
    match as_text(operand) {
        Some(s) => s,
        None => "Invalid asset id."@,
    }
}

impl ContractDefinitionItem {
    /// A contract definition with the given id and policies, selecting the assets named by
    /// the right operands of its asset-selector criteria, in order.
    pub fn from_parts(
        id: String,
        access_policy_id: String,
        contract_policy_id: String,
        right_operands: &Vec<JsonValue>,
    ) -> (res: ContractDefinitionItem)
        ensures
            res.id == id,
            res.access_policy_id == access_policy_id,
            res.contract_policy_id == contract_policy_id,
            views(res.asset_ids@) == right_operands@.map_values(|v: JsonValue| asset_id_of(v)),
    {
        let mut asset_ids: Vec<String> = Vec::new();
        let mut i: usize = 0;
        while i < right_operands.len()
            invariant
                i <= right_operands.len(),
                views(asset_ids@) == right_operands@.take(i as int).map_values(|v: JsonValue| asset_id_of(v)),
            decreases right_operands.len() - i,
        {
            let ghost before = asset_ids@;
            let asset_id = match &right_operands[i] {
                JsonValue::Text(s) => s.clone(),
                _ => "Invalid asset id.".to_string(),
            };
            asset_ids.push(asset_id);
            assert(views(asset_ids@) =~= views(before).push(asset_id@));
            assert(right_operands@.take(i + 1) =~= right_operands@.take(i as int).push(right_operands@[i as int]));
            assert(right_operands@.take(i + 1).map_values(|v: JsonValue| asset_id_of(v))
                =~= right_operands@.take(i as int).map_values(|v: JsonValue| asset_id_of(v)).push(asset_id_of(right_operands@[i as int])));
            i += 1;
        }
        assert(right_operands@.take(right_operands.len() as int) =~= right_operands@);
        ContractDefinitionItem { id, access_policy_id, contract_policy_id, asset_ids }
    }
}

} // verus!
