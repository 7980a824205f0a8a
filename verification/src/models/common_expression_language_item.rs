//! Common Expression Language (CEL) expressions registered at the connector.

use vstd::prelude::*;
use crate::text::{join_strings, seq_join, views};

verus! {

/// A CEL expression the connector evaluates for a left operand, in some scopes.
#[derive(Clone, Debug, PartialEq)]
pub struct CommonExpressionLanguageItem {
    pub id: String,
    pub left_operand: String,
    pub description: Option<String>,
    pub scopes: Vec<String>,
    pub expression: String,
}

impl CommonExpressionLanguageItem {
    /// The scopes as one line, separated by commas.
    pub fn scopes_text(&self) -> (res: String)
        ensures
            res@ == seq_join(views(self.scopes@), ", "@),
    {
        join_strings(&self.scopes, ", ")
    }

    /// The description, empty when there is none.
    pub fn description_text(&self) -> (res: String)
        ensures
            res@ == crate::models::asset_item::or_empty(crate::text::opt_view(self.description)),
    {
        match &self.description {
            Some(d) => d.clone(),
            None => String::new(),
        }
    }
}

} // verus!
