//! The decisions the console's views take: paging, selections, progress, labels and forms.

pub mod pagination;
pub mod selection;
pub mod progress;
pub mod policy_text;
pub mod forms;
pub mod labels;
