//! Types for bot management.

use vstd::prelude::*;

verus! {

#[derive(Clone, Copy, Debug, PartialEq, Eq, Structural)]
pub enum BotStatus {
    Active,
    Inactive,
    Draft,
}

#[derive(Clone, Copy, Debug, PartialEq, Eq, Structural)]
pub enum BotType {
    Flow,
    Ai,
    Hybrid,
}

/// Filters for listing bots.
#[derive(Clone, Debug)]
pub struct ListBotsParams {
    pub status: Option<BotStatus>,
    pub bot_type: Option<BotType>,
    pub channel_id: Option<String>,
    pub search: Option<String>,
    pub limit: Option<i32>,
    pub page: Option<i32>,
}

} // verus!
