//! Types for messaging channel management.

use vstd::prelude::*;

verus! {

#[derive(Clone, Copy, Debug, PartialEq, Eq, Structural)]
pub enum ChannelType {
    Whatsapp,
    WhatsappUnofficial,
    Telegram,
    Facebook,
    Instagram,
    Webchat,
    Sms,
    Email,
    Rcs,
}

#[derive(Clone, Copy, Debug, PartialEq, Eq, Structural)]
pub enum ChannelStatus {
    Connected,
    Disconnected,
    Connecting,
    Error,
}

/// Filters for listing channels.
#[derive(Clone, Debug)]
pub struct ListChannelsParams {
    pub channel_type: Option<ChannelType>,
    pub status: Option<ChannelStatus>,
    pub search: Option<String>,
    pub limit: Option<i32>,
    pub page: Option<i32>,
}

} // verus!
