//! Types for conversations and the messages exchanged in them.

use vstd::prelude::*;

verus! {

#[derive(Clone, Copy, Debug, PartialEq, Eq, Structural)]
pub enum ConversationStatus {
    Open,
    Pending,
    Resolved,
    Closed,
}

#[derive(Clone, Copy, Debug, PartialEq, Eq, Structural)]
pub enum ConversationPriority {
    Low,
    Medium,
    High,
    Urgent,
}

#[derive(Clone, Copy, Debug, PartialEq, Eq, Structural)]
pub enum MessageType {
    Text,
    Image,
    Video,
    Audio,
    Document,
    Location,
    Contact,
    Sticker,
    Template,
    Interactive,
    System,
}

#[derive(Clone, Copy, Debug, PartialEq, Eq, Structural)]
pub enum MessageStatus {
    Pending,
    Sent,
    Delivered,
    Read,
    Failed,
}

#[derive(Clone, Copy, Debug, PartialEq, Eq, Structural)]
pub enum MessageDirection {
    Inbound,
    Outbound,
}

#[derive(Clone, Debug)]
pub struct MediaContent {
    pub url: String,
    pub mime_type: Option<String>,
    pub filename: Option<String>,
    pub size: Option<i64>,
    pub caption: Option<String>,
}

#[derive(Clone, Debug)]
pub struct ContactContent {
    pub name: String,
    pub phones: Vec<PhoneNumber>,
    pub emails: Vec<String>,
}

#[derive(Clone, Debug)]
pub struct PhoneNumber {
    pub phone_type: String,
    pub number: String,
}

#[derive(Clone, Debug)]
pub struct TemplateContent {
    pub name: String,
    pub language: String,
    pub components: Vec<TemplateComponent>,
}

#[derive(Clone, Debug)]
pub struct TemplateComponent {
    pub component_type: String,
    pub parameters: Vec<TemplateParameter>,
}

#[derive(Clone, Debug)]
pub struct TemplateParameter {
    pub param_type: String,
    pub text: Option<String>,
    pub image: Option<MediaContent>,
    pub document: Option<MediaContent>,
    pub video: Option<MediaContent>,
}

#[derive(Clone, Debug)]
pub struct InteractiveContent {
    pub interactive_type: String,
    pub header: Option<InteractiveHeader>,
    pub body: Option<InteractiveBody>,
    pub footer: Option<InteractiveFooter>,
    pub action: Option<InteractiveAction>,
}

#[derive(Clone, Debug)]
pub struct InteractiveHeader {
    pub header_type: String,
    pub text: Option<String>,
    pub image: Option<MediaContent>,
    pub video: Option<MediaContent>,
    pub document: Option<MediaContent>,
}

#[derive(Clone, Debug)]
pub struct InteractiveBody {
    pub text: String,
}

#[derive(Clone, Debug)]
pub struct InteractiveFooter {
    pub text: String,
}

#[derive(Clone, Debug)]
pub struct InteractiveAction {
    pub buttons: Vec<Button>,
    pub sections: Vec<Section>,
}

#[derive(Clone, Debug)]
pub struct Button {
    pub button_type: String,
    pub id: String,
    pub title: String,
}

#[derive(Clone, Debug)]
pub struct Section {
    pub title: String,
    pub rows: Vec<SectionRow>,
}

#[derive(Clone, Debug)]
pub struct SectionRow {
    pub id: String,
    pub title: String,
    pub description: Option<String>,
}

/// Filters for listing conversations.
#[derive(Clone, Debug)]
pub struct ListConversationsParams {
    pub status: Option<ConversationStatus>,
    pub priority: Option<ConversationPriority>,
    pub channel_id: Option<String>,
    pub contact_id: Option<String>,
    pub assigned_agent_id: Option<String>,
    pub tag: Option<String>,
    pub search: Option<String>,
    pub limit: Option<i32>,
    pub page: Option<i32>,
    pub cursor: Option<String>,
}

impl ListConversationsParams {
    pub fn new() -> (p: Self)
        ensures
            p.status is None,
            p.priority is None,
            p.channel_id is None,
            p.contact_id is None,
            p.assigned_agent_id is None,
            p.tag is None,
            p.search is None,
            p.limit is None,
            p.page is None,
            p.cursor is None,
    {
        ListConversationsParams {
            status: None,
            priority: None,
            channel_id: None,
            contact_id: None,
            assigned_agent_id: None,
            tag: None,
            search: None,
            limit: None,
            page: None,
            cursor: None,
        }
    }

    pub fn status(self, status: ConversationStatus) -> (p: Self)
        ensures
            p.status == Some(status),
            p.priority == self.priority,
            p.channel_id == self.channel_id,
            p.contact_id == self.contact_id,
            p.assigned_agent_id == self.assigned_agent_id,
            p.tag == self.tag,
            p.search == self.search,
            p.limit == self.limit,
            p.page == self.page,
            p.cursor == self.cursor,
    {
        ListConversationsParams { status: Some(status), ..self }
    }

    pub fn priority(self, priority: ConversationPriority) -> (p: Self)
        ensures
            p.priority == Some(priority),
            p.status == self.status,
            p.channel_id == self.channel_id,
            p.contact_id == self.contact_id,
            p.assigned_agent_id == self.assigned_agent_id,
            p.tag == self.tag,
            p.search == self.search,
            p.limit == self.limit,
            p.page == self.page,
            p.cursor == self.cursor,
    {
        ListConversationsParams { priority: Some(priority), ..self }
    }

    pub fn channel_id(self, id: &str) -> (p: Self)
        ensures
            p.channel_id matches Some(c) && c@ == id@,
            p.status == self.status,
            p.priority == self.priority,
            p.contact_id == self.contact_id,
            p.assigned_agent_id == self.assigned_agent_id,
            p.tag == self.tag,
            p.search == self.search,
            p.limit == self.limit,
            p.page == self.page,
            p.cursor == self.cursor,
    {
        ListConversationsParams { channel_id: Some(id.to_owned()), ..self }
    }

    pub fn limit(self, limit: i32) -> (p: Self)
        ensures
            p.limit == Some(limit),
            p.status == self.status,
            p.priority == self.priority,
            p.channel_id == self.channel_id,
            p.contact_id == self.contact_id,
            p.assigned_agent_id == self.assigned_agent_id,
            p.tag == self.tag,
            p.search == self.search,
            p.page == self.page,
            p.cursor == self.cursor,
    {
        ListConversationsParams { limit: Some(limit), ..self }
    }
}

} // verus!
