//! Types for the visual rendering engine: template rendering requests and
//! the image responses they produce.

use vstd::prelude::*;

verus! {

/// Output format for rendered images.
#[derive(Clone, Copy, Debug, PartialEq, Eq, Structural)]
pub enum VREOutputFormat {
    Png,
    Webp,
    Jpeg,
}

/// Channel a rendering is targeted at.
#[derive(Clone, Copy, Debug, PartialEq, Eq, Structural)]
pub enum VREChannelType {
    Whatsapp,
    Telegram,
    Web,
    Email,
}

/// The template kinds the engine offers.
#[derive(Clone, Copy, Debug, PartialEq, Eq, Structural)]
pub enum VRETemplateType {
    MenuOpcoes,
    CardProduto,
    StatusPedido,
    ListaProdutos,
    Confirmacao,
    CobrancaPix,
}

/// Order progress shown by the status timeline template.
#[derive(Clone, Copy, Debug, PartialEq, Eq, Structural)]
pub enum OrderStatus {
    Recebido,
    Separacao,
    Faturado,
    Transporte,
    Entregue,
}

/// Stock availability shown on product cards.
#[derive(Clone, Copy, Debug, PartialEq, Eq, Structural)]
pub enum StockStatus {
    Disponivel,
    Baixo,
    Indisponivel,
}

/// A rendered template: base64-encoded image data ready for a messaging
/// channel.
#[derive(Clone, Debug)]
pub struct VRERenderResponse {
    pub image_base64: String,
    pub caption: String,
    pub width: i32,
    pub height: i32,
    pub format: VREOutputFormat,
    pub render_time_ms: i32,
    pub size_bytes: Option<i64>,
    pub cache_hit: Option<bool>,
}

/// Confirmation that a rendering was sent into a conversation.
#[derive(Clone, Debug)]
pub struct VRERenderAndSendResponse {
    pub message_id: String,
    pub image_url: String,
    pub caption: String,
}

/// A template preview rendering.
#[derive(Clone, Debug)]
pub struct VREPreviewResponse {
    pub image_base64: String,
    pub width: i32,
    pub height: i32,
}

/// One option of the numbered-menu template.
#[derive(Clone, Debug)]
pub struct MenuOpcaoData {
    pub label: String,
    pub descricao: Option<String>,
    pub icone: Option<String>,
}

impl MenuOpcaoData {
    pub fn new(label: &str) -> (m: Self)
        ensures
            m.label@ == label@,
            m.descricao is None,
            m.icone is None,
    {
        MenuOpcaoData { label: label.to_owned(), descricao: None, icone: None }
    }

    pub fn descricao(self, descricao: &str) -> (m: Self)
        ensures
            m.descricao matches Some(d) && d@ == descricao@,
            m.label == self.label,
            m.icone == self.icone,
    {
        MenuOpcaoData { descricao: Some(descricao.to_owned()), ..self }
    }

    pub fn icone(self, icone: &str) -> (m: Self)
        ensures
            m.icone matches Some(i) && i@ == icone@,
            m.label == self.label,
            m.descricao == self.descricao,
    {
        MenuOpcaoData { icone: Some(icone.to_owned()), ..self }
    }
}

} // verus!
