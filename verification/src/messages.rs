//! The records exchanged over the wire.
//!
//! A chat message carries a sender identity and a payload, both text. The
//! payment shapes are plain request/response records with scalar fields; the
//! payment handler unconditionally reports success.

use vstd::prelude::*;

verus! {

/// The mathematical model of a chat message: the sender identity and the
/// payload as character sequences.
pub struct ChatMessageModel {
    pub user_id: Seq<char>,
    pub message: Seq<char>,
}

/// A chat message: one outbound message is built per non-blank input line,
/// tagged with the fixed caller identity; inbound messages have the same
/// shape.
pub struct ChatMessage {
    pub user_id: String,
    pub message: String,
}

impl View for ChatMessage {
    type V = ChatMessageModel;

    open spec fn view(&self) -> ChatMessageModel {
        ChatMessageModel { user_id: self.user_id@, message: self.message@ }
    }
}

/// The models of a sequence of chat messages, in the same order.
pub open spec fn models_of(messages: Seq<ChatMessage>) -> Seq<ChatMessageModel> {
    messages.map(|i: int, m: ChatMessage| m@)
}

/// A payment request: an amount in minor currency units and the identifier
/// of the paying user.
pub struct PaymentRequest {
    pub amount_cents: u64,
    pub user_id: String,
}

/// A payment response: a single success flag.
pub struct PaymentResponse {
    pub success: bool,
}

/// The payment handler. It holds no state and applies no business rule:
/// every request is reported successful.
pub struct MyPaymentService {}

impl MyPaymentService {
    /// Builds a fresh handler.
    pub fn new() -> (s: MyPaymentService) {
        MyPaymentService {  }
    }

    /// Answers a payment request; the response always reports success,
    /// whatever the request holds.
    pub fn process_payment(&self, request: &PaymentRequest) -> (r: PaymentResponse)
        ensures
            r.success,
    {
        let _ = request;
        PaymentResponse { success: true }
    }
}

impl Default for MyPaymentService {
    /// The default handler: same behaviour as any other.
    fn default() -> (s: MyPaymentService) {
        MyPaymentService {  }
    }
}

} // verus!
