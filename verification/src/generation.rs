//! Generated text for the game master.
//!
//! The generator answers from a fixed set of texts, one for each kind of
//! request. It stands where a text-generation service would be called.

use vstd::prelude::*;
use crate::text::same_text;

verus! {

/// A request for generated text.
#[derive(Clone, Debug, PartialEq, Eq)]
pub struct AIRequest {
    pub prompt: String,
    pub context: Option<String>,
    pub session_id: Option<u128>,
    /// One of `npc`, `location`, `encounter`, `description`, `chat`.
    pub request_type: String,
}

/// The generator's answer: the text, the number of tokens spent where known,
/// and the name of the model.
#[derive(Clone, Debug, PartialEq, Eq)]
pub struct AIResponse {
    pub response: String,
    pub tokens_used: Option<i32>,
    pub model: String,
}

/// The text that answers a request of the given type.
pub open spec fn canned_text(request_type: Seq<char>) -> Seq<char> {
    if request_type == "npc"@ {
        "Generated NPC: A mysterious figure with a weathered cloak and piercing eyes. They seem to know more than they let on..."@
    } else if request_type == "location"@ {
        "Generated Location: A dimly lit tavern with smoke curling from the fireplace. The wooden beams creak with age, and the air is thick with the smell of ale and adventure."@
    } else if request_type == "encounter"@ {
        "Generated Encounter: A group of bandits has set up an ambush in the forest. They're well-armed and seem desperate, suggesting they might be open to negotiation."@
    } else if request_type == "description"@ {
        "Enhanced Description: The ancient castle looms before you, its weathered stone walls bearing the scars of countless battles. Torches flicker in the arrow slits, casting dancing shadows that seem to move of their own accord."@
    } else if request_type == "chat"@ {
        "AI Assistant: Based on the current situation, I'd suggest considering the diplomatic approach. The goblins seem nervous and might be more interested in survival than combat."@
    } else {
        "AI Response: I'm here to help with your D&D session. What would you like me to assist with?"@
    }
}

/// The number of tokens that every answer reports.
pub const TOKENS_USED: i32 = 150;

/// Answers a request: the text for its type, with a fixed token count and
/// model name. The prompt and the context do not change the answer.
pub fn ai_generate(request: &AIRequest) -> (answer: AIResponse)
    ensures
        answer.response@ == canned_text(request.request_type@),
        answer.tokens_used == Some(TOKENS_USED),
        answer.model@ == "gpt-4"@,
{
    let kind = request.request_type.as_str();
    let response = if same_text(kind, "npc") {
        "Generated NPC: A mysterious figure with a weathered cloak and piercing eyes. They seem to know more than they let on..."
    } else if same_text(kind, "location") {
        "Generated Location: A dimly lit tavern with smoke curling from the fireplace. The wooden beams creak with age, and the air is thick with the smell of ale and adventure."
    } else if same_text(kind, "encounter") {
        "Generated Encounter: A group of bandits has set up an ambush in the forest. They're well-armed and seem desperate, suggesting they might be open to negotiation."
    } else if same_text(kind, "description") {
        "Enhanced Description: The ancient castle looms before you, its weathered stone walls bearing the scars of countless battles. Torches flicker in the arrow slits, casting dancing shadows that seem to move of their own accord."
    } else if same_text(kind, "chat") {
        "AI Assistant: Based on the current situation, I'd suggest considering the diplomatic approach. The goblins seem nervous and might be more interested in survival than combat."
    } else {
        "AI Response: I'm here to help with your D&D session. What would you like me to assist with?"
    };
    AIResponse {
        response: response.to_owned(),
        tokens_used: Some(TOKENS_USED),
        model: "gpt-4".to_owned(),
    }
}

} // verus!
