use thesis_rewriter::prompt::{
    rewrite_chat, user_message, ChatMessage, RewriteStyle, FALLBACK_CHAT_TEMPLATE, SYSTEM_PROMPT,
};

#[test]
fn style_names_map_to_styles() {
    assert_eq!(RewriteStyle::from_name("Concise"), RewriteStyle::Concise);
    assert_eq!(RewriteStyle::from_name("Professional"), RewriteStyle::Professional);
    assert_eq!(RewriteStyle::from_name("Academic"), RewriteStyle::Academic);
}

#[test]
fn unknown_style_names_fall_back_to_academic() {
    assert_eq!(RewriteStyle::from_name(""), RewriteStyle::Academic);
    assert_eq!(RewriteStyle::from_name("concise"), RewriteStyle::Academic);
    assert_eq!(RewriteStyle::from_name("Concise "), RewriteStyle::Academic);
    assert_eq!(RewriteStyle::from_name("Casual"), RewriteStyle::Academic);
}

#[test]
fn style_instructions_are_exact() {
    assert_eq!(
        RewriteStyle::Concise.instruction(),
        "Make the writing concise, remove redundancy, and preserve all key meaning."
    );
    assert_eq!(
        RewriteStyle::Professional.instruction(),
        "Use a professional tone with clear structure, precise wording, and polished flow."
    );
    assert_eq!(
        RewriteStyle::Academic.instruction(),
        "Use a formal academic tone with improved clarity, cohesion, and scholarly wording."
    );
}

#[test]
fn user_message_layout() {
    assert_eq!(
        user_message(RewriteStyle::Concise, "The results was good."),
        "Make the writing concise, remove redundancy, and preserve all key meaning.\n\nText to rewrite:\nThe results was good."
    );
}

#[test]
fn rewrite_chat_has_system_then_user_message() {
    let chat = rewrite_chat("Hasil penelitian ini baik.", "Professional");
    assert_eq!(
        chat,
        vec![
            ChatMessage { role: "system".to_string(), content: SYSTEM_PROMPT.to_string() },
            ChatMessage {
                role: "user".to_string(),
                content: format!(
                    "{}\n\nText to rewrite:\n{}",
                    "Use a professional tone with clear structure, precise wording, and polished flow.",
                    "Hasil penelitian ini baik."
                ),
            },
        ]
    );
}

#[test]
fn system_prompt_asks_for_same_language_without_thinking() {
    assert!(SYSTEM_PROMPT.starts_with("You are a multilingual academic writing assistant."));
    assert!(SYSTEM_PROMPT.contains("in the same language as the input"));
    assert!(SYSTEM_PROMPT.ends_with("/no_think"));
    assert_eq!(FALLBACK_CHAT_TEMPLATE, "chatml");
}
