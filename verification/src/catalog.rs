//! The fixed catalogues of the interface: the providers a key can be set for
//! and the slash commands.

use vstd::prelude::*;

verus! {

/// A provider of models: its id and the name shown for it.
#[derive(Clone, Copy, Debug)]
pub struct ProviderInfo {
    pub id: &'static str,
    pub name: &'static str,
}

/// A slash command and what it does.
#[derive(Clone, Copy, Debug)]
pub struct Command {
    pub name: &'static str,
    pub description: &'static str,
}

/// The providers, in menu order: id and name of each.
pub open spec fn provider_table() -> Seq<(Seq<char>, Seq<char>)> {
    seq![
        ("openrouter"@, "OpenRouter"@),
        ("nvidia"@, "NVIDIA"@),
        ("opencode-zen"@, "OpenCode Zen"@),
        ("opencode-go"@, "OpenCode Go"@),
        ("openai"@, "OpenAI"@),
        ("anthropic"@, "Anthropic"@),
        ("gemini"@, "Google Gemini"@),
        ("deepseek"@, "DeepSeek"@),
        ("cloudflare-workers"@, "Cloudflare Workers AI"@),
        ("cloudflare-gateway"@, "Cloudflare AI Gateway"@),
    ]
}

/// The slash commands, in menu order: name and description of each.
pub open spec fn command_table() -> Seq<(Seq<char>, Seq<char>)> {
    seq![
        ("/model"@, "Switch model"@),
        ("/resume"@, "Resume a session"@),
        ("/sessions"@, "List saved sessions"@),
        ("/clear"@, "Clear history"@),
        ("/thinking"@, "Set thinking level (low/max)"@),
        ("/help"@, "Show help"@),
        ("/stop"@, "Stop AI generation"@),
        ("/provider"@, "Manage providers"@),
        ("/settings"@, "Manage settings"@),
        ("/exit"@, "Exit application"@),
    ]
}

/// The number of providers.
pub const PROVIDER_COUNT: usize = 10;

/// The providers (see `provider_table`).
pub fn providers() -> (v: Vec<ProviderInfo>)
    ensures
        v@.len() == provider_table().len(),
        v@.len() == PROVIDER_COUNT,
        forall|i: int| 0 <= i < v@.len() ==> (#[trigger] v@[i]).id@ == provider_table()[i].0 && v@[i].name@
            == provider_table()[i].1,
{
    let v = vec![
        ProviderInfo { id: "openrouter", name: "OpenRouter" },
        ProviderInfo { id: "nvidia", name: "NVIDIA" },
        ProviderInfo { id: "opencode-zen", name: "OpenCode Zen" },
        ProviderInfo { id: "opencode-go", name: "OpenCode Go" },
        ProviderInfo { id: "openai", name: "OpenAI" },
        ProviderInfo { id: "anthropic", name: "Anthropic" },
        ProviderInfo { id: "gemini", name: "Google Gemini" },
        ProviderInfo { id: "deepseek", name: "DeepSeek" },
        ProviderInfo { id: "cloudflare-workers", name: "Cloudflare Workers AI" },
        ProviderInfo { id: "cloudflare-gateway", name: "Cloudflare AI Gateway" },
    ];
    v
}

/// The slash commands (see `command_table`).
pub fn commands() -> (v: Vec<Command>)
    ensures
        v@.len() == command_table().len(),
        forall|i: int| 0 <= i < v@.len() ==> (#[trigger] v@[i]).name@ == command_table()[i].0 && v@[i].description@
            == command_table()[i].1,
{
    let v = vec![
        Command { name: "/model", description: "Switch model" },
        Command { name: "/resume", description: "Resume a session" },
        Command { name: "/sessions", description: "List saved sessions" },
        Command { name: "/clear", description: "Clear history" },
        Command { name: "/thinking", description: "Set thinking level (low/max)" },
        Command { name: "/help", description: "Show help" },
        Command { name: "/stop", description: "Stop AI generation" },
        Command { name: "/provider", description: "Manage providers" },
        Command { name: "/settings", description: "Manage settings" },
        Command { name: "/exit", description: "Exit application" },
    ];
    v
}

} // verus!
