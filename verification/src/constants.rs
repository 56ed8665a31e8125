//! User-facing texts of the chat interface.

use vstd::prelude::*;

use crate::theme::{
    brand_text, command_text, emphasis_text, error_text, info_text, primary_text, secondary_text,
    success_text, StyledText,
};

verus! {

/// The base product name.
pub const PRODUCT_NAME: &'static str = "Amazon Q";

/// The client name used for authentication.
pub const CLIENT_NAME: &'static str = "Amazon Q Developer for command line";

/// The message for when the service has trouble responding.
pub const TROUBLE_RESPONDING: &'static str = "Amazon Q is having trouble responding right now";

/// The prefix of the rate limit message.
pub const RATE_LIMIT_PREFIX: &'static str = " ⚠️  Amazon Q rate limit reached:";

/// The description of the context command.
pub const CONTEXT_DESCRIPTION: &'static str = "Subcommands for managing context rules and files in Amazon Q chat sessions";

/// The text that [small_screen_welcome] returns.
pub open spec fn small_screen_welcome_view() -> Seq<char> {
    "Welcome to "@ + brand_text("Amazon Q"@) + "!"@
}

/// Welcome text for small screens.
pub fn small_screen_welcome() -> (res: String)
    ensures
        res@ == small_screen_welcome_view(),
{
    let mut s = String::new();
    s.append("Welcome to ");
    s.append(StyledText::brand("Amazon Q").as_str());
    s.append("!");
    assert(s@ =~= "Welcome to "@ + brand_text("Amazon Q"@) + "!"@);
    s
}

/// The changelog header.
pub fn changelog_header() -> (res: String)
    ensures
        res@ == emphasis_text("What's New in Amazon Q CLI"@) + "\n\n"@,
{
    let mut s = String::new();
    s.append(StyledText::emphasis("What's New in Amazon Q CLI").as_str());
    s.append("\n\n");
    assert(s@ =~= emphasis_text("What's New in Amazon Q CLI"@) + "\n\n"@);
    s
}

/// The text that [trust_all_warning] returns.
pub open spec fn trust_all_warning_view() -> Seq<char> {
    success_text("All tools are now trusted ("@) + error_text("!"@) + success_text("). Amazon Q will execute tools without asking for confirmation."@) + "\nAgents can sometimes do unexpected things so understand the risks."@ + "\n\nLearn more at https://docs.aws.amazon.com/amazonq/latest/qdeveloper-ug/command-line-chat-security.html#command-line-chat-trustall-safety"@
}

/// The warning shown when all tools are trusted.
pub fn trust_all_warning() -> (res: String)
    ensures
        res@ == trust_all_warning_view(),
{
    let mut s = String::new();
    s.append(StyledText::success("All tools are now trusted (").as_str());
    s.append(StyledText::error("!").as_str());
    s.append(StyledText::success("). Amazon Q will execute tools without asking for confirmation.").as_str());
    s.append("\nAgents can sometimes do unexpected things so understand the risks.");
    s.append("\n\nLearn more at https://docs.aws.amazon.com/amazonq/latest/qdeveloper-ug/command-line-chat-security.html#command-line-chat-trustall-safety");
    assert(s@ =~= success_text("All tools are now trusted ("@) + error_text("!"@) + success_text("). Amazon Q will execute tools without asking for confirmation."@) + "\nAgents can sometimes do unexpected things so understand the risks."@ + "\n\nLearn more at https://docs.aws.amazon.com/amazonq/latest/qdeveloper-ug/command-line-chat-security.html#command-line-chat-trustall-safety"@);
    s
}

/// The message shown when the monthly free requests are used up.
pub fn limit_reached_text() -> (res: String)
    ensures
        res@ == "You've used all your free requests for this month. You have two options:\n\n1. Upgrade to a paid subscription for increased limits. See our Pricing page for what's included> "@ + info_text("https://aws.amazon.com/q/developer/pricing/"@) + "\n2. Wait until next month when your limit automatically resets."@,
{
    let mut s = String::new();
    s.append("You've used all your free requests for this month. You have two options:\n\n1. Upgrade to a paid subscription for increased limits. See our Pricing page for what's included> ");
    s.append(StyledText::info("https://aws.amazon.com/q/developer/pricing/").as_str());
    s.append("\n2. Wait until next month when your limit automatically resets.");
    assert(s@ =~= "You've used all your free requests for this month. You have two options:\n\n1. Upgrade to a paid subscription for increased limits. See our Pricing page for what's included> "@ + info_text("https://aws.amazon.com/q/developer/pricing/"@) + "\n2. Wait until next month when your limit automatically resets."@);
    s
}

/// Extra help text shown in the chat interface.
pub fn extra_help() -> (res: String)
    ensures
        res@ == "\n"@ + brand_text("MCP:"@) + "\n"@ + secondary_text("You can now configure the Amazon Q CLI to use MCP servers."@) + secondary_text("\nLearn how: https://docs.aws.amazon.com/amazonq/latest/qdeveloper-ug/qdev-mcp.html"@) + "\n\n"@ + brand_text("Tips:"@) + "\n"@ + primary_text("!{command}"@) + "          "@ + secondary_text("Quickly execute a command in your current session"@) + "\n"@ + primary_text("Ctrl(^) + j"@) + "         "@ + secondary_text("Insert new-line to provide multi-line prompt"@) + "\n                    "@ + secondary_text("Alternatively, [Alt(⌥) + Enter(⏎)]"@) + "\n"@ + primary_text("Ctrl(^) + s"@) + "         "@ + secondary_text("Fuzzy search commands and context files"@) + "\n                    "@ + secondary_text("Use Tab to select multiple items"@) + "\n                    "@ + secondary_text("Change the keybind using: q settings chat.skimCommandKey x"@) + "\n"@ + primary_text("Ctrl(^) + t"@) + "         "@ + secondary_text("Toggle tangent mode for isolated conversations"@) + "\n                    "@ + secondary_text("Change the keybind using: q settings chat.tangentModeKey x"@) + "\n"@ + primary_text("chat.editMode"@) + "       "@ + secondary_text("The prompt editing mode (vim or emacs)"@) + "\n                    "@ + secondary_text("Change using: q settings chat.skimCommandKey x"@),
{
    let mut s = String::new();
    s.append("\n");
    s.append(StyledText::brand("MCP:").as_str());
    s.append("\n");
    s.append(StyledText::secondary("You can now configure the Amazon Q CLI to use MCP servers.").as_str());
    s.append(StyledText::secondary("\nLearn how: https://docs.aws.amazon.com/amazonq/latest/qdeveloper-ug/qdev-mcp.html").as_str());
    s.append("\n\n");
    s.append(StyledText::brand("Tips:").as_str());
    s.append("\n");
    s.append(StyledText::primary("!{command}").as_str());
    s.append("          ");
    s.append(StyledText::secondary("Quickly execute a command in your current session").as_str());
    s.append("\n");
    s.append(StyledText::primary("Ctrl(^) + j").as_str());
    s.append("         ");
    s.append(StyledText::secondary("Insert new-line to provide multi-line prompt").as_str());
    s.append("\n                    ");
    s.append(StyledText::secondary("Alternatively, [Alt(⌥) + Enter(⏎)]").as_str());
    s.append("\n");
    s.append(StyledText::primary("Ctrl(^) + s").as_str());
    s.append("         ");
    s.append(StyledText::secondary("Fuzzy search commands and context files").as_str());
    s.append("\n                    ");
    s.append(StyledText::secondary("Use Tab to select multiple items").as_str());
    s.append("\n                    ");
    s.append(StyledText::secondary("Change the keybind using: q settings chat.skimCommandKey x").as_str());
    s.append("\n");
    s.append(StyledText::primary("Ctrl(^) + t").as_str());
    s.append("         ");
    s.append(StyledText::secondary("Toggle tangent mode for isolated conversations").as_str());
    s.append("\n                    ");
    s.append(StyledText::secondary("Change the keybind using: q settings chat.tangentModeKey x").as_str());
    s.append("\n");
    s.append(StyledText::primary("chat.editMode").as_str());
    s.append("       ");
    s.append(StyledText::secondary("The prompt editing mode (vim or emacs)").as_str());
    s.append("\n                    ");
    s.append(StyledText::secondary("Change using: q settings chat.skimCommandKey x").as_str());
    assert(s@ =~= "\n"@ + brand_text("MCP:"@) + "\n"@ + secondary_text("You can now configure the Amazon Q CLI to use MCP servers."@) + secondary_text("\nLearn how: https://docs.aws.amazon.com/amazonq/latest/qdeveloper-ug/qdev-mcp.html"@) + "\n\n"@ + brand_text("Tips:"@) + "\n"@ + primary_text("!{command}"@) + "          "@ + secondary_text("Quickly execute a command in your current session"@) + "\n"@ + primary_text("Ctrl(^) + j"@) + "         "@ + secondary_text("Insert new-line to provide multi-line prompt"@) + "\n                    "@ + secondary_text("Alternatively, [Alt(⌥) + Enter(⏎)]"@) + "\n"@ + primary_text("Ctrl(^) + s"@) + "         "@ + secondary_text("Fuzzy search commands and context files"@) + "\n                    "@ + secondary_text("Use Tab to select multiple items"@) + "\n                    "@ + secondary_text("Change the keybind using: q settings chat.skimCommandKey x"@) + "\n"@ + primary_text("Ctrl(^) + t"@) + "         "@ + secondary_text("Toggle tangent mode for isolated conversations"@) + "\n                    "@ + secondary_text("Change the keybind using: q settings chat.tangentModeKey x"@) + "\n"@ + primary_text("chat.editMode"@) + "       "@ + secondary_text("The prompt editing mode (vim or emacs)"@) + "\n                    "@ + secondary_text("Change using: q settings chat.skimCommandKey x"@));
    s
}

/// The text that [welcome_text] returns.
pub open spec fn welcome_text_view() -> Seq<char> {
    brand_text("\n       ⢠⣶⣶⣦⠀⠀⠀⠀⠀⠀⠀⠀⠀⠀⠀⠀⠀⠀⠀⠀⠀⠀⠀⠀⠀⠀⠀⠀⠀⠀⠀⠀⠀⠀⠀⠀⠀⠀⠀⠀⠀⠀⠀⠀⠀⠀⠀⠀⠀⠀⠀⠀⠀⠀⠀⠀⠀⠀⠀⠀⠀⠀⠀⠀⢀⣤⣶⣿⣿⣿⣶⣦⡀⠀\n    ⠀⠀⠀⣾⡿⢻⣿⡆⠀⠀⠀⢀⣄⡄⢀⣠⣤⣤⡀⢀⣠⣤⣤⡀⠀⠀⢀⣠⣤⣤⣤⣄⠀⠀⢀⣤⣤⣤⣤⣤⣤⡀⠀⠀⣀⣤⣤⣤⣀⠀⠀⠀⢠⣤⡀⣀⣤⣤⣄⡀⠀⠀⠀⠀⠀⠀⢠⣿⣿⠋⠀⠀⠀⠙⣿⣿⡆\n    ⠀⠀⣼⣿⠇⠀⣿⣿⡄⠀⠀⢸⣿⣿⠛⠉⠻⣿⣿⠛⠉⠛⣿⣿⠀⠀⠘⠛⠉⠉⠻⣿⣧⠀⠈⠛⠛⠛⣻⣿⡿⠀⢀⣾⣿⠛⠉⠻⣿⣷⡀⠀⢸⣿⡟⠛⠉⢻⣿⣷⠀⠀⠀⠀⠀⠀⣼⣿⡏⠀⠀⠀⠀⠀⢸⣿⣿\n    ⠀⢰⣿⣿⣤⣤⣼⣿⣷⠀⠀⢸⣿⣿⠀⠀⠀⣿⣿⠀⠀⠀⣿⣿⠀⠀⢀⣴⣶⣶⣶⣿⣿⠀⠀⠀⣠⣾⡿⠋⠀⠀⢸⣿⣿⠀⠀⠀⣿⣿⡇⠀⢸⣿⡇⠀⠀⢸⣿⣿⠀⠀⠀⠀⠀⠀⢹⣿⣇⠀⠀⠀⠀⠀⢸⣿⡿\n    ⢀⣿⣿⠋⠉⠉⠉⢻⣿⣇⠀⢸⣿⣿⠀⠀⠀⣿⣿⠀⠀⠀⣿⣿⠀⠀⣿⣿⡀⠀⣠⣿⣿⠀⢀⣴⣿⣋⣀⣀⣀⡀⠘⣿⣿⣄⣀⣠⣿⣿⠃⠀⢸⣿⡇⠀⠀⢸⣿⣿⠀⠀⠀⠀⠀⠀⠈⢿⣿⣦⣀⣀⣀⣴⣿⡿⠃\n    ⠚⠛⠋⠀⠀⠀⠀⠘⠛⠛⠀⠘⠛⠛⠀⠀⠀⠛⠛⠀⠀⠀⠛⠛⠀⠀⠙⠻⠿⠟⠋⠛⠛⠀⠘⠛⠛⠛⠛⠛⠛⠃⠀⠈⠛⠿⠿⠿⠛⠁⠀⠀⠘⠛⠃⠀⠀⠘⠛⠛⠀⠀⠀⠀⠀⠀⠀⠀⠙⠛⠿⢿⣿⣿⣋⠀⠀\n    ⠀⠀⠀⠀⠀⠀⠀⠀⠀⠀⠀⠀⠀⠀⠀⠀⠀⠀⠀⠀⠀⠀⠀⠀⠀⠀⠀⠀⠀⠀⠀⠀⠀⠀⠀⠀⠀⠀⠀⠀⠀⠀⠀⠀⠀⠀⠀⠀⠀⠀⠀⠀⠀⠀⠀⠀⠀⠀⠀⠀⠀⠀⠀⠀⠀⠀⠀⠀⠀⠀⠀⠀⠈⠛⠿⢿⡧"@)
}

/// The welcome text with the logo, for large screens.
pub fn welcome_text() -> (res: String)
    ensures
        res@ == welcome_text_view(),
{
    let mut s = String::new();
    s.append(StyledText::brand("\n       ⢠⣶⣶⣦⠀⠀⠀⠀⠀⠀⠀⠀⠀⠀⠀⠀⠀⠀⠀⠀⠀⠀⠀⠀⠀⠀⠀⠀⠀⠀⠀⠀⠀⠀⠀⠀⠀⠀⠀⠀⠀⠀⠀⠀⠀⠀⠀⠀⠀⠀⠀⠀⠀⠀⠀⠀⠀⠀⠀⠀⠀⠀⠀⠀⢀⣤⣶⣿⣿⣿⣶⣦⡀⠀\n    ⠀⠀⠀⣾⡿⢻⣿⡆⠀⠀⠀⢀⣄⡄⢀⣠⣤⣤⡀⢀⣠⣤⣤⡀⠀⠀⢀⣠⣤⣤⣤⣄⠀⠀⢀⣤⣤⣤⣤⣤⣤⡀⠀⠀⣀⣤⣤⣤⣀⠀⠀⠀⢠⣤⡀⣀⣤⣤⣄⡀⠀⠀⠀⠀⠀⠀⢠⣿⣿⠋⠀⠀⠀⠙⣿⣿⡆\n    ⠀⠀⣼⣿⠇⠀⣿⣿⡄⠀⠀⢸⣿⣿⠛⠉⠻⣿⣿⠛⠉⠛⣿⣿⠀⠀⠘⠛⠉⠉⠻⣿⣧⠀⠈⠛⠛⠛⣻⣿⡿⠀⢀⣾⣿⠛⠉⠻⣿⣷⡀⠀⢸⣿⡟⠛⠉⢻⣿⣷⠀⠀⠀⠀⠀⠀⣼⣿⡏⠀⠀⠀⠀⠀⢸⣿⣿\n    ⠀⢰⣿⣿⣤⣤⣼⣿⣷⠀⠀⢸⣿⣿⠀⠀⠀⣿⣿⠀⠀⠀⣿⣿⠀⠀⢀⣴⣶⣶⣶⣿⣿⠀⠀⠀⣠⣾⡿⠋⠀⠀⢸⣿⣿⠀⠀⠀⣿⣿⡇⠀⢸⣿⡇⠀⠀⢸⣿⣿⠀⠀⠀⠀⠀⠀⢹⣿⣇⠀⠀⠀⠀⠀⢸⣿⡿\n    ⢀⣿⣿⠋⠉⠉⠉⢻⣿⣇⠀⢸⣿⣿⠀⠀⠀⣿⣿⠀⠀⠀⣿⣿⠀⠀⣿⣿⡀⠀⣠⣿⣿⠀⢀⣴⣿⣋⣀⣀⣀⡀⠘⣿⣿⣄⣀⣠⣿⣿⠃⠀⢸⣿⡇⠀⠀⢸⣿⣿⠀⠀⠀⠀⠀⠀⠈⢿⣿⣦⣀⣀⣀⣴⣿⡿⠃\n    ⠚⠛⠋⠀⠀⠀⠀⠘⠛⠛⠀⠘⠛⠛⠀⠀⠀⠛⠛⠀⠀⠀⠛⠛⠀⠀⠙⠻⠿⠟⠋⠛⠛⠀⠘⠛⠛⠛⠛⠛⠛⠃⠀⠈⠛⠿⠿⠿⠛⠁⠀⠀⠘⠛⠃⠀⠀⠘⠛⠛⠀⠀⠀⠀⠀⠀⠀⠀⠙⠛⠿⢿⣿⣿⣋⠀⠀\n    ⠀⠀⠀⠀⠀⠀⠀⠀⠀⠀⠀⠀⠀⠀⠀⠀⠀⠀⠀⠀⠀⠀⠀⠀⠀⠀⠀⠀⠀⠀⠀⠀⠀⠀⠀⠀⠀⠀⠀⠀⠀⠀⠀⠀⠀⠀⠀⠀⠀⠀⠀⠀⠀⠀⠀⠀⠀⠀⠀⠀⠀⠀⠀⠀⠀⠀⠀⠀⠀⠀⠀⠀⠈⠛⠿⢿⡧").as_str());
    assert(s@ =~= brand_text("\n       ⢠⣶⣶⣦⠀⠀⠀⠀⠀⠀⠀⠀⠀⠀⠀⠀⠀⠀⠀⠀⠀⠀⠀⠀⠀⠀⠀⠀⠀⠀⠀⠀⠀⠀⠀⠀⠀⠀⠀⠀⠀⠀⠀⠀⠀⠀⠀⠀⠀⠀⠀⠀⠀⠀⠀⠀⠀⠀⠀⠀⠀⠀⠀⠀⢀⣤⣶⣿⣿⣿⣶⣦⡀⠀\n    ⠀⠀⠀⣾⡿⢻⣿⡆⠀⠀⠀⢀⣄⡄⢀⣠⣤⣤⡀⢀⣠⣤⣤⡀⠀⠀⢀⣠⣤⣤⣤⣄⠀⠀⢀⣤⣤⣤⣤⣤⣤⡀⠀⠀⣀⣤⣤⣤⣀⠀⠀⠀⢠⣤⡀⣀⣤⣤⣄⡀⠀⠀⠀⠀⠀⠀⢠⣿⣿⠋⠀⠀⠀⠙⣿⣿⡆\n    ⠀⠀⣼⣿⠇⠀⣿⣿⡄⠀⠀⢸⣿⣿⠛⠉⠻⣿⣿⠛⠉⠛⣿⣿⠀⠀⠘⠛⠉⠉⠻⣿⣧⠀⠈⠛⠛⠛⣻⣿⡿⠀⢀⣾⣿⠛⠉⠻⣿⣷⡀⠀⢸⣿⡟⠛⠉⢻⣿⣷⠀⠀⠀⠀⠀⠀⣼⣿⡏⠀⠀⠀⠀⠀⢸⣿⣿\n    ⠀⢰⣿⣿⣤⣤⣼⣿⣷⠀⠀⢸⣿⣿⠀⠀⠀⣿⣿⠀⠀⠀⣿⣿⠀⠀⢀⣴⣶⣶⣶⣿⣿⠀⠀⠀⣠⣾⡿⠋⠀⠀⢸⣿⣿⠀⠀⠀⣿⣿⡇⠀⢸⣿⡇⠀⠀⢸⣿⣿⠀⠀⠀⠀⠀⠀⢹⣿⣇⠀⠀⠀⠀⠀⢸⣿⡿\n    ⢀⣿⣿⠋⠉⠉⠉⢻⣿⣇⠀⢸⣿⣿⠀⠀⠀⣿⣿⠀⠀⠀⣿⣿⠀⠀⣿⣿⡀⠀⣠⣿⣿⠀⢀⣴⣿⣋⣀⣀⣀⡀⠘⣿⣿⣄⣀⣠⣿⣿⠃⠀⢸⣿⡇⠀⠀⢸⣿⣿⠀⠀⠀⠀⠀⠀⠈⢿⣿⣦⣀⣀⣀⣴⣿⡿⠃\n    ⠚⠛⠋⠀⠀⠀⠀⠘⠛⠛⠀⠘⠛⠛⠀⠀⠀⠛⠛⠀⠀⠀⠛⠛⠀⠀⠙⠻⠿⠟⠋⠛⠛⠀⠘⠛⠛⠛⠛⠛⠛⠃⠀⠈⠛⠿⠿⠿⠛⠁⠀⠀⠘⠛⠃⠀⠀⠘⠛⠛⠀⠀⠀⠀⠀⠀⠀⠀⠙⠛⠿⢿⣿⣿⣋⠀⠀\n    ⠀⠀⠀⠀⠀⠀⠀⠀⠀⠀⠀⠀⠀⠀⠀⠀⠀⠀⠀⠀⠀⠀⠀⠀⠀⠀⠀⠀⠀⠀⠀⠀⠀⠀⠀⠀⠀⠀⠀⠀⠀⠀⠀⠀⠀⠀⠀⠀⠀⠀⠀⠀⠀⠀⠀⠀⠀⠀⠀⠀⠀⠀⠀⠀⠀⠀⠀⠀⠀⠀⠀⠀⠈⠛⠿⢿⡧"@));
    s
}

/// The text that [resume_text] returns.
pub open spec fn resume_text_view() -> Seq<char> {
    emphasis_text("Picking up where we left off..."@)
}

/// The text shown when resuming a conversation.
pub fn resume_text() -> (res: String)
    ensures
        res@ == resume_text_view(),
{
    let mut s = String::new();
    s.append(StyledText::emphasis("Picking up where we left off...").as_str());
    assert(s@ =~= emphasis_text("Picking up where we left off..."@));
    s
}

/// The text that [popular_shortcuts] returns.
pub open spec fn popular_shortcuts_view() -> Seq<char> {
    command_text("/help"@) + " all commands  •  "@ + command_text("ctrl + j"@) + " new lines  •  "@ + command_text("ctrl + s"@) + " fuzzy search"@
}

/// Popular shortcuts, for large screens.
pub fn popular_shortcuts() -> (res: String)
    ensures
        res@ == popular_shortcuts_view(),
{
    let mut s = String::new();
    s.append(StyledText::command("/help").as_str());
    s.append(" all commands  •  ");
    s.append(StyledText::command("ctrl + j").as_str());
    s.append(" new lines  •  ");
    s.append(StyledText::command("ctrl + s").as_str());
    s.append(" fuzzy search");
    assert(s@ =~= command_text("/help"@) + " all commands  •  "@ + command_text("ctrl + j"@) + " new lines  •  "@ + command_text("ctrl + s"@) + " fuzzy search"@);
    s
}

/// The text that [small_screen_popular_shortcuts] returns.
pub open spec fn small_screen_popular_shortcuts_view() -> Seq<char> {
    command_text("/help"@) + " all commands\n"@ + command_text("ctrl + j"@) + " new lines\n"@ + command_text("ctrl + s"@) + " fuzzy search"@
}

/// Popular shortcuts, for small screens.
pub fn small_screen_popular_shortcuts() -> (res: String)
    ensures
        res@ == small_screen_popular_shortcuts_view(),
{
    let mut s = String::new();
    s.append(StyledText::command("/help").as_str());
    s.append(" all commands\n");
    s.append(StyledText::command("ctrl + j").as_str());
    s.append(" new lines\n");
    s.append(StyledText::command("ctrl + s").as_str());
    s.append(" fuzzy search");
    assert(s@ =~= command_text("/help"@) + " all commands\n"@ + command_text("ctrl + j"@) + " new lines\n"@ + command_text("ctrl + s"@) + " fuzzy search"@);
    s
}

/// The long help of the context command.
pub fn context_long_help() -> (res: String)
    ensures
        res@ == "Context rules determine which files are included in your "@ + "Amazon Q"@ + " session. \nThey are derived from the current active agent.\nThe files matched by these rules provide "@ + "Amazon Q"@ + " with additional information \nabout your project or environment. Adding relevant files helps Q generate \nmore accurate and helpful responses.\n\nNotes:\n• You can add specific files or use glob patterns (e.g., \"*.py\", \"src/**/*.js\")\n• Agent rules apply only to the current agent \n• Context changes are NOT preserved between chat sessions. To make these changes permanent, edit the agent config file."@,
{
    let mut s = String::new();
    s.append("Context rules determine which files are included in your ");
    s.append("Amazon Q");
    s.append(" session. \nThey are derived from the current active agent.\nThe files matched by these rules provide ");
    s.append("Amazon Q");
    s.append(" with additional information \nabout your project or environment. Adding relevant files helps Q generate \nmore accurate and helpful responses.\n\nNotes:\n• You can add specific files or use glob patterns (e.g., \"*.py\", \"src/**/*.js\")\n• Agent rules apply only to the current agent \n• Context changes are NOT preserved between chat sessions. To make these changes permanent, edit the agent config file.");
    assert(s@ =~= "Context rules determine which files are included in your "@ + "Amazon Q"@ + " session. \nThey are derived from the current active agent.\nThe files matched by these rules provide "@ + "Amazon Q"@ + " with additional information \nabout your project or environment. Adding relevant files helps Q generate \nmore accurate and helpful responses.\n\nNotes:\n• You can add specific files or use glob patterns (e.g., \"*.py\", \"src/**/*.js\")\n• Agent rules apply only to the current agent \n• Context changes are NOT preserved between chat sessions. To make these changes permanent, edit the agent config file."@);
    s
}

/// The long help of the tools command.
pub fn tools_long_help() -> (res: String)
    ensures
        res@ == "By default, "@ + "Amazon Q"@ + " will ask for your permission to use certain tools. You can control which tools you\ntrust so that no confirmation is required.\n\nRefer to the documentation for how to configure tools with your agent: https://github.com/aws/amazon-q-developer-cli/blob/main/docs/agent-format.md#tools-field"@,
{
    let mut s = String::new();
    s.append("By default, ");
    s.append("Amazon Q");
    s.append(" will ask for your permission to use certain tools. You can control which tools you\ntrust so that no confirmation is required.\n\nRefer to the documentation for how to configure tools with your agent: https://github.com/aws/amazon-q-developer-cli/blob/main/docs/agent-format.md#tools-field");
    assert(s@ =~= "By default, "@ + "Amazon Q"@ + " will ask for your permission to use certain tools. You can control which tools you\ntrust so that no confirmation is required.\n\nRefer to the documentation for how to configure tools with your agent: https://github.com/aws/amazon-q-developer-cli/blob/main/docs/agent-format.md#tools-field"@);
    s
}

/// The long help of the hooks command.
pub fn hooks_long_help() -> (res: String)
    ensures
        res@ == "Use context hooks to specify shell commands to run. The output from these \ncommands will be appended to the prompt to "@ + "Amazon Q"@ + ".\n\nRefer to the documentation for how to configure hooks with your agent: https://github.com/aws/amazon-q-developer-cli/blob/main/docs/agent-format.md#hooks-field\n\nNotes:\n• Hooks are executed in parallel\n• 'conversation_start' hooks run on the first user prompt and are attached once to the conversation history sent to "@ + "Amazon Q"@ + "\n• 'per_prompt' hooks run on each user prompt and are attached to the prompt, but are not stored in conversation history"@,
{
    let mut s = String::new();
    s.append("Use context hooks to specify shell commands to run. The output from these \ncommands will be appended to the prompt to ");
    s.append("Amazon Q");
    s.append(".\n\nRefer to the documentation for how to configure hooks with your agent: https://github.com/aws/amazon-q-developer-cli/blob/main/docs/agent-format.md#hooks-field\n\nNotes:\n• Hooks are executed in parallel\n• 'conversation_start' hooks run on the first user prompt and are attached once to the conversation history sent to ");
    s.append("Amazon Q");
    s.append("\n• 'per_prompt' hooks run on each user prompt and are attached to the prompt, but are not stored in conversation history");
    assert(s@ =~= "Use context hooks to specify shell commands to run. The output from these \ncommands will be appended to the prompt to "@ + "Amazon Q"@ + ".\n\nRefer to the documentation for how to configure hooks with your agent: https://github.com/aws/amazon-q-developer-cli/blob/main/docs/agent-format.md#hooks-field\n\nNotes:\n• Hooks are executed in parallel\n• 'conversation_start' hooks run on the first user prompt and are attached once to the conversation history sent to "@ + "Amazon Q"@ + "\n• 'per_prompt' hooks run on each user prompt and are attached to the prompt, but are not stored in conversation history"@);
    s
}

/// The rotating tips shown to users, in order.
pub open spec fn rotating_tips() -> Seq<Seq<char>> {
    seq![
        "You can resume the last conversation from your current directory by launching with "@ + command_text("q chat --resume"@),
        "Get notified whenever Amazon Q CLI finishes responding. Just run "@ + command_text("q settings chat.enableNotifications true"@),
        "You can use "@ + command_text("/editor"@) + " to edit your prompt with a vim-like experience"@,
        command_text("/usage"@) + " shows you a visual breakdown of your current context window usage"@,
        "Get notified whenever Amazon Q CLI finishes responding. Just run "@ + command_text("q settings chat.enableNotifications true"@),
        "You can execute bash commands by typing "@ + command_text("!"@) + " followed by the command"@,
        "Q can use tools without asking for confirmation every time. Give "@ + command_text("/tools trust"@) + " a try"@,
        "You can programmatically inject context to your prompts by using hooks. Check out "@ + command_text("/context hooks help"@),
        "You can use "@ + command_text("/compact"@) + " to replace the conversation history with its summary to free up the context space"@,
        "If you want to file an issue to the Amazon Q CLI team, just tell me, or run "@ + command_text("q issue"@),
        "You can enable custom tools with "@ + command_text("MCP servers"@) + ". Learn more with /help"@,
        "You can specify wait time (in ms) for mcp server loading with "@ + command_text("q settings mcp.initTimeout {timeout in int}"@) + ". Servers that take longer than the specified time will continue to load in the background. Use /tools to see pending servers."@,
        "You can see the server load status as well as any warnings or errors associated with "@ + command_text("/mcp"@),
        "Use "@ + command_text("/model"@) + " to select the model to use for this conversation"@,
        "Set a default model by running "@ + command_text("q settings chat.defaultModel MODEL"@) + ". Run "@ + command_text("/model"@) + " to learn more."@,
        "Run "@ + command_text("/prompts"@) + " to learn how to build & run repeatable workflows"@,
        "Use "@ + command_text("/tangent"@) + " or "@ + command_text("ctrl + t"@) + " (customizable) to start isolated conversations ( ↯ ) that don't affect your main chat history"@,
        "Ask me directly about my capabilities! Try questions like "@ + command_text("\"What can you do?\""@) + " or "@ + command_text("\"Can you save conversations?\""@),
        "Stay up to date with the latest features and improvements! Use "@ + command_text("/changelog"@) + " to see what's new in Amazon Q CLI"@,
        "Enable workspace checkpoints to snapshot & restore changes. Just run "@ + command_text("q"@) + " "@ + command_text("settings chat.enableCheckpoint true"@),
    ]
}

fn tip_0() -> (res: String)
    ensures
        res@ == rotating_tips()[0],
{
    let mut s = String::new();
    s.append("You can resume the last conversation from your current directory by launching with ");
    s.append(StyledText::command("q chat --resume").as_str());
    assert(s@ =~= "You can resume the last conversation from your current directory by launching with "@ + command_text("q chat --resume"@));
    s
}

fn tip_1() -> (res: String)
    ensures
        res@ == rotating_tips()[1],
{
    let mut s = String::new();
    s.append("Get notified whenever Amazon Q CLI finishes responding. Just run ");
    s.append(StyledText::command("q settings chat.enableNotifications true").as_str());
    assert(s@ =~= "Get notified whenever Amazon Q CLI finishes responding. Just run "@ + command_text("q settings chat.enableNotifications true"@));
    s
}

fn tip_2() -> (res: String)
    ensures
        res@ == rotating_tips()[2],
{
    let mut s = String::new();
    s.append("You can use ");
    s.append(StyledText::command("/editor").as_str());
    s.append(" to edit your prompt with a vim-like experience");
    assert(s@ =~= "You can use "@ + command_text("/editor"@) + " to edit your prompt with a vim-like experience"@);
    s
}

fn tip_3() -> (res: String)
    ensures
        res@ == rotating_tips()[3],
{
    let mut s = String::new();
    s.append(StyledText::command("/usage").as_str());
    s.append(" shows you a visual breakdown of your current context window usage");
    assert(s@ =~= command_text("/usage"@) + " shows you a visual breakdown of your current context window usage"@);
    s
}

fn tip_4() -> (res: String)
    ensures
        res@ == rotating_tips()[4],
{
    let mut s = String::new();
    s.append("Get notified whenever Amazon Q CLI finishes responding. Just run ");
    s.append(StyledText::command("q settings chat.enableNotifications true").as_str());
    assert(s@ =~= "Get notified whenever Amazon Q CLI finishes responding. Just run "@ + command_text("q settings chat.enableNotifications true"@));
    s
}

fn tip_5() -> (res: String)
    ensures
        res@ == rotating_tips()[5],
{
    let mut s = String::new();
    s.append("You can execute bash commands by typing ");
    s.append(StyledText::command("!").as_str());
    s.append(" followed by the command");
    assert(s@ =~= "You can execute bash commands by typing "@ + command_text("!"@) + " followed by the command"@);
    s
}

fn tip_6() -> (res: String)
    ensures
        res@ == rotating_tips()[6],
{
    let mut s = String::new();
    s.append("Q can use tools without asking for confirmation every time. Give ");
    s.append(StyledText::command("/tools trust").as_str());
    s.append(" a try");
    assert(s@ =~= "Q can use tools without asking for confirmation every time. Give "@ + command_text("/tools trust"@) + " a try"@);
    s
}

fn tip_7() -> (res: String)
    ensures
        res@ == rotating_tips()[7],
{
    let mut s = String::new();
    s.append("You can programmatically inject context to your prompts by using hooks. Check out ");
    s.append(StyledText::command("/context hooks help").as_str());
    assert(s@ =~= "You can programmatically inject context to your prompts by using hooks. Check out "@ + command_text("/context hooks help"@));
    s
}

fn tip_8() -> (res: String)
    ensures
        res@ == rotating_tips()[8],
{
    let mut s = String::new();
    s.append("You can use ");
    s.append(StyledText::command("/compact").as_str());
    s.append(" to replace the conversation history with its summary to free up the context space");
    assert(s@ =~= "You can use "@ + command_text("/compact"@) + " to replace the conversation history with its summary to free up the context space"@);
    s
}

fn tip_9() -> (res: String)
    ensures
        res@ == rotating_tips()[9],
{
    let mut s = String::new();
    s.append("If you want to file an issue to the Amazon Q CLI team, just tell me, or run ");
    s.append(StyledText::command("q issue").as_str());
    assert(s@ =~= "If you want to file an issue to the Amazon Q CLI team, just tell me, or run "@ + command_text("q issue"@));
    s
}

fn tip_10() -> (res: String)
    ensures
        res@ == rotating_tips()[10],
{
    let mut s = String::new();
    s.append("You can enable custom tools with ");
    s.append(StyledText::command("MCP servers").as_str());
    s.append(". Learn more with /help");
    assert(s@ =~= "You can enable custom tools with "@ + command_text("MCP servers"@) + ". Learn more with /help"@);
    s
}

fn tip_11() -> (res: String)
    ensures
        res@ == rotating_tips()[11],
{
    let mut s = String::new();
    s.append("You can specify wait time (in ms) for mcp server loading with ");
    s.append(StyledText::command("q settings mcp.initTimeout {timeout in int}").as_str());
    s.append(". Servers that take longer than the specified time will continue to load in the background. Use /tools to see pending servers.");
    assert(s@ =~= "You can specify wait time (in ms) for mcp server loading with "@ + command_text("q settings mcp.initTimeout {timeout in int}"@) + ". Servers that take longer than the specified time will continue to load in the background. Use /tools to see pending servers."@);
    s
}

fn tip_12() -> (res: String)
    ensures
        res@ == rotating_tips()[12],
{
    let mut s = String::new();
    s.append("You can see the server load status as well as any warnings or errors associated with ");
    s.append(StyledText::command("/mcp").as_str());
    assert(s@ =~= "You can see the server load status as well as any warnings or errors associated with "@ + command_text("/mcp"@));
    s
}

fn tip_13() -> (res: String)
    ensures
        res@ == rotating_tips()[13],
{
    let mut s = String::new();
    s.append("Use ");
    s.append(StyledText::command("/model").as_str());
    s.append(" to select the model to use for this conversation");
    assert(s@ =~= "Use "@ + command_text("/model"@) + " to select the model to use for this conversation"@);
    s
}

fn tip_14() -> (res: String)
    ensures
        res@ == rotating_tips()[14],
{
    let mut s = String::new();
    s.append("Set a default model by running ");
    s.append(StyledText::command("q settings chat.defaultModel MODEL").as_str());
    s.append(". Run ");
    s.append(StyledText::command("/model").as_str());
    s.append(" to learn more.");
    assert(s@ =~= "Set a default model by running "@ + command_text("q settings chat.defaultModel MODEL"@) + ". Run "@ + command_text("/model"@) + " to learn more."@);
    s
}

fn tip_15() -> (res: String)
    ensures
        res@ == rotating_tips()[15],
{
    let mut s = String::new();
    s.append("Run ");
    s.append(StyledText::command("/prompts").as_str());
    s.append(" to learn how to build & run repeatable workflows");
    assert(s@ =~= "Run "@ + command_text("/prompts"@) + " to learn how to build & run repeatable workflows"@);
    s
}

fn tip_16() -> (res: String)
    ensures
        res@ == rotating_tips()[16],
{
    let mut s = String::new();
    s.append("Use ");
    s.append(StyledText::command("/tangent").as_str());
    s.append(" or ");
    s.append(StyledText::command("ctrl + t").as_str());
    s.append(" (customizable) to start isolated conversations ( ↯ ) that don't affect your main chat history");
    assert(s@ =~= "Use "@ + command_text("/tangent"@) + " or "@ + command_text("ctrl + t"@) + " (customizable) to start isolated conversations ( ↯ ) that don't affect your main chat history"@);
    s
}

fn tip_17() -> (res: String)
    ensures
        res@ == rotating_tips()[17],
{
    let mut s = String::new();
    s.append("Ask me directly about my capabilities! Try questions like ");
    s.append(StyledText::command("\"What can you do?\"").as_str());
    s.append(" or ");
    s.append(StyledText::command("\"Can you save conversations?\"").as_str());
    assert(s@ =~= "Ask me directly about my capabilities! Try questions like "@ + command_text("\"What can you do?\""@) + " or "@ + command_text("\"Can you save conversations?\""@));
    s
}

fn tip_18() -> (res: String)
    ensures
        res@ == rotating_tips()[18],
{
    let mut s = String::new();
    s.append("Stay up to date with the latest features and improvements! Use ");
    s.append(StyledText::command("/changelog").as_str());
    s.append(" to see what's new in Amazon Q CLI");
    assert(s@ =~= "Stay up to date with the latest features and improvements! Use "@ + command_text("/changelog"@) + " to see what's new in Amazon Q CLI"@);
    s
}

fn tip_19() -> (res: String)
    ensures
        res@ == rotating_tips()[19],
{
    let mut s = String::new();
    s.append("Enable workspace checkpoints to snapshot & restore changes. Just run ");
    s.append(StyledText::command("q").as_str());
    s.append(" ");
    s.append(StyledText::command("settings chat.enableCheckpoint true").as_str());
    assert(s@ =~= "Enable workspace checkpoints to snapshot & restore changes. Just run "@ + command_text("q"@) + " "@ + command_text("settings chat.enableCheckpoint true"@));
    s
}

/// The rotating tips shown to users.
pub fn get_rotating_tips() -> (res: Vec<String>)
    ensures
        res@.len() == 20,
        forall|i: int| 0 <= i < res@.len() ==> #[trigger] res@[i]@ == rotating_tips()[i],
{
    let mut v: Vec<String> = Vec::new();
    v.push(tip_0());
    v.push(tip_1());
    v.push(tip_2());
    v.push(tip_3());
    v.push(tip_4());
    v.push(tip_5());
    v.push(tip_6());
    v.push(tip_7());
    v.push(tip_8());
    v.push(tip_9());
    v.push(tip_10());
    v.push(tip_11());
    v.push(tip_12());
    v.push(tip_13());
    v.push(tip_14());
    v.push(tip_15());
    v.push(tip_16());
    v.push(tip_17());
    v.push(tip_18());
    v.push(tip_19());
    v
}

} // verus!
