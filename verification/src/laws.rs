//! What holds of the menu as a whole.

use vstd::prelude::*;
use crate::command::{
    command_of, command_word, head_of, lemma_first_index, Command, CommandErrorModel,
};
use crate::dispatcher::{
    callback_actions, callback_target, command_action, echo_text, ActionModel, CallbackOrigin,
};
use crate::keyboard::{parsed_url, ButtonActionModel, ButtonModel, Layout};
use crate::menu::{
    links_parse, menu_of, standard_layout, MenuId, MenuRegistry, GITHUB_URL, LINKEDIN_URL, X_URL,
};
use crate::text::{lowercase_of, same_ignoring_ascii_case};

verus! {

/// Whether `link` is an absolute URL in its normal form: what some text
/// parses to.
pub open spec fn is_url(link: Seq<char>) -> bool {
    exists|text: Seq<char>| parsed_url(text) == Some(link)
}

/// Whether pressing `button` leads somewhere: to a panel, or to a URL.
pub open spec fn leads_somewhere(button: ButtonModel) -> bool {
    match button.action {
        ButtonActionModel::Callback(token) => callback_target(token) is Some,
        ButtonActionModel::OpenLink(link) => is_url(link),
    }
}

/// The label on a button that opens a panel leads to that panel.
pub proof fn lemma_labels_lead_to_panels()
    ensures
        callback_target("About me"@) == Some(MenuId::AboutMe),
        callback_target("Jobs"@) == Some(MenuId::Jobs),
        callback_target("Social Media"@) == Some(MenuId::SocialMedia),
        callback_target("Skills"@) == Some(MenuId::Skills),
        callback_target("Alelo"@) == Some(MenuId::Alelo),
        callback_target("back"@) == Some(MenuId::Home),
        callback_target("Back"@) == Some(MenuId::Home),
{
    reveal_strlit("About me");
    reveal_strlit("Alelo");
    reveal_strlit("Back");
    reveal_strlit("Jobs");
    reveal_strlit("Social Media");
    reveal_strlit("Skills");
    reveal_strlit("home");
    reveal_strlit("back");
    reveal_strlit("about_me");
    reveal_strlit("about me");
    reveal_strlit("social_media");
    reveal_strlit("social media");
    reveal_strlit("jobs");
    reveal_strlit("skills");
    reveal_strlit("rust");
    reveal_strlit("alelo");
    reveal_strlit("vivo");
    reveal_strlit("freelancers");
    reveal_strlit("python");
    reveal_strlit("kotlin");
    reveal_strlit("java");
    reveal_strlit("cybersecurity");
    assert(lowercase_of("About me"@) =~= "about me"@);
    assert(lowercase_of("Jobs"@) =~= "jobs"@);
    assert("jobs"@[0] != "home"@[0] && "jobs"@[0] != "back"@[0]);
    assert(lowercase_of("Social Media"@) =~= "social media"@);
    assert(lowercase_of("Skills"@) =~= "skills"@);
    assert(lowercase_of("Alelo"@) =~= "alelo"@);
    assert(lowercase_of("back"@) =~= "back"@);
    assert(lowercase_of("Back"@) =~= "back"@);
}

/// Every employer and every skill on a button leads to a panel.
pub proof fn lemma_employers_and_skills_lead_to_panels()
    ensures
        callback_target("Vivo"@) is Some,
        callback_target("Assa√≠"@) is Some,
        callback_target("Freelancers"@) is Some,
        callback_target("Rust"@) is Some,
        callback_target("Python"@) is Some,
        callback_target("Kotlin"@) is Some,
        callback_target("Java"@) is Some,
        callback_target("Cybersecurity"@) is Some,
{
    reveal_strlit("Vivo");
    reveal_strlit("vivo");
    reveal_strlit("Freelancers");
    reveal_strlit("freelancers");
    reveal_strlit("Rust");
    reveal_strlit("rust");
    reveal_strlit("Python");
    reveal_strlit("python");
    reveal_strlit("Kotlin");
    reveal_strlit("kotlin");
    reveal_strlit("Java");
    reveal_strlit("java");
    reveal_strlit("Cybersecurity");
    reveal_strlit("cybersecurity");
    assert(lowercase_of("Vivo"@) =~= "vivo"@);
    assert(lowercase_of("Freelancers"@) =~= "freelancers"@);
    assert(lowercase_of("Rust"@) =~= "rust"@);
    assert(lowercase_of("Python"@) =~= "python"@);
    assert(lowercase_of("Kotlin"@) =~= "kotlin"@);
    assert(lowercase_of("Java"@) =~= "java"@);
    assert(lowercase_of("Cybersecurity"@) =~= "cybersecurity"@);
}

/// Every button on the keyboard that belongs to a panel leads somewhere: it
/// opens a panel or a URL. For the two keyboards that hold links, this is
/// said of addresses that are absolute URLs.
pub proof fn lemma_layout_leads_somewhere(id: MenuId, row: int, column: int)
    requires
        id == MenuId::Home ==> parsed_url(GITHUB_URL@) is Some,
        id == MenuId::SocialMedia ==> links_parse(),
        0 <= row < standard_layout(id).len(),
        0 <= column < standard_layout(id)[row].len(),
    ensures
        leads_somewhere(standard_layout(id)[row][column]),
{
    lemma_labels_lead_to_panels();
    lemma_employers_and_skills_lead_to_panels();
    if id == MenuId::Home || id == MenuId::SocialMedia {
        assert(is_url(parsed_url(GITHUB_URL@)->0)) by {
            assert(parsed_url(GITHUB_URL@) == Some(parsed_url(GITHUB_URL@)->0));
        }
    }
    if id == MenuId::SocialMedia {
        assert(is_url(parsed_url(LINKEDIN_URL@)->0)) by {
            assert(parsed_url(LINKEDIN_URL@) == Some(parsed_url(LINKEDIN_URL@)->0));
        }
        assert(is_url(parsed_url(X_URL@)->0)) by {
            assert(parsed_url(X_URL@) == Some(parsed_url(X_URL@)->0));
        }
    }
}

/// Whatever identifier a panel is looked up by, every button on its keyboard
/// leads somewhere: it opens a panel or a URL.
pub proof fn lemma_buttons_lead_somewhere(
    registry: MenuRegistry,
    identifier: Seq<char>,
    row: int,
    column: int,
)
    requires
        registry.wf(),
        menu_of(identifier) is Some,
        0 <= row < registry.entry(menu_of(identifier)->0).keyboard@.len(),
        0 <= column < registry.entry(menu_of(identifier)->0).keyboard@[row].len(),
    ensures
        leads_somewhere(registry.entry(menu_of(identifier)->0).keyboard@[row][column]),
{
    let id = menu_of(identifier)->0;
    assert(registry.entry(id).keyboard@ == standard_layout(id));
    lemma_layout_leads_somewhere(id, row, column);
}

/// `/start` opens the home panel, whatever the bot is called and whichever
/// panel is on display.
pub proof fn lemma_start_opens_home(registry: MenuRegistry, bot_name: Seq<char>)
    ensures
        command_of("/start"@, bot_name) == Ok::<Command, CommandErrorModel>(Command::Start),
        command_action(registry, command_of("/start"@, bot_name)) == ActionModel::SendMenu(
            registry.entry(MenuId::Home)@,
        ),
{
    reveal_strlit("/start");
    reveal_strlit("/help");
    reveal_strlit("/");
    reveal_strlit("start");
    reveal_strlit("help");
    let text = "/start"@;
    lemma_first_index(text, ' ', 6);
    assert(head_of(text) =~= text);
    lemma_first_index(text, '@', 6);
    assert(command_word(text) =~= text);
    assert(Command::Start.typed() =~= text);
    assert(Command::Help.typed() =~= "/help"@);
}

/// Two tokens that are the same in lower case lead to the same panel, and
/// where they lead to one, a press of either is answered in the same way,
/// wherever the message lives.
pub proof fn lemma_callback_ignores_case(
    registry: MenuRegistry,
    a: Seq<char>,
    b: Seq<char>,
    origin: CallbackOrigin,
)
    requires
        lowercase_of(a) == lowercase_of(b),
    ensures
        callback_target(a) == callback_target(b),
        callback_target(a) is Some ==> callback_actions(registry, a, origin) == callback_actions(
            registry,
            b,
            origin,
        ),
{
}

/// Among ASCII tokens the case of the letters makes no difference: two that
/// differ in nothing else lead to the same panel.
pub proof fn lemma_ascii_case_is_ignored(a: Seq<char>, b: Seq<char>)
    requires
        vstd::utf8::is_ascii_chars(a),
        vstd::utf8::is_ascii_chars(b),
        same_ignoring_ascii_case(a, b),
    ensures
        lowercase_of(a) == lowercase_of(b),
        callback_target(a) == callback_target(b),
{
}

/// `back` leads home in any of its usual spellings.
pub proof fn lemma_back_in_any_case()
    ensures
        callback_target("back"@) == Some(MenuId::Home),
        callback_target("BACK"@) == Some(MenuId::Home),
        callback_target("Back"@) == Some(MenuId::Home),
{
    reveal_strlit("back");
    reveal_strlit("BACK");
    reveal_strlit("Back");
    assert(lowercase_of("back"@) =~= "back"@);
    assert(lowercase_of("BACK"@) =~= "back"@);
    assert(lowercase_of("Back"@) =~= "back"@);
}

/// A press in a chat with a token that leads nowhere is acknowledged and
/// answered with a new message that ends in the token as it came.
pub proof fn lemma_unknown_token_is_echoed(registry: MenuRegistry, token: Seq<char>)
    requires
        callback_target(token) is None,
    ensures
        callback_actions(registry, token, CallbackOrigin::ChatMessage) == seq![
            ActionModel::AnswerCallback,
            ActionModel::SendText(echo_text(token)),
        ],
        echo_text(token).len() >= token.len(),
        echo_text(token).skip(echo_text(token).len() - token.len()) == token,
{
    assert(callback_actions(registry, token, CallbackOrigin::ChatMessage) =~= seq![
        ActionModel::AnswerCallback,
        ActionModel::SendText(echo_text(token)),
    ]);
    assert(echo_text(token).skip(echo_text(token).len() - token.len()) =~= token);
}

/// The panel that pressing `button` leads to, if it leads to one.
pub open spec fn button_target(button: ButtonModel) -> Option<MenuId> {
    match button.action {
        ButtonActionModel::Callback(token) => callback_target(token),
        ButtonActionModel::OpenLink(_) => None,
    }
}

/// Whether the button at `row` and `column` of `layout` leads to `target`.
pub open spec fn leads_to(layout: Layout, row: int, column: int, target: MenuId) -> bool {
    &&& 0 <= row < layout.len()
    &&& 0 <= column < layout[row].len()
    &&& button_target(layout[row][column]) == Some(target)
}

/// Whether some button of `layout` leads to `target`.
pub open spec fn has_button_to(layout: Layout, target: MenuId) -> bool {
    exists|row: int, column: int| leads_to(layout, row, column, target)
}

/// No panel is a dead end: from every panel but the home panel, one press
/// leads home.
pub proof fn lemma_home_is_one_press_away(registry: MenuRegistry, id: MenuId)
    requires
        registry.wf(),
        id != MenuId::Home,
    ensures
        has_button_to(registry.entry(id).keyboard@, MenuId::Home),
{
    lemma_labels_lead_to_panels();
    let layout = registry.entry(id).keyboard@;
    match id {
        MenuId::Home => {},
        MenuId::AboutMe => {
            assert(leads_to(layout, 0, 0, MenuId::Home));
        },
        MenuId::SocialMedia => {
            assert(leads_to(layout, 3, 0, MenuId::Home));
        },
        MenuId::Jobs => {
            assert(leads_to(layout, 2, 0, MenuId::Home));
        },
        MenuId::Skills => {
            assert(leads_to(layout, 2, 1, MenuId::Home));
        },
        MenuId::Alelo => {
            assert(leads_to(layout, 0, 0, MenuId::Home));
        },
    }
}

/// Every panel can be reached from the home panel: four of them with one
/// press, the panel about Alelo with one more from the jobs panel.
pub proof fn lemma_home_opens_every_panel(registry: MenuRegistry)
    requires
        registry.wf(),
    ensures
        has_button_to(registry.entry(MenuId::Home).keyboard@, MenuId::AboutMe),
        has_button_to(registry.entry(MenuId::Home).keyboard@, MenuId::Jobs),
        has_button_to(registry.entry(MenuId::Home).keyboard@, MenuId::SocialMedia),
        has_button_to(registry.entry(MenuId::Home).keyboard@, MenuId::Skills),
        has_button_to(registry.entry(MenuId::Jobs).keyboard@, MenuId::Alelo),
{
    lemma_labels_lead_to_panels();
    let home = registry.entry(MenuId::Home).keyboard@;
    assert(leads_to(home, 0, 0, MenuId::AboutMe));
    assert(leads_to(home, 0, 1, MenuId::Jobs));
    assert(leads_to(home, 1, 0, MenuId::SocialMedia));
    assert(leads_to(home, 1, 1, MenuId::Skills));
    assert(leads_to(registry.entry(MenuId::Jobs).keyboard@, 0, 0, MenuId::Alelo));
}

} // verus!
