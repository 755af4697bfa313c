//! From an update of the messaging transport to what the transport is asked
//! to do in return.

use vstd::prelude::*;
use vstd::string::StringExecFns;
use crate::command::{
    command_of, descriptions, descriptions_text, parse_command, Command, CommandErrorModel,
};
use crate::menu::{menu_of, MenuEntry, MenuEntryModel, MenuId, MenuRegistry};
use crate::text::{lowercase_of, to_lowercase};

verus! {

/// One thing that the transport is asked to do. The text of a panel is in
/// the markup of the messaging platform; any other text is plain.
#[derive(Debug, Clone, PartialEq, Eq)]
pub enum Action<'a> {
    /// Tell the client that its button press has arrived.
    AnswerCallback,
    /// Send a new message with this text and no keyboard.
    SendText(String),
    /// Send a new message with the panel's text and keyboard.
    SendMenu(&'a MenuEntry),
    /// Replace the text and keyboard of the message that holds the pressed
    /// button with the panel's.
    EditMenu(&'a MenuEntry),
    /// Replace the text and keyboard of the inline message that holds the
    /// pressed button with the panel's.
    EditInlineMenu(&'a MenuEntry),
    /// Replace the text of the inline message that holds the pressed button
    /// with this text.
    EditInlineText(String),
}

/// The mathematical value of an [`Action`].
pub enum ActionModel {
    AnswerCallback,
    SendText(Seq<char>),
    SendMenu(MenuEntryModel),
    EditMenu(MenuEntryModel),
    EditInlineMenu(MenuEntryModel),
    EditInlineText(Seq<char>),
}

impl<'a> View for Action<'a> {
    type V = ActionModel;

    open spec fn view(&self) -> ActionModel {
        match self {
            Action::AnswerCallback => ActionModel::AnswerCallback,
            Action::SendText(text) => ActionModel::SendText(text@),
            Action::SendMenu(entry) => ActionModel::SendMenu(entry@),
            Action::EditMenu(entry) => ActionModel::EditMenu(entry@),
            Action::EditInlineMenu(entry) => ActionModel::EditInlineMenu(entry@),
            Action::EditInlineText(text) => ActionModel::EditInlineText(text@),
        }
    }
}

impl<'a> DeepView for Action<'a> {
    type V = ActionModel;

    open spec fn deep_view(&self) -> ActionModel {
        self@
    }
}

/// How the transport is to read a text.
#[derive(Debug, Clone, Copy, PartialEq, Eq, Structural)]
pub enum TextFormat {
    /// As it stands.
    Plain,
    /// In the markup of the messaging platform, MarkdownV2.
    MarkdownV2,
}

/// The format of the text that `action` carries: the text of a panel is in
/// markup, any other text is plain, and an acknowledgement carries none.
pub open spec fn format_of(action: ActionModel) -> Option<TextFormat> {
    match action {
        ActionModel::AnswerCallback => None,
        ActionModel::SendText(_) => Some(TextFormat::Plain),
        ActionModel::SendMenu(_) => Some(TextFormat::MarkdownV2),
        ActionModel::EditMenu(_) => Some(TextFormat::MarkdownV2),
        ActionModel::EditInlineMenu(_) => Some(TextFormat::MarkdownV2),
        ActionModel::EditInlineText(_) => Some(TextFormat::Plain),
    }
}

impl<'a> Action<'a> {
    /// The format of the text that the action carries, if it carries one.
    pub fn text_format(&self) -> (r: Option<TextFormat>)
        ensures
            r == format_of(self@),
    {
        match self {
            Action::AnswerCallback => None,
            Action::SendText(_) => Some(TextFormat::Plain),
            Action::SendMenu(_) => Some(TextFormat::MarkdownV2),
            Action::EditMenu(_) => Some(TextFormat::MarkdownV2),
            Action::EditInlineMenu(_) => Some(TextFormat::MarkdownV2),
            Action::EditInlineText(_) => Some(TextFormat::Plain),
        }
    }
}

/// Where the message that holds a pressed button lives.
#[derive(Debug, Clone, Copy, PartialEq, Eq, Structural)]
pub enum CallbackOrigin {
    /// In a chat with the bot; the bot can edit it and send new messages.
    ChatMessage,
    /// In some other chat, where it was put through an inline query; the
    /// bot can edit it, by its inline identifier, and nothing more.
    InlineMessage,
    /// The update names no message.
    Unknown,
}

/// What the bot answers to a token that no panel answers to.
pub open spec fn echo_text(token: Seq<char>) -> Seq<char> {
    "You chose: "@ + token
}

/// What the bot answers to a message that is no command of its own.
pub open spec fn not_found_text() -> Seq<char> {
    "Command not found!"@
}

/// The answer to a message that was read as `parsed`.
pub open spec fn command_action(
    registry: MenuRegistry,
    parsed: Result<Command, CommandErrorModel>,
) -> ActionModel {
    match parsed {
        Ok(Command::Help) => ActionModel::SendText(descriptions_text()),
        Ok(Command::Start) => ActionModel::SendMenu(registry.entry(MenuId::Home)@),
        Err(_) => ActionModel::SendText(not_found_text()),
    }
}

/// The panel that a button press with `token` leads to: the one that
/// answers to the token in lower case.
pub open spec fn callback_target(token: Seq<char>) -> Option<MenuId> {
    menu_of(lowercase_of(token))
}

/// What follows the acknowledgement of a button press with `token`.
pub open spec fn callback_reply(
    registry: MenuRegistry,
    token: Seq<char>,
    origin: CallbackOrigin,
) -> Seq<ActionModel> {
    match origin {
        CallbackOrigin::ChatMessage => match callback_target(token) {
            Some(id) => seq![ActionModel::EditMenu(registry.entry(id)@)],
            None => seq![ActionModel::SendText(echo_text(token))],
        },
        CallbackOrigin::InlineMessage => match callback_target(token) {
            Some(id) => seq![ActionModel::EditInlineMenu(registry.entry(id)@)],
            None => seq![ActionModel::EditInlineText(echo_text(token))],
        },
        CallbackOrigin::Unknown => Seq::empty(),
    }
}

/// The answer to a button press with `token`: the acknowledgement, then the
/// reply.
pub open spec fn callback_actions(
    registry: MenuRegistry,
    token: Seq<char>,
    origin: CallbackOrigin,
) -> Seq<ActionModel> {
    seq![ActionModel::AnswerCallback] + callback_reply(registry, token, origin)
}

/// Whether `actions` begins with the acknowledgement and holds no other.
pub open spec fn acknowledged_once(actions: Seq<ActionModel>) -> bool {
    &&& actions.len() >= 1
    &&& actions[0] is AnswerCallback
    &&& forall|i: int| 1 <= i < actions.len() ==> !(#[trigger] actions[i] is AnswerCallback)
}

/// One result offered in answer to an inline query.
#[derive(Debug, Clone, PartialEq, Eq)]
pub struct InlineArticle<'a> {
    pub id: &'static str,
    pub title: &'static str,
    /// The panel that is inserted, text and keyboard, when the user picks
    /// the result. Its text is in markup, as that of every panel.
    pub entry: &'a MenuEntry,
}

/// The mathematical value of an [`InlineArticle`].
pub struct InlineArticleModel {
    pub id: Seq<char>,
    pub title: Seq<char>,
    pub entry: MenuEntryModel,
}

impl<'a> View for InlineArticle<'a> {
    type V = InlineArticleModel;

    open spec fn view(&self) -> InlineArticleModel {
        InlineArticleModel { id: self.id@, title: self.title@, entry: self.entry@ }
    }
}

impl<'a> DeepView for InlineArticle<'a> {
    type V = InlineArticleModel;

    open spec fn deep_view(&self) -> InlineArticleModel {
        self@
    }
}

impl<'a> InlineArticle<'a> {
    /// The format of the article's text: that of a panel, so markup.
    pub fn text_format(&self) -> (r: TextFormat)
        ensures
            r == TextFormat::MarkdownV2,
    {
        TextFormat::MarkdownV2
    }
}

/// The one result that every inline query is answered with.
pub open spec fn home_article(registry: MenuRegistry) -> InlineArticleModel {
    InlineArticleModel {
        id: "0"@,
        title: "What info do you need?"@,
        entry: registry.entry(MenuId::Home)@,
    }
}

/// Decides what to do for each update. It keeps no state between updates:
/// which panel a chat shows is known only from the button that is pressed.
#[derive(Debug, Clone, PartialEq, Eq)]
pub struct Dispatcher {
    registry: MenuRegistry,
}

impl Dispatcher {
    /// The panels that the dispatcher shows.
    pub closed spec fn registry(&self) -> MenuRegistry {
        self.registry
    }

    /// A dispatcher over the panels of `registry`.
    pub fn new(registry: MenuRegistry) -> (dispatcher: Self)
        ensures
            dispatcher.registry() == registry,
    {
        Dispatcher { registry }
    }

    /// The panels that the dispatcher shows.
    pub fn menus(&self) -> (registry: &MenuRegistry)
        ensures
            *registry == self.registry(),
    {
        &self.registry
    }

    /// Answers a text message: `/help` with the list of commands, `/start`
    /// with the home panel, anything else with a note that there is no such
    /// command.
    pub fn on_command(&self, text: &str, bot_name: &str) -> (action: Action<'_>)
        ensures
            action@ == command_action(self.registry(), command_of(text@, bot_name@)),
    {
        match parse_command(text, bot_name) {
            Ok(Command::Help) => Action::SendText(descriptions()),
            Ok(Command::Start) => Action::SendMenu(self.registry.get(MenuId::Home)),
            Err(_) => Action::SendText("Command not found!".to_owned()),
        }
    }

    /// Answers a button press. The press is acknowledged once, first. Then
    /// the message that holds the button changes to the panel that the token
    /// leads to, whatever the case it is written in. A token that leads
    /// nowhere is sent back: in a chat with the bot as a new message, on an
    /// inline message in place of its text.
    pub fn on_callback(&self, token: &str, origin: CallbackOrigin) -> (actions: Vec<Action<'_>>)
        ensures
            actions.deep_view() == callback_actions(self.registry(), token@, origin),
            acknowledged_once(actions.deep_view()),
    {
        let mut actions: Vec<Action<'_>> = Vec::new();
        actions.push(Action::AnswerCallback);
        let key = to_lowercase(token);
        let found = self.registry.resolve(key.as_str());
        match origin {
            CallbackOrigin::ChatMessage => match found {
                Some(entry) => {
                    actions.push(Action::EditMenu(entry));
                },
                None => {
                    actions.push(Action::SendText(echo(token)));
                },
            },
            CallbackOrigin::InlineMessage => match found {
                Some(entry) => {
                    actions.push(Action::EditInlineMenu(entry));
                },
                None => {
                    actions.push(Action::EditInlineText(echo(token)));
                },
            },
            CallbackOrigin::Unknown => {},
        }
        assert(actions.deep_view() =~= callback_actions(self.registry(), token@, origin));
        actions
    }

    /// Answers an inline query, whatever it asks for, with the home panel.
    pub fn on_inline_query(&self, query: &str) -> (article: InlineArticle<'_>)
        ensures
            article@ == home_article(self.registry()),
    {
        InlineArticle {
            id: "0",
            title: "What info do you need?",
            entry: self.registry.get(MenuId::Home),
        }
    }
}

/// The text that sends `token` back to the user.
pub fn echo(token: &str) -> (text: String)
    ensures
        text@ == echo_text(token@),
{
    let mut text = "You chose: ".to_owned();
    text.append(token);
    text
}

/// Handles an incoming message: one without text is passed over, any other
/// is answered as [`Dispatcher::on_command`] says.
pub fn message_handler<'a>(
    dispatcher: &'a Dispatcher,
    text: Option<&str>,
    bot_name: &str,
) -> (r: Option<Action<'a>>)
    ensures
        text is None ==> r is None,
        text matches Some(t) ==> r is Some && r->0@ == command_action(
            dispatcher.registry(),
            command_of(t@, bot_name@),
        ),
{
    match text {
        Some(t) => Some(dispatcher.on_command(t, bot_name)),
        None => None,
    }
}

/// Handles a button press: one that carries no token is passed over
/// without a word, any other is answered as [`Dispatcher::on_callback`]
/// says.
pub fn callback_handler<'a>(
    dispatcher: &'a Dispatcher,
    data: Option<&str>,
    origin: CallbackOrigin,
) -> (actions: Vec<Action<'a>>)
    ensures
        data is None ==> actions@.len() == 0,
        data matches Some(token) ==> actions.deep_view() == callback_actions(
            dispatcher.registry(),
            token@,
            origin,
        ),
        data is Some ==> acknowledged_once(actions.deep_view()),
{
    match data {
        Some(token) => dispatcher.on_callback(token, origin),
        None => Vec::new(),
    }
}

/// Handles an inline query: the answer is always the one result that
/// inserts the home panel.
pub fn inline_query_handler<'a>(
    dispatcher: &'a Dispatcher,
    query: &str,
) -> (results: Vec<InlineArticle<'a>>)
    ensures
        results.deep_view() == seq![home_article(dispatcher.registry())],
{
    let mut results: Vec<InlineArticle<'a>> = Vec::new();
    results.push(dispatcher.on_inline_query(query));
    assert(results.deep_view() =~= seq![home_article(dispatcher.registry())]);
    results
}

} // verus!
