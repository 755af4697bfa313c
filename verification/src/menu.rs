//! The panels of the bot and the keyboard that each of them shows.

use vstd::prelude::*;
use crate::config::Config;
use crate::keyboard::{
    callback_button, callback_buttons, create_inline_keyboard_rows, lemma_chunked_rows,
    link_button, link_rows, parsed_url, try_add_url_buttons, Button, InlineKeyboard, Layout,
    LinkError,
};
use crate::text::{lowercase_of, same_text, to_lowercase};

verus! {

/// Where the "Github" button leads.
pub const GITHUB_URL: &'static str = "https://github.com/junque1r4/rust-telegram-portifolio";

/// Where the "Linkedin" button leads.
pub const LINKEDIN_URL: &'static str =
    "https://www.linkedin.com/in/joao-victor-junqueira-1b9114164/";

/// Where the "X" button leads.
pub const X_URL: &'static str = "https://twitter.com/KRNJun";

/// The keyboard of the home panel: four panels to choose from, two to a row,
/// and below them a link to the repository, written as `github`.
pub open spec fn home_layout(github: Seq<char>) -> Layout {
    seq![
        seq![callback_button("About me"@), callback_button("Jobs"@)],
        seq![callback_button("Social Media"@), callback_button("Skills"@)],
        seq![link_button("Github"@, github)],
    ]
}

/// The keyboard that only leads back to the home panel.
pub open spec fn back_layout() -> Layout {
    seq![seq![callback_button("back"@)]]
}

/// The keyboard of the social-media panel: one link to a row, then the way
/// back.
pub open spec fn social_media_layout(
    github: Seq<char>,
    linkedin: Seq<char>,
    x: Seq<char>,
) -> Layout {
    seq![
        seq![link_button("Github"@, github)],
        seq![link_button("Linkedin"@, linkedin)],
        seq![link_button("X"@, x)],
        seq![callback_button("back"@)],
    ]
}

/// The keyboard of the jobs panel: the employers, two to a row, and the way
/// back.
pub open spec fn jobs_layout() -> Layout {
    seq![
        seq![callback_button("Alelo"@), callback_button("Vivo"@)],
        seq![callback_button("Assa√≠"@), callback_button("Freelancers"@)],
        seq![callback_button("Back"@)],
    ]
}

/// The keyboard of the skills panel: the skills, two to a row, with the way
/// back at the end.
pub open spec fn skills_layout() -> Layout {
    seq![
        seq![callback_button("Rust"@), callback_button("Python"@)],
        seq![callback_button("Kotlin"@), callback_button("Java"@)],
        seq![callback_button("Cybersecurity"@), callback_button("Back"@)],
    ]
}

/// The keyboard with the single button "back".
pub fn back_button() -> (keyboard: InlineKeyboard)
    ensures
        keyboard@ == back_layout(),
{
    let mut rows: Vec<Vec<Button>> = Vec::new();
    let mut row: Vec<Button> = Vec::new();
    row.push(Button::callback("back"));
    rows.push(row);
    assert(rows.deep_view() =~~= back_layout());
    InlineKeyboard::new(rows)
}

/// The keyboard of the jobs panel: one button for each employer and the way
/// back, two to a row.
pub fn jobs_button() -> (keyboard: InlineKeyboard)
    ensures
        keyboard@ == jobs_layout(),
{
    let names = ["Alelo", "Vivo", "Assa√≠", "Freelancers", "Back"];
    let labels: &[&str] = names.as_slice();
    let rows = create_inline_keyboard_rows(labels, 2);
    proof {
        lemma_chunked_rows(callback_buttons(labels.deep_view()), 2);
        assert(rows.deep_view() =~~= jobs_layout());
    }
    InlineKeyboard::new(rows)
}

/// The keyboard of the skills panel: one button for each skill and the way
/// back, two to a row.
pub fn skills_button() -> (keyboard: InlineKeyboard)
    ensures
        keyboard@ == skills_layout(),
{
    let names = ["Rust", "Python", "Kotlin", "Java", "Cybersecurity", "Back"];
    let labels: &[&str] = names.as_slice();
    let rows = create_inline_keyboard_rows(labels, 2);
    proof {
        lemma_chunked_rows(callback_buttons(labels.deep_view()), 2);
        assert(rows.deep_view() =~~= skills_layout());
    }
    InlineKeyboard::new(rows)
}

/// The keyboard of the home panel. It cannot be made where the repository's
/// address is no absolute URL.
pub fn home_keyboard() -> (r: Result<InlineKeyboard, LinkError>)
    ensures
        r is Ok <==> parsed_url(GITHUB_URL@) is Some,
        r matches Ok(keyboard) ==> keyboard@ == home_layout(parsed_url(GITHUB_URL@)->0),
        r matches Err(e) ==> e.position == 0 && parsed_url(GITHUB_URL@) is None,
{
    let names = ["About me", "Jobs", "Social Media", "Skills"];
    let labels: &[&str] = names.as_slice();
    let links = [("Github", GITHUB_URL)];
    let url_buttons: &[(&str, &str)] = links.as_slice();
    let mut rows = create_inline_keyboard_rows(labels, 2);
    proof {
        lemma_chunked_rows(callback_buttons(labels.deep_view()), 2);
        assert(rows.deep_view() =~~= seq![
            seq![callback_button("About me"@), callback_button("Jobs"@)],
            seq![callback_button("Social Media"@), callback_button("Skills"@)],
        ]);
    }
    match try_add_url_buttons(&mut rows, url_buttons) {
        Ok(()) => {
            proof {
                assert(url_buttons.deep_view()[0].1 == GITHUB_URL@);
                assert(rows.deep_view() =~~= home_layout(parsed_url(GITHUB_URL@)->0));
            }
            Ok(InlineKeyboard::new(rows))
        },
        Err(e) => Err(e),
    }
}

/// The keyboard of the social-media panel. It cannot be made where one of
/// the three addresses is no absolute URL; the error gives the first such.
pub fn social_media_buttons() -> (r: Result<InlineKeyboard, LinkError>)
    ensures
        r is Ok <==> links_parse(),
        r matches Ok(keyboard) ==> keyboard@ == social_media_layout(
            parsed_url(GITHUB_URL@)->0,
            parsed_url(LINKEDIN_URL@)->0,
            parsed_url(X_URL@)->0,
        ),
        r matches Err(e) ==> {
            ||| e.position == 0 && parsed_url(GITHUB_URL@) is None
            ||| e.position == 1 && parsed_url(GITHUB_URL@) is Some && parsed_url(LINKEDIN_URL@)
                is None
            ||| e.position == 2 && parsed_url(GITHUB_URL@) is Some && parsed_url(LINKEDIN_URL@)
                is Some && parsed_url(X_URL@) is None
        },
{
    let links = [("Github", GITHUB_URL), ("Linkedin", LINKEDIN_URL), ("X", X_URL)];
    let url_buttons: &[(&str, &str)] = links.as_slice();
    let mut rows: Vec<Vec<Button>> = Vec::new();
    proof {
        assert(url_buttons.deep_view()[0].1 == GITHUB_URL@);
        assert(url_buttons.deep_view()[1].1 == LINKEDIN_URL@);
        assert(url_buttons.deep_view()[2].1 == X_URL@);
    }
    match try_add_url_buttons(&mut rows, url_buttons) {
        Ok(()) => {
            let ghost before = rows.deep_view();
            let mut row: Vec<Button> = Vec::new();
            row.push(Button::callback("back"));
            rows.push(row);
            proof {
                assert(row.deep_view() =~= seq![callback_button("back"@)]);
                assert(rows.deep_view() =~= before.push(row.deep_view()));
                assert(before =~= link_rows(url_buttons.deep_view(), 3));
                assert(rows.deep_view() =~~= social_media_layout(
                    parsed_url(GITHUB_URL@)->0,
                    parsed_url(LINKEDIN_URL@)->0,
                    parsed_url(X_URL@)->0,
                ));
            }
            Ok(InlineKeyboard::new(rows))
        },
        Err(e) => Err(e),
    }
}

/// The panels.
#[derive(Debug, Clone, Copy, PartialEq, Eq, Structural)]
pub enum MenuId {
    Home,
    AboutMe,
    SocialMedia,
    Jobs,
    Skills,
    Alelo,
}

impl MenuId {
    /// The panel's identifier: the name under which the configuration holds
    /// its text.
    pub open spec fn name(self) -> Seq<char> {
        match self {
            MenuId::Home => "home"@,
            MenuId::AboutMe => "about_me"@,
            MenuId::SocialMedia => "social_media"@,
            MenuId::Jobs => "jobs"@,
            MenuId::Skills => "skills"@,
            MenuId::Alelo => "alelo"@,
        }
    }

    /// The panel's identifier.
    pub fn as_str(self) -> (r: &'static str)
        ensures
            r@ == self.name(),
    {
        match self {
            MenuId::Home => "home",
            MenuId::AboutMe => "about_me",
            MenuId::SocialMedia => "social_media",
            MenuId::Jobs => "jobs",
            MenuId::Skills => "skills",
            MenuId::Alelo => "alelo",
        }
    }
}

/// The panel that answers to `key`, if there is one. A panel answers to its
/// identifier and to the lower-case label of every button that opens it.
/// `back` leads home. An employer or a skill that has no text of its own
/// opens the panel that lists it.
pub open spec fn menu_of(key: Seq<char>) -> Option<MenuId> {
    if key == "home"@ || key == "back"@ {
        Some(MenuId::Home)
    } else if key == "about_me"@ || key == "about me"@ {
        Some(MenuId::AboutMe)
    } else if key == "social_media"@ || key == "social media"@ {
        Some(MenuId::SocialMedia)
    } else if key == "jobs"@ || key == "vivo"@ || key == "freelancers"@ {
        Some(MenuId::Jobs)
    } else if key == "skills"@ || key == "rust"@ || key == "python"@ || key == "kotlin"@ || key
        == "java"@ || key == "cybersecurity"@ {
        Some(MenuId::Skills)
    } else if key == "alelo"@ {
        Some(MenuId::Alelo)
    } else if key == lowercase_of("Assa√≠"@) {
        Some(MenuId::Jobs)
    } else {
        None
    }
}

/// Finds the panel that answers to `key`. The comparison is exact: a key in
/// another case than the ones listed finds nothing.
pub fn find_menu(key: &str) -> (r: Option<MenuId>)
    ensures
        r == menu_of(key@),
{
    if same_text(key, "home") || same_text(key, "back") {
        Some(MenuId::Home)
    } else if same_text(key, "about_me") || same_text(key, "about me") {
        Some(MenuId::AboutMe)
    } else if same_text(key, "social_media") || same_text(key, "social media") {
        Some(MenuId::SocialMedia)
    } else if same_text(key, "jobs") || same_text(key, "vivo") || same_text(key, "freelancers") {
        Some(MenuId::Jobs)
    } else if same_text(key, "skills") || same_text(key, "rust") || same_text(key, "python")
        || same_text(key, "kotlin") || same_text(key, "java") || same_text(key, "cybersecurity") {
        Some(MenuId::Skills)
    } else if same_text(key, "alelo") {
        Some(MenuId::Alelo)
    } else if same_text(key, to_lowercase("Assa√≠").as_str()) {
        Some(MenuId::Jobs)
    } else {
        None
    }
}

/// One navigable panel: its text and the keyboard below it.
#[derive(Debug, Clone, PartialEq, Eq)]
pub struct MenuEntry {
    pub identifier: MenuId,
    /// The text, in the markup of the messaging platform.
    pub body_text: String,
    pub keyboard: InlineKeyboard,
}

/// The mathematical value of a [`MenuEntry`].
pub struct MenuEntryModel {
    pub identifier: MenuId,
    pub body_text: Seq<char>,
    pub keyboard: Layout,
}

impl View for MenuEntry {
    type V = MenuEntryModel;

    open spec fn view(&self) -> MenuEntryModel {
        MenuEntryModel {
            identifier: self.identifier,
            body_text: self.body_text@,
            keyboard: self.keyboard@,
        }
    }
}

/// Whether the three addresses that the keyboards link to are absolute URLs.
pub open spec fn links_parse() -> bool {
    &&& parsed_url(GITHUB_URL@) is Some
    &&& parsed_url(LINKEDIN_URL@) is Some
    &&& parsed_url(X_URL@) is Some
}

/// The keyboard that belongs to each panel.
pub open spec fn standard_layout(id: MenuId) -> Layout {
    match id {
        MenuId::Home => home_layout(parsed_url(GITHUB_URL@)->0),
        MenuId::AboutMe => back_layout(),
        MenuId::SocialMedia => social_media_layout(
            parsed_url(GITHUB_URL@)->0,
            parsed_url(LINKEDIN_URL@)->0,
            parsed_url(X_URL@)->0,
        ),
        MenuId::Jobs => jobs_layout(),
        MenuId::Skills => skills_layout(),
        MenuId::Alelo => back_layout(),
    }
}

/// The text that `config` supplies for each panel.
pub open spec fn panel_text(config: Config, id: MenuId) -> Seq<char> {
    match id {
        MenuId::Home => config.home@,
        MenuId::AboutMe => config.about_me@,
        MenuId::SocialMedia => config.social_media@,
        MenuId::Jobs => config.jobs@,
        MenuId::Skills => config.skills@,
        MenuId::Alelo => config.alelo@,
    }
}

/// A registry could not be filled: a keyboard links to what is no URL.
#[derive(Debug, Clone, Copy, PartialEq, Eq)]
pub struct RegistryError {
    /// The panel whose keyboard could not be made.
    pub menu: MenuId,
    /// Where the link stands among the links of that keyboard.
    pub position: usize,
}

/// The panels of the bot, filled once from the configuration and only read
/// afterwards.
#[derive(Debug, Clone, PartialEq, Eq)]
pub struct MenuRegistry {
    home: MenuEntry,
    about_me: MenuEntry,
    social_media: MenuEntry,
    jobs: MenuEntry,
    skills: MenuEntry,
    alelo: MenuEntry,
}

impl MenuRegistry {
    /// The panel that the registry holds under `id`.
    pub closed spec fn entry(&self, id: MenuId) -> MenuEntry {
        match id {
            MenuId::Home => self.home,
            MenuId::AboutMe => self.about_me,
            MenuId::SocialMedia => self.social_media,
            MenuId::Jobs => self.jobs,
            MenuId::Skills => self.skills,
            MenuId::Alelo => self.alelo,
        }
    }

    /// Every panel is held under its own identifier and shows the keyboard
    /// that belongs to it, with links that are URLs.
    pub open spec fn wf(&self) -> bool {
        &&& links_parse()
        &&& forall|id: MenuId|
            {
                &&& (#[trigger] self.entry(id)).identifier == id
                &&& self.entry(id).keyboard@ == standard_layout(id)
            }
    }

    /// Whether the panels show the texts of `config`.
    pub open spec fn shows(&self, config: Config) -> bool {
        forall|id: MenuId| (#[trigger] self.entry(id)).body_text@ == panel_text(config, id)
    }

    /// Fills the registry from `config`. This fails only where one of the
    /// addresses that the keyboards link to is no absolute URL; the error
    /// names the first keyboard that could not be made.
    pub fn new(config: Config) -> (r: Result<MenuRegistry, RegistryError>)
        ensures
            r is Ok <==> links_parse(),
            r matches Ok(registry) ==> registry.wf() && registry.shows(config),
            r matches Err(e) ==> {
                ||| e.menu == MenuId::Home && e.position == 0 && parsed_url(GITHUB_URL@) is None
                ||| e.menu == MenuId::SocialMedia && e.position == 1 && parsed_url(GITHUB_URL@)
                    is Some && parsed_url(LINKEDIN_URL@) is None
                ||| e.menu == MenuId::SocialMedia && e.position == 2 && parsed_url(GITHUB_URL@)
                    is Some && parsed_url(LINKEDIN_URL@) is Some && parsed_url(X_URL@) is None
            },
    {
        let home_keys = match home_keyboard() {
            Ok(keyboard) => keyboard,
            Err(e) => {
                return Err(RegistryError { menu: MenuId::Home, position: e.position });
            },
        };
        let social_keys = match social_media_buttons() {
            Ok(keyboard) => keyboard,
            Err(e) => {
                return Err(RegistryError { menu: MenuId::SocialMedia, position: e.position });
            },
        };
        let Config { home, about_me, social_media, jobs, skills, alelo } = config;
        let registry = MenuRegistry {
            home: MenuEntry { identifier: MenuId::Home, body_text: home, keyboard: home_keys },
            about_me: MenuEntry {
                identifier: MenuId::AboutMe,
                body_text: about_me,
                keyboard: back_button(),
            },
            social_media: MenuEntry {
                identifier: MenuId::SocialMedia,
                body_text: social_media,
                keyboard: social_keys,
            },
            jobs: MenuEntry { identifier: MenuId::Jobs, body_text: jobs, keyboard: jobs_button() },
            skills: MenuEntry {
                identifier: MenuId::Skills,
                body_text: skills,
                keyboard: skills_button(),
            },
            alelo: MenuEntry {
                identifier: MenuId::Alelo,
                body_text: alelo,
                keyboard: back_button(),
            },
        };
        Ok(registry)
    }

    /// The panel held under `id`.
    pub fn get(&self, id: MenuId) -> (entry: &MenuEntry)
        ensures
            *entry == self.entry(id),
    {
        match id {
            MenuId::Home => &self.home,
            MenuId::AboutMe => &self.about_me,
            MenuId::SocialMedia => &self.social_media,
            MenuId::Jobs => &self.jobs,
            MenuId::Skills => &self.skills,
            MenuId::Alelo => &self.alelo,
        }
    }

    /// Looks `identifier` up: the panel that answers to it, or `None` for a
    /// text that no panel answers to. Nothing is changed.
    pub fn resolve(&self, identifier: &str) -> (r: Option<&MenuEntry>)
        ensures
            r is Some <==> menu_of(identifier@) is Some,
            r matches Some(entry) ==> *entry == self.entry(menu_of(identifier@)->0),
    {
        match find_menu(identifier) {
            Some(id) => Some(self.get(id)),
            None => None,
        }
    }
}

} // verus!
