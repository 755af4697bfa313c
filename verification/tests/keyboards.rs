use portfolio_bot::keyboard::{
    add_url_buttons, create_inline_keyboard_rows, try_add_url_buttons, Button, ButtonAction,
    InlineKeyboard, LinkError,
};
use portfolio_bot::menu::{
    back_button, home_keyboard, jobs_button, skills_button, social_media_buttons, GITHUB_URL,
    LINKEDIN_URL, X_URL,
};

fn callback(label: &str) -> Button {
    Button { label: label.to_string(), action: ButtonAction::Callback(label.to_string()) }
}

fn link(label: &str, target: &str) -> Button {
    Button { label: label.to_string(), action: ButtonAction::OpenLink(target.to_string()) }
}

#[test]
fn rows_are_filled_in_order_and_the_last_may_be_short() {
    let rows = create_inline_keyboard_rows(&["a", "b", "c", "d", "e"], 2);
    assert_eq!(
        rows,
        vec![vec![callback("a"), callback("b")], vec![callback("c"), callback("d")], vec![
            callback("e")
        ]]
    );
}

#[test]
fn rows_of_one_button_each() {
    let rows = create_inline_keyboard_rows(&["a", "b", "c"], 1);
    assert_eq!(rows, vec![vec![callback("a")], vec![callback("b")], vec![callback("c")]]);
}

#[test]
fn a_row_wider_than_the_labels_holds_them_all() {
    let rows = create_inline_keyboard_rows(&["a", "b", "c"], 10);
    assert_eq!(rows, vec![vec![callback("a"), callback("b"), callback("c")]]);
    let rows = create_inline_keyboard_rows(&["a", "b", "c"], usize::MAX);
    assert_eq!(rows, vec![vec![callback("a"), callback("b"), callback("c")]]);
}

#[test]
fn labels_that_fill_the_rows_exactly() {
    let rows = create_inline_keyboard_rows(&["a", "b", "c", "d"], 2);
    assert_eq!(rows, vec![vec![callback("a"), callback("b")], vec![callback("c"), callback("d")]]);
}

#[test]
fn no_labels_give_no_rows() {
    let rows = create_inline_keyboard_rows(&[], 3);
    assert_eq!(rows, Vec::<Vec<Button>>::new());
}

#[test]
fn a_callback_button_sends_its_own_label() {
    let rows = create_inline_keyboard_rows(&["Social Media"], 2);
    assert_eq!(rows[0][0].label, "Social Media");
    assert_eq!(rows[0][0].action, ButtonAction::Callback("Social Media".to_string()));
}

#[test]
fn link_buttons_get_a_row_each_after_what_is_there() {
    let mut rows = create_inline_keyboard_rows(&["a"], 2);
    add_url_buttons(
        &mut rows,
        &[("One", "https://example.com/one"), ("Two", "https://example.com/two")],
    );
    assert_eq!(
        rows,
        vec![
            vec![callback("a")],
            vec![link("One", "https://example.com/one")],
            vec![link("Two", "https://example.com/two")],
        ]
    );
}

#[test]
fn a_link_is_kept_in_its_normal_form() {
    let mut rows: Vec<Vec<Button>> = Vec::new();
    add_url_buttons(
        &mut rows,
        &[("Bare", "https://example.com"), ("Loud", "HTTPS://EXAMPLE.COM/a b")],
    );
    assert_eq!(
        rows,
        vec![vec![link("Bare", "https://example.com/")], vec![link(
            "Loud",
            "https://example.com/a%20b"
        )]]
    );
}

#[test]
fn no_links_change_nothing() {
    let mut rows: Vec<Vec<Button>> = vec![vec![callback("kept")]];
    add_url_buttons(&mut rows, &[]);
    assert_eq!(rows, vec![vec![callback("kept")]]);
    assert_eq!(try_add_url_buttons(&mut rows, &[]), Ok(()));
    assert_eq!(rows, vec![vec![callback("kept")]]);
}

#[test]
fn checked_links_are_added_as_unchecked_ones_are() {
    let links = [("One", "https://example.com"), ("Two", "HTTPS://EXAMPLE.COM/a b")];
    let mut checked: Vec<Vec<Button>> = vec![vec![callback("a")]];
    let mut plain: Vec<Vec<Button>> = vec![vec![callback("a")]];
    assert_eq!(try_add_url_buttons(&mut checked, &links), Ok(()));
    add_url_buttons(&mut plain, &links);
    assert_eq!(checked, plain);
    assert_eq!(checked[2], vec![link("Two", "https://example.com/a%20b")]);
}

#[test]
fn a_target_that_is_no_url_adds_no_row() {
    let mut rows: Vec<Vec<Button>> = Vec::new();
    let outcome = try_add_url_buttons(
        &mut rows,
        &[("Good", "https://example.com/"), ("Bad", "not a url"), ("Late", "https://example.org/")],
    );
    assert_eq!(outcome, Err(LinkError { position: 1 }));
    assert_eq!(rows, Vec::<Vec<Button>>::new());
}

#[test]
fn the_first_target_that_is_no_url_is_named() {
    let mut rows: Vec<Vec<Button>> = Vec::new();
    let outcome = try_add_url_buttons(
        &mut rows,
        &[("Good", "https://example.com/"), ("Bad", "not a url"), ("Worse", "")],
    );
    assert_eq!(outcome, Err(LinkError { position: 1 }));
    let outcome = try_add_url_buttons(&mut rows, &[("x", "not a url")]);
    assert_eq!(outcome, Err(LinkError { position: 0 }));
    assert_eq!(rows, Vec::<Vec<Button>>::new());
}

#[test]
fn a_relative_target_is_no_url() {
    let mut rows: Vec<Vec<Button>> = vec![vec![callback("kept")]];
    let outcome = try_add_url_buttons(&mut rows, &[("Relative", "/in/somebody")]);
    assert_eq!(outcome, Err(LinkError { position: 0 }));
    assert_eq!(rows, vec![vec![callback("kept")]]);
}

#[test]
fn the_home_keyboard_has_four_panels_and_a_link() {
    let keyboard = home_keyboard().unwrap();
    assert_eq!(
        keyboard,
        InlineKeyboard {
            rows: vec![
                vec![callback("About me"), callback("Jobs")],
                vec![callback("Social Media"), callback("Skills")],
                vec![link("Github", "https://github.com/junque1r4/rust-telegram-portifolio")],
            ]
        }
    );
}

#[test]
fn the_social_media_keyboard_has_three_links_and_the_way_back() {
    let keyboard = social_media_buttons().unwrap();
    assert_eq!(
        keyboard.rows,
        vec![
            vec![link("Github", "https://github.com/junque1r4/rust-telegram-portifolio")],
            vec![link("Linkedin", "https://www.linkedin.com/in/joao-victor-junqueira-1b9114164/")],
            vec![link("X", "https://twitter.com/KRNJun")],
            vec![callback("back")],
        ]
    );
}

#[test]
fn the_links_are_already_in_their_normal_form() {
    let keyboard = social_media_buttons().unwrap();
    assert_eq!(keyboard.rows[0][0].action, ButtonAction::OpenLink(GITHUB_URL.to_string()));
    assert_eq!(keyboard.rows[1][0].action, ButtonAction::OpenLink(LINKEDIN_URL.to_string()));
    assert_eq!(keyboard.rows[2][0].action, ButtonAction::OpenLink(X_URL.to_string()));
}

#[test]
fn the_back_keyboard_is_one_button() {
    assert_eq!(back_button().rows, vec![vec![callback("back")]]);
}

#[test]
fn the_jobs_keyboard_lists_the_employers() {
    assert_eq!(
        jobs_button().rows,
        vec![
            vec![callback("Alelo"), callback("Vivo")],
            vec![callback("Assa√≠"), callback("Freelancers")],
            vec![callback("Back")],
        ]
    );
}

#[test]
fn the_skills_keyboard_lists_the_skills() {
    assert_eq!(
        skills_button().rows,
        vec![
            vec![callback("Rust"), callback("Python")],
            vec![callback("Kotlin"), callback("Java")],
            vec![callback("Cybersecurity"), callback("Back")],
        ]
    );
}

#[test]
fn a_keyboard_is_its_rows() {
    let rows = vec![vec![callback("a")], vec![]];
    assert_eq!(InlineKeyboard::new(rows.clone()).rows, rows);
}

#[test]
fn the_two_kinds_of_button() {
    assert_eq!(Button::callback("Jobs"), callback("Jobs"));
    assert_eq!(
        Button::link("X", "https://twitter.com/KRNJun".to_string()),
        link("X", "https://twitter.com/KRNJun")
    );
}
