//! Inline keyboards: rows of labelled buttons that either send a token back
//! to the bot or open a link.

use vstd::prelude::*;

verus! {

/// What pressing a button does.
#[derive(Debug, Clone, PartialEq, Eq)]
pub enum ButtonAction {
    /// Sends the token back to the bot.
    Callback(String),
    /// Opens the link; nothing is sent to the bot.
    OpenLink(String),
}

/// One button of an inline keyboard.
#[derive(Debug, Clone, PartialEq, Eq)]
pub struct Button {
    pub label: String,
    pub action: ButtonAction,
}

/// The mathematical value of a [`ButtonAction`].
pub enum ButtonActionModel {
    Callback(Seq<char>),
    OpenLink(Seq<char>),
}

/// The mathematical value of a [`Button`].
pub struct ButtonModel {
    pub label: Seq<char>,
    pub action: ButtonActionModel,
}

/// The mathematical value of a keyboard: its rows from top to bottom, each
/// row from left to right.
pub type Layout = Seq<Seq<ButtonModel>>;

impl View for ButtonAction {
    type V = ButtonActionModel;

    open spec fn view(&self) -> ButtonActionModel {
        match self {
            ButtonAction::Callback(token) => ButtonActionModel::Callback(token@),
            ButtonAction::OpenLink(link) => ButtonActionModel::OpenLink(link@),
        }
    }
}

impl View for Button {
    type V = ButtonModel;

    open spec fn view(&self) -> ButtonModel {
        ButtonModel { label: self.label@, action: self.action@ }
    }
}

impl DeepView for Button {
    type V = ButtonModel;

    open spec fn deep_view(&self) -> ButtonModel {
        self@
    }
}

/// The button that shows `label` and sends `label` back as its token.
pub open spec fn callback_button(label: Seq<char>) -> ButtonModel {
    ButtonModel { label, action: ButtonActionModel::Callback(label) }
}

/// The button that shows `label` and opens `link`.
pub open spec fn link_button(label: Seq<char>, link: Seq<char>) -> ButtonModel {
    ButtonModel { label, action: ButtonActionModel::OpenLink(link) }
}

impl Button {
    /// The button that shows `label` and sends `label` back as its token.
    pub fn callback(label: &str) -> (button: Button)
        ensures
            button@ == callback_button(label@),
    {
        Button { label: label.to_owned(), action: ButtonAction::Callback(label.to_owned()) }
    }

    /// The button that shows `label` and opens `link`.
    pub fn link(label: &str, link: String) -> (button: Button)
        ensures
            button@ == link_button(label@, link@),
    {
        Button { label: label.to_owned(), action: ButtonAction::OpenLink(link) }
    }
}

/// `items` cut into consecutive pieces of `size` items; the last piece holds
/// what is left and may be shorter.
pub open spec fn chunked<T>(items: Seq<T>, size: int) -> Seq<Seq<T>>
    decreases items.len(),
{
    if size <= 0 || items.len() == 0 {
        Seq::empty()
    } else if items.len() <= size {
        seq![items]
    } else {
        seq![items.take(size)] + chunked(items.skip(size), size)
    }
}

/// What row `row` of `items` holds when `size` items go to a row.
pub open spec fn row_of<T>(items: Seq<T>, size: int, row: int) -> Seq<T> {
    items.subrange(
        row * size,
        if (row + 1) * size <= items.len() {
            (row + 1) * size
        } else {
            items.len() as int
        },
    )
}

/// The rows of `chunked(items, size)` are the consecutive pieces of `items`,
/// and there are just as many as it takes to hold every item.
pub proof fn lemma_chunked_rows<T>(items: Seq<T>, size: int)
    requires
        size > 0,
    ensures
        items.len() == 0 ==> chunked(items, size).len() == 0,
        items.len() > 0 ==> (chunked(items, size).len() - 1) * size < items.len() <= chunked(
            items,
            size,
        ).len() * size,
        forall|row: int|
            0 <= row < chunked(items, size).len() ==> #[trigger] chunked(items, size)[row]
                == row_of(items, size, row),
    decreases items.len(),
{
    let rows = chunked(items, size);
    if items.len() == 0 {
    } else if items.len() <= size {
        assert(rows.len() == 1);
        assert(rows[0] =~= row_of(items, size, 0));
    } else {
        let rest = items.skip(size);
        let below = chunked(rest, size);
        lemma_chunked_rows(rest, size);
        assert(rows.len() == below.len() + 1);
        assert((below.len() - 1) * size + size == below.len() * size) by (nonlinear_arith);
        assert(below.len() * size + size == (below.len() + 1) * size) by (nonlinear_arith);
        assert forall|row: int| 0 <= row < rows.len() implies #[trigger] rows[row] == row_of(
            items,
            size,
            row,
        ) by {
            if row == 0 {
                assert(rows[0] =~= row_of(items, size, 0));
            } else {
                assert(rows[row] == below[row - 1]);
                assert((row - 1) * size + size == row * size) by (nonlinear_arith);
                assert(row * size + size == (row + 1) * size) by (nonlinear_arith);
                assert(0 <= (row - 1) * size <= (below.len() - 1) * size) by (nonlinear_arith)
                    requires
                        0 <= row - 1 <= below.len() - 1,
                        size > 0,
                ;
                assert(row_of(rest, size, row - 1) =~= row_of(items, size, row));
            }
        }
    }
}

/// The callback buttons for `labels`, in order.
pub open spec fn callback_buttons(labels: Seq<Seq<char>>) -> Seq<ButtonModel> {
    Seq::new(labels.len(), |i: int| callback_button(labels[i]))
}

/// The keyboard that shows `labels` as callback buttons, `per_row` to a row.
pub open spec fn callback_rows(labels: Seq<Seq<char>>, per_row: int) -> Layout {
    chunked(callback_buttons(labels), per_row)
}

/// Builds a keyboard of callback buttons, one for each label and in the
/// labels' order, `chunk_size` to a row. Each button sends its own label.
/// A row holds at least one button, so `chunk_size` is at least one.
pub fn create_inline_keyboard_rows(
    buttons: &[&str],
    chunk_size: usize,
) -> (keyboard: Vec<Vec<Button>>)
    requires
        chunk_size > 0,
    ensures
        keyboard.deep_view() == callback_rows(buttons.deep_view(), chunk_size as int),
{
    let n: usize = buttons.len();
    let ghost all = callback_buttons(buttons.deep_view());
    let mut keyboard: Vec<Vec<Button>> = Vec::new();
    let mut start: usize = 0;
    assert(all.skip(0) =~= all);
    assert(keyboard.deep_view() + chunked(all, chunk_size as int) =~= chunked(
        all,
        chunk_size as int,
    ));
    while start < n
        invariant
            chunk_size > 0,
            n == buttons@.len(),
            start <= n,
            all == callback_buttons(buttons.deep_view()),
            keyboard.deep_view() + chunked(all.skip(start as int), chunk_size as int) == chunked(
                all,
                chunk_size as int,
            ),
        decreases n - start,
    {
        let end: usize = if n - start <= chunk_size {
            n
        } else {
            start + chunk_size
        };
        let mut row: Vec<Button> = Vec::new();
        let mut i: usize = start;
        while i < end
            invariant
                n == buttons@.len(),
                start <= i <= end <= n,
                all == callback_buttons(buttons.deep_view()),
                row.deep_view() == all.subrange(start as int, i as int),
            decreases end - i,
        {
            let label: &str = buttons[i];
            let ghost before = row.deep_view();
            row.push(Button::callback(label));
            assert(row.deep_view() =~= before.push(all[i as int]));
            i = i + 1;
        }
        proof {
            let rest = all.skip(start as int);
            let size = chunk_size as int;
            assert(rest.len() == n - start);
            if n - start <= chunk_size {
                assert(rest =~= all.subrange(start as int, end as int));
                assert(chunked(all.skip(end as int), size) =~= Seq::<Seq<ButtonModel>>::empty());
            } else {
                assert(rest.take(size) =~= all.subrange(start as int, end as int));
                assert(rest.skip(size) =~= all.skip(end as int));
            }
            assert(chunked(rest, size) =~= seq![row.deep_view()] + chunked(
                all.skip(end as int),
                size,
            ));
        }
        let ghost before = keyboard.deep_view();
        keyboard.push(row);
        assert(keyboard.deep_view() =~= before.push(row.deep_view()));
        assert(keyboard.deep_view() + chunked(all.skip(end as int), chunk_size as int) =~= before
            + chunked(all.skip(start as int), chunk_size as int));
        start = end;
    }
    assert(chunked(all.skip(n as int), chunk_size as int) =~= Seq::<Seq<ButtonModel>>::empty());
    assert(keyboard.deep_view() =~= chunked(all, chunk_size as int));
    keyboard
}

/// The error type of `url::Url::parse`.
#[verifier::external_type_specification]
#[verifier::external_body]
pub struct ExParseError(url::ParseError);

/// What parsing `text` as an absolute URL gives: the URL written out in its
/// normal form, or `None` where `text` is no such URL.
pub uninterp spec fn parsed_url(text: Seq<char>) -> Option<Seq<char>>;

/// Calls `url::Url::parse` and, on success, takes the URL's serialization
/// out of it. Not proved: that the outcome depends on `text` alone.
#[verifier::external_body]
fn parse_url(text: &str) -> (r: Result<String, url::ParseError>)
    ensures
        r matches Ok(link) ==> parsed_url(text@) == Some(link@),
        r is Err ==> parsed_url(text@) is None,
{
    url::Url::parse(text).map(String::from)
}

/// A link button could not be made: its target is no absolute URL.
#[derive(Debug, Clone, Copy, PartialEq, Eq)]
pub struct LinkError {
    /// Where the button stands in the list that was handed in.
    pub position: usize,
}

/// One row for each of the first `count` pairs of `buttons`, holding a single
/// link button with the pair's label and the normal form of its target.
pub open spec fn link_rows(buttons: Seq<(Seq<char>, Seq<char>)>, count: int) -> Layout {
    Seq::new(count as nat, |i: int| seq![link_button(buttons[i].0, parsed_url(buttons[i].1)->0)])
}

/// Whether every target among `buttons` is an absolute URL.
pub open spec fn all_links_parse(buttons: Seq<(Seq<char>, Seq<char>)>) -> bool {
    forall|i: int| 0 <= i < buttons.len() ==> parsed_url(#[trigger] buttons[i].1) is Some
}

/// Appends one row with a single link button for each `(label, target)` pair,
/// in order. Every target is an absolute URL; [`try_add_url_buttons`] is for
/// targets of which that is not known.
pub fn add_url_buttons(keyboard: &mut Vec<Vec<Button>>, buttons: &[(&str, &str)])
    requires
        forall|i: int|
            0 <= i < buttons@.len() ==> parsed_url(#[trigger] buttons.deep_view()[i].1) is Some,
    ensures
        final(keyboard).deep_view() == old(keyboard).deep_view() + link_rows(
            buttons.deep_view(),
            buttons@.len() as int,
        ),
{
    let n: usize = buttons.len();
    let mut i: usize = 0;
    assert(keyboard.deep_view() =~= old(keyboard).deep_view() + link_rows(buttons.deep_view(), 0));
    while i < n
        invariant
            n == buttons@.len(),
            i <= n,
            forall|k: int|
                0 <= k < buttons@.len() ==> parsed_url(#[trigger] buttons.deep_view()[k].1)
                    is Some,
            keyboard.deep_view() == old(keyboard).deep_view() + link_rows(
                buttons.deep_view(),
                i as int,
            ),
        decreases n - i,
    {
        let (label, target) = buttons[i];
        assert(buttons.deep_view()[i as int] == (label@, target@));
        assert(parsed_url(buttons.deep_view()[i as int].1) is Some);
        match parse_url(target) {
            Ok(link) => {
                let ghost before = keyboard.deep_view();
                let mut row: Vec<Button> = Vec::new();
                row.push(Button::link(label, link));
                assert(row.deep_view() =~= seq![link_button(label@, link@)]);
                keyboard.push(row);
                assert(keyboard.deep_view() =~= before.push(row.deep_view()));
                assert(keyboard.deep_view() =~= old(keyboard).deep_view() + link_rows(
                    buttons.deep_view(),
                    i + 1,
                ));
            },
            Err(_) => {
                // Every target parses, so this is never reached.
                assert(false);
            },
        }
        i = i + 1;
    }
}

/// Appends the link rows for `buttons` as [`add_url_buttons`] does, after
/// making sure that every target is an absolute URL. Where one is not, the
/// keyboard stays as it is and the error gives the position of the first
/// such pair.
pub fn try_add_url_buttons(
    keyboard: &mut Vec<Vec<Button>>,
    buttons: &[(&str, &str)],
) -> (r: Result<(), LinkError>)
    ensures
        r is Ok <==> all_links_parse(buttons.deep_view()),
        r is Ok ==> final(keyboard).deep_view() == old(keyboard).deep_view() + link_rows(
            buttons.deep_view(),
            buttons@.len() as int,
        ),
        r matches Err(e) ==> {
            &&& e.position < buttons@.len()
            &&& parsed_url(buttons.deep_view()[e.position as int].1) is None
            &&& forall|i: int|
                0 <= i < e.position ==> parsed_url(#[trigger] buttons.deep_view()[i].1) is Some
            &&& final(keyboard).deep_view() == old(keyboard).deep_view()
        },
{
    let n: usize = buttons.len();
    let mut i: usize = 0;
    while i < n
        invariant
            n == buttons@.len(),
            i <= n,
            forall|k: int| 0 <= k < i ==> parsed_url(#[trigger] buttons.deep_view()[k].1) is Some,
            keyboard.deep_view() == old(keyboard).deep_view(),
        decreases n - i,
    {
        let (_, target) = buttons[i];
        assert(buttons.deep_view()[i as int].1 == target@);
        if parse_url(target).is_err() {
            return Err(LinkError { position: i });
        }
        i = i + 1;
    }
    add_url_buttons(keyboard, buttons);
    Ok(())
}

/// An inline keyboard as it is attached to a message.
#[derive(Debug, Clone, PartialEq, Eq)]
pub struct InlineKeyboard {
    /// The rows from top to bottom, each from left to right.
    pub rows: Vec<Vec<Button>>,
}

impl View for InlineKeyboard {
    type V = Layout;

    open spec fn view(&self) -> Layout {
        self.rows.deep_view()
    }
}

impl InlineKeyboard {
    /// The keyboard with the given rows.
    pub fn new(rows: Vec<Vec<Button>>) -> (keyboard: Self)
        ensures
            keyboard@ == rows.deep_view(),
    {
        InlineKeyboard { rows }
    }
}

} // verus!
