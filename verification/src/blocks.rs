//! The pages of the plugin as the host's page builder holds them.
//!
//! `btcpay_plugin::ui` builds a page step by step. Each step is a function here, with a contract
//! over what the builder holds afterwards.

use vstd::prelude::*;

use crate::text;

verus! {

/// How prominent a notice is.
#[derive(Clone, Copy, PartialEq, Eq, Structural, Debug)]
pub enum AlertLevel {
    /// Neutral information.
    Info,
    /// Something went well.
    Success,
    /// Something needs attention but still works.
    Warning,
    /// Something is broken.
    Danger,
}

/// How a button looks.
#[derive(Clone, Copy, PartialEq, Eq, Structural, Debug)]
pub enum ButtonStyle {
    /// The page's main action.
    Primary,
    /// An ordinary action.
    Secondary,
    /// Something destructive.
    Danger,
}

/// A headline number.
#[verifier::ext_equal]
pub struct CardView {
    pub label: Seq<char>,
    pub value: Seq<char>,
    pub detail: Option<Seq<char>>,
}

/// A button that asks the plugin to do something.
#[verifier::ext_equal]
pub struct ButtonView {
    pub command: Seq<char>,
    pub label: Seq<char>,
    pub style: ButtonStyle,
    pub confirm: Option<Seq<char>>,
}

/// A group of buttons.
#[verifier::ext_equal]
pub struct ActionsView {
    pub title: Option<Seq<char>>,
    pub buttons: Seq<ButtonView>,
}

/// Rows of read-only data.
#[verifier::ext_equal]
pub struct TableView {
    pub title: Option<Seq<char>>,
    pub columns: Seq<Seq<char>>,
    pub rows: Seq<Seq<Seq<char>>>,
    pub empty_message: Option<Seq<char>>,
}

/// What an input accepts.
#[verifier::ext_equal]
pub enum FieldKindView {
    /// A line of text, without a placeholder or a length limit.
    Text,
    /// A whole number within the bounds.
    Number { min: Option<i64>, max: Option<i64> },
    /// Any other input.
    Other,
}

/// One input of a form.
#[verifier::ext_equal]
pub struct FieldView {
    pub id: Seq<char>,
    pub label: Seq<char>,
    pub help: Option<Seq<char>>,
    pub required: bool,
    /// The value it is shown with.
    pub value: Option<Seq<char>>,
    pub kind: FieldKindView,
}

/// Inputs that are submitted together.
#[verifier::ext_equal]
pub struct FormView {
    pub id: Seq<char>,
    pub title: Option<Seq<char>>,
    pub fields: Seq<FieldView>,
    pub submit_label: Seq<char>,
}

/// A block on a page.
#[verifier::ext_equal]
pub enum SectionView {
    Alert { level: AlertLevel, text: Seq<char> },
    Text(Seq<char>),
    Stats(Seq<CardView>),
    Table(TableView),
    Actions(ActionsView),
    Form(FormView),
}

/// A page: a title and the blocks that make it up, in order. The version of the wire format, which
/// every page of the builder has, is not part of it.
#[verifier::ext_equal]
pub struct DocumentView {
    pub title: Seq<char>,
    pub sections: Seq<SectionView>,
}

impl CardView {
    /// A card without detail.
    pub open spec fn plain(label: Seq<char>, value: Seq<char>) -> CardView {
        CardView { label, value, detail: None }
    }

    /// The card with a line of detail under its value.
    pub open spec fn detailed(self, detail: Seq<char>) -> CardView {
        CardView { detail: Some(detail), ..self }
    }
}

impl ButtonView {
    /// An ordinary button that asks for no confirmation.
    pub open spec fn plain(command: Seq<char>, label: Seq<char>) -> ButtonView {
        ButtonView { command, label, style: ButtonStyle::Secondary, confirm: None }
    }

    /// The button as the page's main action.
    pub open spec fn primary(self) -> ButtonView {
        ButtonView { style: ButtonStyle::Primary, ..self }
    }

    /// The button asking a question first.
    pub open spec fn confirmed(self, question: Seq<char>) -> ButtonView {
        ButtonView { confirm: Some(question), ..self }
    }

    /// The button as something destructive, asking a question first.
    pub open spec fn destructive(self, question: Seq<char>) -> ButtonView {
        ButtonView { style: ButtonStyle::Danger, confirm: Some(question), ..self }
    }
}

impl SectionView {
    /// A notice.
    pub open spec fn alert(level: AlertLevel, text: Seq<char>) -> SectionView {
        SectionView::Alert { level, text }
    }
}

impl DocumentView {
    /// A page without blocks.
    pub open spec fn titled(title: Seq<char>) -> DocumentView {
        DocumentView { title, sections: Seq::empty() }
    }

    /// The page with more blocks at its end.
    pub open spec fn plus(self, sections: Seq<SectionView>) -> DocumentView {
        DocumentView { title: self.title, sections: self.sections + sections }
    }

    /// The page with one more block at its end.
    pub open spec fn with(self, section: SectionView) -> DocumentView {
        DocumentView { title: self.title, sections: self.sections.push(section) }
    }
}

impl FormView {
    /// The form with its last input changed to `field`.
    pub open spec fn with_last(self, field: FieldView) -> FormView {
        FormView { fields: self.fields.drop_last().push(field), ..self }
    }
}

/// The host's page type, `btcpay_plugin::ui::Document`.
#[verifier::external_type_specification]
#[verifier::external_body]
pub struct ExDocument(btcpay_plugin::ui::Document);

/// The host's builder for a row of headline numbers, `btcpay_plugin::ui::Stats`.
#[verifier::external_type_specification]
#[verifier::external_body]
pub struct ExStats(btcpay_plugin::ui::Stats);

/// The host's builder for a table, `btcpay_plugin::ui::Table`.
#[verifier::external_type_specification]
#[verifier::external_body]
pub struct ExTable(btcpay_plugin::ui::Table);

/// The host's builder for a group of buttons, `btcpay_plugin::ui::Actions`.
#[verifier::external_type_specification]
#[verifier::external_body]
pub struct ExActions(btcpay_plugin::ui::Actions);

/// The host's button type, `btcpay_plugin::ui::Button`.
#[verifier::external_type_specification]
#[verifier::external_body]
pub struct ExButton(btcpay_plugin::ui::Button);

/// The host's builder for a form, `btcpay_plugin::ui::Form`.
#[verifier::external_type_specification]
#[verifier::external_body]
pub struct ExForm(btcpay_plugin::ui::Form);

/// What a page holds.
pub uninterp spec fn document_view(document: btcpay_plugin::ui::Document) -> DocumentView;

/// The cards of a row of headline numbers.
pub uninterp spec fn stats_view(stats: btcpay_plugin::ui::Stats) -> Seq<CardView>;

/// What a table holds.
pub uninterp spec fn table_view(table: btcpay_plugin::ui::Table) -> TableView;

/// What a group of buttons holds.
pub uninterp spec fn actions_view(actions: btcpay_plugin::ui::Actions) -> ActionsView;

/// What a button holds.
pub uninterp spec fn button_view(button: btcpay_plugin::ui::Button) -> ButtonView;

/// What a form holds.
pub uninterp spec fn form_view(form: btcpay_plugin::ui::Form) -> FormView;

/// `Document::new`: a page with this title and no blocks.
#[verifier::external_body]
pub(crate) fn document_new(title: &str) -> (result: btcpay_plugin::ui::Document)
    ensures
        document_view(result) == DocumentView::titled(title@),
{
    btcpay_plugin::ui::Document::new(title)
}

/// `Document::alert`: appends a notice of this level and text, and changes nothing else.
#[verifier::external_body]
pub(crate) fn document_alert(
    page: btcpay_plugin::ui::Document,
    level: AlertLevel,
    text: &str,
) -> (result: btcpay_plugin::ui::Document)
    ensures
        document_view(result) == document_view(page).with(SectionView::Alert { level, text: text@ }),
{
    let level = match level {
        AlertLevel::Info => btcpay_plugin::ui::AlertLevel::Info,
        AlertLevel::Success => btcpay_plugin::ui::AlertLevel::Success,
        AlertLevel::Warning => btcpay_plugin::ui::AlertLevel::Warning,
        AlertLevel::Danger => btcpay_plugin::ui::AlertLevel::Danger,
    };
    page.alert(level, text)
}

/// `Document::text`: appends a paragraph, and changes nothing else.
#[verifier::external_body]
pub(crate) fn document_text(page: btcpay_plugin::ui::Document, text: &str) -> (result:
    btcpay_plugin::ui::Document)
    ensures
        document_view(result) == document_view(page).with(SectionView::Text(text@)),
{
    page.text(text)
}

/// `Document::stats`: appends a row of headline numbers, and changes nothing else.
#[verifier::external_body]
pub(crate) fn document_stats(
    page: btcpay_plugin::ui::Document,
    stats: btcpay_plugin::ui::Stats,
) -> (result: btcpay_plugin::ui::Document)
    ensures
        document_view(result) == document_view(page).with(SectionView::Stats(stats_view(stats))),
{
    page.stats(stats)
}

/// `Document::table`: appends a table, and changes nothing else.
#[verifier::external_body]
pub(crate) fn document_table(
    page: btcpay_plugin::ui::Document,
    table: btcpay_plugin::ui::Table,
) -> (result: btcpay_plugin::ui::Document)
    ensures
        document_view(result) == document_view(page).with(SectionView::Table(table_view(table))),
{
    page.table(table)
}

/// `Document::actions`: appends a group of buttons, and changes nothing else.
#[verifier::external_body]
pub(crate) fn document_actions(
    page: btcpay_plugin::ui::Document,
    actions: btcpay_plugin::ui::Actions,
) -> (result: btcpay_plugin::ui::Document)
    ensures
        document_view(result) == document_view(page).with(
            SectionView::Actions(actions_view(actions)),
        ),
{
    page.actions(actions)
}

/// `Document::form`: appends a form, and changes nothing else.
#[verifier::external_body]
pub(crate) fn document_form(
    page: btcpay_plugin::ui::Document,
    form: btcpay_plugin::ui::Form,
) -> (result: btcpay_plugin::ui::Document)
    ensures
        document_view(result) == document_view(page).with(SectionView::Form(form_view(form))),
{
    page.form(form)
}

/// `Stats::new`: an empty row of cards.
#[verifier::external_body]
pub(crate) fn stats_new() -> (result: btcpay_plugin::ui::Stats)
    ensures
        stats_view(result) == Seq::<CardView>::empty(),
{
    btcpay_plugin::ui::Stats::new()
}

/// `Stats::card`: adds a card without detail at the end of the row.
#[verifier::external_body]
pub(crate) fn stats_card(stats: btcpay_plugin::ui::Stats, label: &str, value: &str) -> (result:
    btcpay_plugin::ui::Stats)
    ensures
        stats_view(result) == stats_view(stats).push(CardView::plain(label@, value@)),
{
    stats.card(label, value)
}

/// `Stats::detail`: sets the detail of the last card, where there is one.
#[verifier::external_body]
pub(crate) fn stats_detail(stats: btcpay_plugin::ui::Stats, detail: &str) -> (result:
    btcpay_plugin::ui::Stats)
    ensures
        stats_view(stats).len() == 0 ==> stats_view(result) == stats_view(stats),
        stats_view(stats).len() > 0 ==> stats_view(result) == stats_view(stats).drop_last().push(
            stats_view(stats).last().detailed(detail@),
        ),
{
    stats.detail(detail)
}

/// `Table::new`: a table with these column headings and nothing else.
#[verifier::external_body]
pub(crate) fn table_new(columns: Vec<String>) -> (result: btcpay_plugin::ui::Table)
    ensures
        table_view(result) == (TableView {
            title: None,
            columns: text::all(columns@),
            rows: Seq::empty(),
            empty_message: None,
        }),
{
    btcpay_plugin::ui::Table::new(columns)
}

/// `Table::title`: sets the heading above the table.
#[verifier::external_body]
pub(crate) fn table_title(table: btcpay_plugin::ui::Table, title: &str) -> (result:
    btcpay_plugin::ui::Table)
    ensures
        table_view(result) == (TableView { title: Some(title@), ..table_view(table) }),
{
    table.title(title)
}

/// `Table::row`: appends a row of these cells.
#[verifier::external_body]
pub(crate) fn table_row(table: btcpay_plugin::ui::Table, cells: Vec<String>) -> (result:
    btcpay_plugin::ui::Table)
    ensures
        table_view(result) == (TableView {
            rows: table_view(table).rows.push(text::all(cells@)),
            ..table_view(table)
        }),
{
    table.row(cells)
}

/// `Table::empty_message`: sets what is shown while there are no rows.
#[verifier::external_body]
pub(crate) fn table_empty_message(table: btcpay_plugin::ui::Table, message: &str) -> (result:
    btcpay_plugin::ui::Table)
    ensures
        table_view(result) == (TableView { empty_message: Some(message@), ..table_view(table) }),
{
    table.empty_message(message)
}

/// `Actions::new`: an empty group of buttons without a heading.
#[verifier::external_body]
pub(crate) fn actions_new() -> (result: btcpay_plugin::ui::Actions)
    ensures
        actions_view(result) == (ActionsView { title: None, buttons: Seq::empty() }),
{
    btcpay_plugin::ui::Actions::new()
}

/// `Actions::title`: sets the heading above the buttons.
#[verifier::external_body]
pub(crate) fn actions_title(actions: btcpay_plugin::ui::Actions, title: &str) -> (result:
    btcpay_plugin::ui::Actions)
    ensures
        actions_view(result) == (ActionsView { title: Some(title@), ..actions_view(actions) }),
{
    actions.title(title)
}

/// `Actions::button`: appends a button.
#[verifier::external_body]
pub(crate) fn actions_button(
    actions: btcpay_plugin::ui::Actions,
    button: btcpay_plugin::ui::Button,
) -> (result: btcpay_plugin::ui::Actions)
    ensures
        actions_view(result) == (ActionsView {
            buttons: actions_view(actions).buttons.push(button_view(button)),
            ..actions_view(actions)
        }),
{
    actions.button(button)
}

/// `Button::new`: an ordinary button that asks for no confirmation.
#[verifier::external_body]
pub(crate) fn button_new(command: &str, label: &str) -> (result: btcpay_plugin::ui::Button)
    ensures
        button_view(result) == ButtonView::plain(command@, label@),
{
    btcpay_plugin::ui::Button::new(command, label)
}

/// `Button::primary`: makes the button look like the page's main action.
#[verifier::external_body]
pub(crate) fn button_primary(button: btcpay_plugin::ui::Button) -> (result:
    btcpay_plugin::ui::Button)
    ensures
        button_view(result) == button_view(button).primary(),
{
    button.primary()
}

/// `Button::destructive`: makes the button look alarming and ask this question first.
#[verifier::external_body]
pub(crate) fn button_destructive(button: btcpay_plugin::ui::Button, question: &str) -> (result:
    btcpay_plugin::ui::Button)
    ensures
        button_view(result) == button_view(button).destructive(question@),
{
    button.destructive(question)
}

/// `Button::confirm`: makes the button ask this question first.
#[verifier::external_body]
pub(crate) fn button_confirm(button: btcpay_plugin::ui::Button, question: &str) -> (result:
    btcpay_plugin::ui::Button)
    ensures
        button_view(result) == button_view(button).confirmed(question@),
{
    button.confirm(question)
}

/// `Form::new`: a form without a title or inputs, submitted by "Save".
#[verifier::external_body]
pub(crate) fn form_new(id: &str) -> (result: btcpay_plugin::ui::Form)
    ensures
        form_view(result) == (FormView {
            id: id@,
            title: None,
            fields: Seq::empty(),
            submit_label: "Save"@,
        }),
{
    btcpay_plugin::ui::Form::new(id)
}

/// `Form::title`: sets the heading above the form.
#[verifier::external_body]
pub(crate) fn form_title(form: btcpay_plugin::ui::Form, title: &str) -> (result:
    btcpay_plugin::ui::Form)
    ensures
        form_view(result) == (FormView { title: Some(title@), ..form_view(form) }),
{
    form.title(title)
}

/// `Form::submit_label`: sets the text on the submit button.
#[verifier::external_body]
pub(crate) fn form_submit_label(form: btcpay_plugin::ui::Form, label: &str) -> (result:
    btcpay_plugin::ui::Form)
    ensures
        form_view(result) == (FormView { submit_label: label@, ..form_view(form) }),
{
    form.submit_label(label)
}

/// `Form::text`: appends a single-line text input that is optional, unexplained and without a
/// value.
#[verifier::external_body]
pub(crate) fn form_text(form: btcpay_plugin::ui::Form, id: &str, label: &str) -> (result:
    btcpay_plugin::ui::Form)
    ensures
        form_view(result) == (FormView {
            fields: form_view(form).fields.push(
                FieldView {
                    id: id@,
                    label: label@,
                    help: None,
                    required: false,
                    value: None,
                    kind: FieldKindView::Text,
                },
            ),
            ..form_view(form)
        }),
{
    form.text(id, label)
}

/// `Form::number`: appends a whole-number input that is optional, unexplained, unbounded and
/// without a value.
#[verifier::external_body]
pub(crate) fn form_number(form: btcpay_plugin::ui::Form, id: &str, label: &str) -> (result:
    btcpay_plugin::ui::Form)
    ensures
        form_view(result) == (FormView {
            fields: form_view(form).fields.push(
                FieldView {
                    id: id@,
                    label: label@,
                    help: None,
                    required: false,
                    value: None,
                    kind: FieldKindView::Number { min: None, max: None },
                },
            ),
            ..form_view(form)
        }),
{
    form.number(id, label)
}

/// `Form::required`: marks the last input as required, where there is one.
#[verifier::external_body]
pub(crate) fn form_required(form: btcpay_plugin::ui::Form) -> (result: btcpay_plugin::ui::Form)
    ensures
        form_view(form).fields.len() == 0 ==> form_view(result) == form_view(form),
        form_view(form).fields.len() > 0 ==> form_view(result) == form_view(form).with_last(
            FieldView { required: true, ..form_view(form).fields.last() },
        ),
{
    form.required()
}

/// `Form::help`: explains the last input, where there is one.
#[verifier::external_body]
pub(crate) fn form_help(form: btcpay_plugin::ui::Form, help: &str) -> (result:
    btcpay_plugin::ui::Form)
    ensures
        form_view(form).fields.len() == 0 ==> form_view(result) == form_view(form),
        form_view(form).fields.len() > 0 ==> form_view(result) == form_view(form).with_last(
            FieldView { help: Some(help@), ..form_view(form).fields.last() },
        ),
{
    form.help(help)
}

/// `Form::range`: bounds the last input, where there is one and it is a number.
#[verifier::external_body]
pub(crate) fn form_range(form: btcpay_plugin::ui::Form, min: i64, max: i64) -> (result:
    btcpay_plugin::ui::Form)
    ensures
        form_view(form).fields.len() > 0 && form_view(form).fields.last().kind is Number
            ==> form_view(result) == form_view(form).with_last(
            FieldView {
                kind: FieldKindView::Number { min: Some(min), max: Some(max) },
                ..form_view(form).fields.last()
            },
        ),
        !(form_view(form).fields.len() > 0 && form_view(form).fields.last().kind is Number)
            ==> form_view(result) == form_view(form),
{
    form.range(min, max)
}

/// A row of two cells.
pub(crate) fn two_cells(a: String, b: String) -> (result: Vec<String>)
    ensures
        text::all(result@) == seq![a@, b@],
{
    let mut cells: Vec<String> = Vec::new();
    cells.push(a);
    cells.push(b);
    assert(text::all(cells@) =~= seq![a@, b@]);
    cells
}

/// A row of four cells.
pub(crate) fn four_cells(a: String, b: String, c: String, d: String) -> (result: Vec<String>)
    ensures
        text::all(result@) == seq![a@, b@, c@, d@],
{
    let mut cells: Vec<String> = Vec::new();
    cells.push(a);
    cells.push(b);
    cells.push(c);
    cells.push(d);
    assert(text::all(cells@) =~= seq![a@, b@, c@, d@]);
    cells
}

/// A row of five cells.
pub(crate) fn five_cells(a: String, b: String, c: String, d: String, e: String) -> (result: Vec<
    String,
>)
    ensures
        text::all(result@) == seq![a@, b@, c@, d@, e@],
{
    let mut cells: Vec<String> = Vec::new();
    cells.push(a);
    cells.push(b);
    cells.push(c);
    cells.push(d);
    cells.push(e);
    assert(text::all(cells@) =~= seq![a@, b@, c@, d@, e@]);
    cells
}

} // verus!
