//! What an agent asks of the user: a permission, or answers to questions.
use crate::key_map::KeyMap;
use crate::label::{Label, LabelView};
use crate::text::{
    concat, concat3, contains_text, copy_opt_text, decimal, decimal_text, opt_view, trim, trimmed,
    views,
};
use vstd::prelude::*;

verus! {

// ---------------------------------------------------------------------------
// Permissions
// ---------------------------------------------------------------------------
/// An answer to a request for a permission.
#[derive(Debug)]
pub struct PermissionOption {
    pub id: String,
    pub label: String,
    pub allow: bool,
}

/// A permission that an agent asks for.
#[derive(Debug)]
pub struct PendingPermission {
    pub request_id: String,
    pub title: String,
    pub detail: String,
    pub options: Vec<PermissionOption>,
}

/// A button under a request.
#[derive(Debug)]
pub struct PermissionButton {
    pub id: String,
    pub option_id: String,
    pub label: String,
    pub allow: bool,
}

/// The contents of a button under a request.
pub ghost struct ButtonView {
    pub id: Seq<char>,
    pub option_id: Seq<char>,
    pub label: Seq<char>,
    pub allow: bool,
}

impl View for PermissionButton {
    type V = ButtonView;

    open spec fn view(&self) -> ButtonView {
        ButtonView {
            id: self.id@,
            option_id: self.option_id@,
            label: self.label@,
            allow: self.allow,
        }
    }
}

/// The contents of some buttons.
pub open spec fn button_views(list: Seq<PermissionButton>) -> Seq<ButtonView> {
    Seq::new(list.len(), |i: int| list[i]@)
}

/// The buttons under a request, one for each answer.
pub open spec fn buttons_of(p: PendingPermission) -> Seq<ButtonView> {
    Seq::new(
        p.options@.len(),
        |i: int|
            ButtonView {
                id: "permission-"@ + p.request_id@ + "-"@ + p.options@[i].id@,
                option_id: p.options@[i].id@,
                label: p.options@[i].label@,
                allow: p.options@[i].allow,
            },
    )
}

fn permission_buttons(p: &PendingPermission) -> (r: Vec<PermissionButton>)
    ensures
        button_views(r@) == buttons_of(*p),
{
    let mut r: Vec<PermissionButton> = Vec::new();
    for i in 0..p.options.len()
        invariant
            r@.len() == i,
            forall|k: int| 0 <= k < i ==> (#[trigger] r@[k])@ == buttons_of(*p)[k],
    {
        let option = &p.options[i];
        let prefix = concat3("permission-", p.request_id.as_str(), "-");
        let id = concat(prefix.as_str(), option.id.as_str());
        r.push(
            PermissionButton {
                id,
                option_id: option.id.clone(),
                label: option.label.clone(),
                allow: option.allow,
            },
        );
    }
    assert(button_views(r@) =~= buttons_of(*p));
    r
}

// ---------------------------------------------------------------------------
// Questions
// ---------------------------------------------------------------------------
/// An answer that a question offers.
#[derive(Debug)]
pub struct QuestionOption {
    pub label: String,
    pub description: Option<String>,
}

/// A question of an agent.
#[derive(Debug)]
pub struct Question {
    pub id: String,
    pub header: String,
    pub question: String,
    pub options: Vec<QuestionOption>,
}

/// Questions of an agent, with the answers so far.
#[derive(Debug)]
pub struct PendingUserInput {
    pub request_id: String,
    pub questions: Vec<Question>,
    /// The question that is shown.
    pub question_index: usize,
    /// The answers that were chosen, by question.
    pub selections: KeyMap<String, Vec<String>>,
    /// The answers that were written, by question.
    pub custom_answers: KeyMap<String, String>,
}

/// An answer that is offered.
#[derive(Debug)]
pub struct AnswerRow {
    pub id: String,
    pub label: String,
    pub description: Option<String>,
    pub selected: bool,
}

/// The contents of an answer that is offered.
pub ghost struct AnswerView {
    pub id: Seq<char>,
    pub label: Seq<char>,
    pub description: Option<Seq<char>>,
    pub selected: bool,
}

impl View for AnswerRow {
    type V = AnswerView;

    open spec fn view(&self) -> AnswerView {
        AnswerView {
            id: self.id@,
            label: self.label@,
            description: opt_view(self.description),
            selected: self.selected,
        }
    }
}

/// A question as it is shown.
#[derive(Debug)]
pub struct UserInputCard {
    pub id: String,
    pub header: String,
    pub question: String,
    /// Which question of how many, where there are several.
    pub progress: Option<(usize, usize)>,
    pub answers: Vec<AnswerRow>,
    /// An answer has been written.
    pub has_custom: bool,
    /// There is an answer.
    pub can_continue: bool,
    /// The button to the question before, where there is one.
    pub back_id: Option<String>,
    pub continue_id: String,
    pub continue_label: Label,
}

/// The contents of a question as it is shown.
pub ghost struct CardView {
    pub id: Seq<char>,
    pub header: Seq<char>,
    pub question: Seq<char>,
    pub progress: Option<(usize, usize)>,
    pub answers: Seq<AnswerView>,
    pub has_custom: bool,
    pub can_continue: bool,
    pub back_id: Option<Seq<char>>,
    pub continue_id: Seq<char>,
    pub continue_label: LabelView,
}

/// The contents of some answers.
pub open spec fn answer_views(list: Seq<AnswerRow>) -> Seq<AnswerView> {
    Seq::new(list.len(), |i: int| list[i]@)
}

impl View for UserInputCard {
    type V = CardView;

    open spec fn view(&self) -> CardView {
        CardView {
            id: self.id@,
            header: self.header@,
            question: self.question@,
            progress: self.progress,
            answers: answer_views(self.answers@),
            has_custom: self.has_custom,
            can_continue: self.can_continue,
            back_id: opt_view(self.back_id),
            continue_id: self.continue_id@,
            continue_label: self.continue_label@,
        }
    }
}

/// The answers that were chosen for a question.
pub open spec fn chosen(p: PendingUserInput, question_id: Seq<char>) -> Seq<Seq<char>> {
    if p.selections@.contains_key(question_id) {
        views(p.selections@[question_id]@)
    } else {
        Seq::empty()
    }
}

/// Tells whether an answer was written to a question.
pub open spec fn wrote(p: PendingUserInput, question_id: Seq<char>) -> bool {
    p.custom_answers@.contains_key(question_id) && trimmed(p.custom_answers@[question_id]@).len()
        > 0
}

/// The name of a control of the question that is shown.
pub open spec fn control_id(p: PendingUserInput, what: Seq<char>) -> Seq<char> {
    "user-input-"@ + p.request_id@ + "-"@ + decimal(p.question_index as nat) + what
}

/// The answers that the question that is shown offers.
pub open spec fn answers_of(p: PendingUserInput) -> Seq<AnswerView> {
    let q = p.questions@[p.question_index as int];
    Seq::new(
        q.options@.len(),
        |i: int|
            AnswerView {
                id: control_id(p, "-option-"@ + decimal(i as nat)),
                label: q.options@[i].label@,
                description: opt_view(q.options@[i].description),
                selected: chosen(p, q.id@).contains(q.options@[i].label@),
            },
    )
}

/// The question that is shown, as it is shown.
pub open spec fn card_of(p: PendingUserInput) -> CardView {
    let q = p.questions@[p.question_index as int];
    let last = p.question_index + 1 == p.questions@.len();
    CardView {
        id: "user-input-"@ + p.request_id@,
        header: q.header@,
        question: q.question@,
        progress: if p.questions@.len() > 1 {
            Some(((p.question_index + 1) as usize, p.questions@.len() as usize))
        } else {
            None
        },
        answers: answers_of(p),
        has_custom: wrote(p, q.id@),
        can_continue: wrote(p, q.id@) || chosen(p, q.id@).len() > 0,
        back_id: if p.question_index > 0 {
            Some(control_id(p, "-back"@))
        } else {
            None
        },
        continue_id: control_id(p, "-continue"@),
        continue_label: LabelView::Message(
            if last {
                "user_input.submit"@
            } else {
                "user_input.next"@
            },
        ),
    }
}

fn name_control(p: &PendingUserInput, what: &str) -> (r: String)
    ensures
        r@ == control_id(*p, what@),
{
    let prefix = concat3("user-input-", p.request_id.as_str(), "-");
    concat3(prefix.as_str(), decimal_text(p.question_index as u64).as_str(), what)
}

fn question_answers(p: &PendingUserInput) -> (r: Vec<AnswerRow>)
    requires
        p.question_index < p.questions@.len(),
    ensures
        answer_views(r@) == answers_of(*p),
{
    let q = &p.questions[p.question_index];
    let selected = p.selections.get(&q.id);
    let mut r: Vec<AnswerRow> = Vec::new();
    for i in 0..q.options.len()
        invariant
            p.question_index < p.questions@.len(),
            *q == p.questions@[p.question_index as int],
            match selected {
                Some(list) => chosen(*p, q.id@) == views(list@),
                None => chosen(*p, q.id@).len() == 0,
            },
            r@.len() == i,
            forall|k: int| 0 <= k < i ==> (#[trigger] r@[k])@ == answers_of(*p)[k],
    {
        let option = &q.options[i];
        let is_selected = match selected {
            Some(list) => contains_text(list.as_slice(), option.label.as_str()),
            None => false,
        };
        let what = concat("-option-", decimal_text(i as u64).as_str());
        r.push(
            AnswerRow {
                id: name_control(p, what.as_str()),
                label: option.label.clone(),
                description: copy_opt_text(&option.description),
                selected: is_selected,
            },
        );
    }
    assert(answer_views(r@) =~= answers_of(*p));
    r
}

/// The question that is shown, as it is shown. `None` where there is no such question.
pub fn render_user_input(p: &PendingUserInput) -> (r: Option<UserInputCard>)
    ensures
        r is Some <==> p.question_index < p.questions@.len(),
        r is Some ==> r->0@ == card_of(*p),
{
    if p.question_index >= p.questions.len() {
        return None;
    }
    let q = &p.questions[p.question_index];
    let has_choice = match p.selections.get(&q.id) {
        Some(list) => list.len() > 0,
        None => false,
    };
    let has_custom = match p.custom_answers.get(&q.id) {
        Some(text) => !trim(text.as_str()).as_str().is_empty(),
        None => false,
    };
    let last = p.question_index + 1 == p.questions.len();
    let progress: Option<(usize, usize)> = if p.questions.len() > 1 {
        Some((p.question_index + 1, p.questions.len()))
    } else {
        None
    };
    let back_id = if p.question_index > 0 {
        Some(name_control(p, "-back"))
    } else {
        None
    };
    let answers = question_answers(p);
    let card = UserInputCard {
        id: concat("user-input-", p.request_id.as_str()),
        header: q.header.clone(),
        question: q.question.clone(),
        progress,
        answers,
        has_custom,
        can_continue: has_custom || has_choice,
        back_id,
        continue_id: name_control(p, "-continue"),
        continue_label: Label::Message(
            if last {
                "user_input.submit"
            } else {
                "user_input.next"
            },
        ),
    };
    Some(card)
}

/// What an agent asks, as it is shown.
#[derive(Debug)]
pub enum RequestCard {
    /// A question; nothing is shown where there is none left.
    Question(Option<UserInputCard>),
    Permission { title: String, detail: String, buttons: Vec<PermissionButton> },
}

/// What an agent asks, as it is shown: questions come before a permission.
pub fn render_permission(
    input: &Option<PendingUserInput>,
    permission: &Option<PendingPermission>,
) -> (r: Option<RequestCard>)
    ensures
        match (*input, *permission) {
            (Some(p), _) => r is Some && r->0 is Question && ((r->0)->Question_0 is Some
                <==> p.question_index < p.questions@.len()) && ((r->0)->Question_0 is Some ==> (
            r->0)->Question_0->0@ == card_of(p)),
            (None, Some(p)) => r is Some && r->0 is Permission && (r->0)->title@ == p.title@ && (
            r->0)->detail@ == p.detail@ && button_views((r->0)->buttons@) == buttons_of(p),
            (None, None) => r is None,
        },
{
    if let Some(p) = input {
        return Some(RequestCard::Question(render_user_input(p)));
    }
    match permission {
        Some(p) => Some(
            RequestCard::Permission {
                title: p.title.clone(),
                detail: p.detail.clone(),
                buttons: permission_buttons(p),
            },
        ),
        None => None,
    }
}

// ---------------------------------------------------------------------------
// Laws
// ---------------------------------------------------------------------------
/// A question can be left for the next one exactly where it has an answer: one that was chosen, or one
/// that was written.
pub proof fn questions_want_an_answer(p: PendingUserInput)
    requires
        p.question_index < p.questions@.len(),
    ensures
        card_of(p).can_continue <==> card_of(p).has_custom || chosen(
            p,
            p.questions@[p.question_index as int].id@,
        ).len() > 0,
        card_of(p).answers.len() == p.questions@[p.question_index as int].options@.len(),
{
}

} // verus!
