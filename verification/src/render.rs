//! Rendering the state as a declarative widget list.
//!
//! [`UserList::render`] is a pure function of the state. It returns the
//! widgets in the order the host runtime should lay them out, top to
//! bottom: the toggle control first, then either the form (with the
//! error text appended last, when present) or one roster line per
//! user, passwords masked one `*` per character.

use vstd::prelude::*;
use vstd::string::StrSliceExecFns;
use vstd::string::StringExecFns;

use crate::state::{User, UserList, UserListView, UserView};

verus! {

/// One widget of the declarative tree [`UserList::render`] returns.
///
/// Each interactive widget stands for a fixed intent: activating the
/// toggle control emits [`crate::state::Message::ShowFormClicked`],
/// edits of the two input fields emit
/// [`crate::state::Message::UsernameChanged`] and
/// [`crate::state::Message::PasswordChanged`] with the new text, and
/// the submit control emits [`crate::state::Message::SaveNewUser`].
#[derive(Debug, Clone, PartialEq, Eq)]
pub enum Widget {
    /// The always-present control that shows or hides the form.
    ToggleButton { label: String },
    /// The text-entry field bound to the username buffer.
    UsernameInput { placeholder: String, value: String },
    /// The text-entry field bound to the password buffer.
    PasswordInput { placeholder: String, value: String },
    /// The control that submits the form.
    SubmitButton { label: String },
    /// One roster line, `"{username} / {mask}"`.
    UserLine { content: String },
    /// The validation error, styled in an alert color.
    ErrorText { content: String },
}

/// Mathematical model of a [`Widget`].
#[verifier::ext_equal]
pub enum WidgetView {
    ToggleButton { label: Seq<char> },
    UsernameInput { placeholder: Seq<char>, value: Seq<char> },
    PasswordInput { placeholder: Seq<char>, value: Seq<char> },
    SubmitButton { label: Seq<char> },
    UserLine { content: Seq<char> },
    ErrorText { content: Seq<char> },
}

impl View for Widget {
    type V = WidgetView;

    open spec fn view(&self) -> WidgetView {
        match self {
            Widget::ToggleButton { label } => WidgetView::ToggleButton { label: label@ },
            Widget::UsernameInput { placeholder, value } => WidgetView::UsernameInput {
                placeholder: placeholder@,
                value: value@,
            },
            Widget::PasswordInput { placeholder, value } => WidgetView::PasswordInput {
                placeholder: placeholder@,
                value: value@,
            },
            Widget::SubmitButton { label } => WidgetView::SubmitButton { label: label@ },
            Widget::UserLine { content } => WidgetView::UserLine { content: content@ },
            Widget::ErrorText { content } => WidgetView::ErrorText { content: content@ },
        }
    }
}

/// The model of a widget list: each widget's model, in order.
pub open spec fn widgets_view(ws: Seq<Widget>) -> Seq<WidgetView> {
    Seq::new(ws.len(), |i: int| ws[i]@)
}

/// A password mask: `n` copies of `*`.
pub open spec fn mask_of(n: nat) -> Seq<char> {
    Seq::new(n, |i: int| '*')
}

/// A roster line: the username, a separator, and the password mask.
pub open spec fn roster_line(u: UserView) -> Seq<char> {
    u.username + " / "@ + mask_of(u.password.len())
}

/// What rendering a state produces: the toggle control first; then,
/// with the form shown, the two input fields, the submit control, and
/// the error text last when one is recorded; with the form hidden, one
/// line per roster entry, in insertion order.
pub open spec fn spec_render(s: UserListView) -> Seq<WidgetView> {
    seq![WidgetView::ToggleButton { label: "Add user"@ }] + if s.show_form {
        let form = seq![
            WidgetView::UsernameInput {
                placeholder: "Username"@,
                value: s.username_input_value,
            },
            WidgetView::PasswordInput {
                placeholder: "Password"@,
                value: s.password_input_value,
            },
            WidgetView::SubmitButton { label: "add user"@ },
        ];
        match s.error {
            Some(e) => form.push(WidgetView::ErrorText { content: e }),
            None => form,
        }
    } else {
        Seq::new(s.users.len(), |i: int| WidgetView::UserLine { content: roster_line(s.users[i]) })
    }
}

/// The model of a widget list grows elementwise with the list.
proof fn lemma_widgets_view_push(ws: Seq<Widget>, w: Widget)
    ensures
        widgets_view(ws.push(w)) == widgets_view(ws).push(w@),
{
    assert(widgets_view(ws.push(w)) =~= widgets_view(ws).push(w@));
}

/// Appending one `*` lengthens a mask by one.
proof fn lemma_mask_step(n: nat)
    ensures
        mask_of(n) + "*"@ == mask_of(n + 1),
{
    reveal_strlit("*");
    assert(mask_of(n) + "*"@ =~= mask_of(n + 1));
}

/// Render one roster entry as `"{username} / {mask}"`, the mask one
/// `*` per password character.
fn roster_line_exec(u: &User) -> (r: String)
    ensures
        r@ == roster_line(u@),
{
    let mut s = u.username.clone();
    s.append(" / ");
    let n = u.password.as_str().unicode_len();
    let mut i: usize = 0;
    while i < n
        invariant
            i <= n,
            n == u.password@.len(),
            s@ == u.username@ + " / "@ + mask_of(i as nat),
        decreases n - i,
    {
        s.append("*");
        proof {
            lemma_mask_step(i as nat);
            assert(s@ =~= u.username@ + " / "@ + mask_of((i + 1) as nat));
        }
        i = i + 1;
    }
    s
}

impl UserList {
    /// Render the state as the widget list [`spec_render`] describes.
    /// Pure: the state is not changed, and the result is a function of
    /// the state alone.
    pub fn render(&self) -> (r: Vec<Widget>)
        ensures
            widgets_view(r@) == spec_render(self@),
    {
        let mut out: Vec<Widget> = Vec::new();
        out.push(Widget::ToggleButton { label: String::from_str("Add user") });
        if self.show_form {
            out.push(
                Widget::UsernameInput {
                    placeholder: String::from_str("Username"),
                    value: self.username_input_value.clone(),
                },
            );
            out.push(
                Widget::PasswordInput {
                    placeholder: String::from_str("Password"),
                    value: self.password_input_value.clone(),
                },
            );
            out.push(Widget::SubmitButton { label: String::from_str("add user") });
            match &self.error {
                Some(e) => out.push(Widget::ErrorText { content: e.clone() }),
                None => {},
            }
            proof {
                assert(widgets_view(out@) =~= spec_render(self@));
            }
        } else {
            let ghost prefix = seq![WidgetView::ToggleButton { label: "Add user"@ }];
            let mut i: usize = 0;
            while i < self.users.len()
                invariant
                    i <= self.users.len(),
                    prefix == seq![WidgetView::ToggleButton { label: "Add user"@ }],
                    widgets_view(out@) =~= prefix + Seq::new(
                        i as nat,
                        |j: int| WidgetView::UserLine { content: roster_line(self@.users[j]) },
                    ),
                decreases self.users.len() - i,
            {
                let ghost prev = out@;
                let line = roster_line_exec(&self.users[i]);
                let w = Widget::UserLine { content: line };
                out.push(w);
                proof {
                    lemma_widgets_view_push(prev, w);
                    assert(w@ == WidgetView::UserLine {
                        content: roster_line(self@.users[i as int]),
                    });
                    assert(widgets_view(out@) =~= prefix + Seq::new(
                        (i + 1) as nat,
                        |j: int| WidgetView::UserLine { content: roster_line(self@.users[j]) },
                    ));
                }
                i = i + 1;
            }
            proof {
                assert(widgets_view(out@) =~= spec_render(self@));
            }
        }
        out
    }
}

} // verus!
