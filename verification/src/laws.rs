//! Laws of the transition relation and of rendering.
//!
//! Each proof function states one property of [`crate::state::spec_update`]
//! or [`crate::render::spec_render`] for every state and every input, and
//! Verus proves it. The executable `update` and `render` are pinned to
//! those spec functions by their contracts, so the laws carry over to
//! every run of the program.

use vstd::prelude::*;

use crate::render::{spec_render, WidgetView};
use crate::state::{error_message, spec_update, MessageView, UserListView, UserView};

verus! {

/// Toggling the form is an involution: two toggles restore the state
/// exactly, and a single toggle changes nothing but `show_form` — the
/// roster, both input buffers and the error are left as they were.
pub proof fn lemma_toggle_involution(s: UserListView)
    ensures
        spec_update(spec_update(s, MessageView::ShowFormClicked), MessageView::ShowFormClicked)
            == s,
        spec_update(s, MessageView::ShowFormClicked).users == s.users,
        spec_update(s, MessageView::ShowFormClicked).username_input_value
            == s.username_input_value,
        spec_update(s, MessageView::ShowFormClicked).password_input_value
            == s.password_input_value,
        spec_update(s, MessageView::ShowFormClicked).error == s.error,
{
    assert(spec_update(
        spec_update(s, MessageView::ShowFormClicked),
        MessageView::ShowFormClicked,
    ) =~= s);
}

/// Submitting after entering a username and a password that differ
/// appends exactly that one user to the roster, clears both input
/// buffers, clears the error, and hides the form — whatever the state
/// was before.
pub proof fn lemma_submit_accepts_distinct(s: UserListView, u: Seq<char>, p: Seq<char>)
    requires
        u != p,
    ensures
        ({
            let after = spec_update(
                spec_update(
                    spec_update(s, MessageView::UsernameChanged(u)),
                    MessageView::PasswordChanged(p),
                ),
                MessageView::SaveNewUser,
            );
            &&& after.users == s.users.push(UserView { username: u, password: p })
            &&& after.username_input_value == Seq::<char>::empty()
            &&& after.password_input_value == Seq::<char>::empty()
            &&& after.error is None
            &&& !after.show_form
        }),
{
}

/// Submitting after entering a username and a password that are equal
/// (both empty included) records the error and changes nothing else:
/// the roster, both input buffers and `show_form` keep the values they
/// had at the moment of submission.
pub proof fn lemma_submit_rejects_equal(s: UserListView, u: Seq<char>, p: Seq<char>)
    requires
        u == p,
    ensures
        ({
            let entered = spec_update(
                spec_update(s, MessageView::UsernameChanged(u)),
                MessageView::PasswordChanged(p),
            );
            let after = spec_update(entered, MessageView::SaveNewUser);
            &&& after.users == s.users
            &&& after.username_input_value == u
            &&& after.password_input_value == p
            &&& after.error == Some(error_message())
            &&& after.show_form == s.show_form
        }),
{
}

/// Rendering is a function of the state alone: any two widget lists
/// rendered from the same state are structurally identical.
pub proof fn lemma_render_deterministic(s: UserListView, t1: Seq<WidgetView>, t2: Seq<WidgetView>)
    requires
        t1 == spec_render(s),
        t2 == spec_render(s),
    ensures
        t1 == t2,
{
}

} // verus!
