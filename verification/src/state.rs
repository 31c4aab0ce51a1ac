//! Application state and the event-handling step.
//!
//! [`UserList`] is the root state: whether the form is shown, the
//! roster of submitted users, the two input buffers, and the optional
//! validation error. [`UserList::update`] consumes one [`Message`] and
//! performs a single atomic transition, specified by [`spec_update`].

use vstd::prelude::*;
use vstd::string::StringExecFns;

verus! {

/// A submitted user. Immutable once created; owned by the roster.
#[derive(Debug, Clone, PartialEq, Eq)]
pub struct User {
    pub username: String,
    pub password: String,
}

/// Mathematical model of a [`User`]: both fields as character sequences.
#[verifier::ext_equal]
pub struct UserView {
    pub username: Seq<char>,
    pub password: Seq<char>,
}

impl View for User {
    type V = UserView;

    open spec fn view(&self) -> UserView {
        UserView { username: self.username@, password: self.password@ }
    }
}

/// The root application state.
#[derive(Debug, Clone, PartialEq, Eq)]
pub struct UserList {
    /// Whether the input form (rather than the roster) is shown.
    pub show_form: bool,
    /// The roster of submitted users, in insertion order; duplicates allowed.
    pub users: Vec<User>,
    /// Transient input buffer for the username field.
    pub username_input_value: String,
    /// Transient input buffer for the password field.
    pub password_input_value: String,
    /// Set immediately after a failed submission, cleared by the next
    /// successful one; other transitions leave it as it is.
    pub error: Option<String>,
}

/// Mathematical model of the root state.
#[verifier::ext_equal]
pub struct UserListView {
    pub show_form: bool,
    pub users: Seq<UserView>,
    pub username_input_value: Seq<char>,
    pub password_input_value: Seq<char>,
    pub error: Option<Seq<char>>,
}

impl View for UserList {
    type V = UserListView;

    open spec fn view(&self) -> UserListView {
        UserListView {
            show_form: self.show_form,
            users: Seq::new(self.users@.len(), |i: int| self.users@[i]@),
            username_input_value: self.username_input_value@,
            password_input_value: self.password_input_value@,
            error: match self.error {
                Some(e) => Some(e@),
                None => None,
            },
        }
    }
}

/// One user-interaction event, dispatched by the host runtime.
#[derive(Debug, Clone)]
pub enum Message {
    /// The toggle control was activated.
    ShowFormClicked,
    /// The username field now holds the given text.
    UsernameChanged(String),
    /// The password field now holds the given text.
    PasswordChanged(String),
    /// The submit control was activated.
    SaveNewUser,
}

/// Mathematical model of a [`Message`].
pub enum MessageView {
    ShowFormClicked,
    UsernameChanged(Seq<char>),
    PasswordChanged(Seq<char>),
    SaveNewUser,
}

impl View for Message {
    type V = MessageView;

    open spec fn view(&self) -> MessageView {
        match self {
            Message::ShowFormClicked => MessageView::ShowFormClicked,
            Message::UsernameChanged(v) => MessageView::UsernameChanged(v@),
            Message::PasswordChanged(v) => MessageView::PasswordChanged(v@),
            Message::SaveNewUser => MessageView::SaveNewUser,
        }
    }
}

/// The one validation message, shown when username and password match.
pub open spec fn error_message() -> Seq<char> {
    "username and password cannot be the same"@
}

/// The state every run starts from: form hidden, roster empty, both
/// buffers empty, no error.
pub open spec fn spec_default() -> UserListView {
    UserListView {
        show_form: false,
        users: Seq::empty(),
        username_input_value: Seq::empty(),
        password_input_value: Seq::empty(),
        error: None,
    }
}

/// The full transition relation, one atomic step per message.
///
/// A submission with equal username and password (empty included) only
/// records the error; any other submission appends the candidate user,
/// clears both buffers and the error, and hides the form. Field edits
/// and the toggle touch nothing else: in particular they leave a
/// previously recorded error in place until the next submission.
pub open spec fn spec_update(s: UserListView, m: MessageView) -> UserListView {
    match m {
        MessageView::ShowFormClicked => UserListView { show_form: !s.show_form, ..s },
        MessageView::UsernameChanged(v) => UserListView { username_input_value: v, ..s },
        MessageView::PasswordChanged(v) => UserListView { password_input_value: v, ..s },
        MessageView::SaveNewUser => {
            if s.username_input_value == s.password_input_value {
                UserListView { error: Some(error_message()), ..s }
            } else {
                UserListView {
                    show_form: false,
                    users: s.users.push(
                        UserView {
                            username: s.username_input_value,
                            password: s.password_input_value,
                        },
                    ),
                    username_input_value: Seq::empty(),
                    password_input_value: Seq::empty(),
                    error: None,
                }
            }
        },
    }
}

impl UserList {
    /// The initial state, all fields at their defaults.
    pub fn new() -> (r: UserList)
        ensures
            r@ == spec_default(),
    {
        let r = UserList {
            show_form: false,
            users: Vec::new(),
            username_input_value: String::new(),
            password_input_value: String::new(),
            error: None,
        };
        proof {
            assert(r@ =~= spec_default());
        }
        r
    }

    /// The constant window title.
    pub fn title(&self) -> (r: String)
        ensures
            r@ == "User list with form validation popup"@,
    {
        String::from_str("User list with form validation popup")
    }

    /// Consume one message and perform the transition [`spec_update`]
    /// describes, atomically: either fully committed or fully rejected.
    pub fn update(&mut self, message: Message)
        ensures
            final(self)@ == spec_update(old(self)@, message@),
    {
        match message {
            Message::ShowFormClicked => {
                self.show_form = !self.show_form;
                proof {
                    assert(self@ =~= spec_update(old(self)@, message@));
                }
            },
            Message::UsernameChanged(v) => {
                self.username_input_value = v;
                proof {
                    assert(self@ =~= spec_update(old(self)@, message@));
                }
            },
            Message::PasswordChanged(v) => {
                self.password_input_value = v;
                proof {
                    assert(self@ =~= spec_update(old(self)@, message@));
                }
            },
            Message::SaveNewUser => {
                if self.username_input_value == self.password_input_value {
                    self.error = Some(
                        String::from_str("username and password cannot be the same"),
                    );
                    proof {
                        assert(self@ =~= spec_update(old(self)@, message@));
                    }
                } else {
                    let user = User {
                        username: self.username_input_value.clone(),
                        password: self.password_input_value.clone(),
                    };
                    self.users.push(user);
                    self.username_input_value = String::new();
                    self.password_input_value = String::new();
                    self.show_form = false;
                    self.error = None;
                    proof {
                        assert(self@.users =~= spec_update(old(self)@, message@).users);
                        assert(self@ =~= spec_update(old(self)@, message@));
                    }
                }
            },
        }
    }
}

} // verus!
