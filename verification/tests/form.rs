use user_list_form::render::Widget;
use user_list_form::state::{Message, User, UserList};

fn toggle(s: &mut UserList) {
    s.update(Message::ShowFormClicked);
}

fn set_username(s: &mut UserList, v: &str) {
    s.update(Message::UsernameChanged(v.to_string()));
}

fn set_password(s: &mut UserList, v: &str) {
    s.update(Message::PasswordChanged(v.to_string()));
}

fn submit(s: &mut UserList) {
    s.update(Message::SaveNewUser);
}

#[test]
fn default_state_is_empty() {
    let s = UserList::new();
    assert_eq!(s.show_form, false);
    assert!(s.users.is_empty());
    assert_eq!(s.username_input_value, "");
    assert_eq!(s.password_input_value, "");
    assert_eq!(s.error, None);
}

#[test]
fn title_is_constant() {
    let s = UserList::new();
    assert_eq!(s.title(), "User list with form validation popup");
}

#[test]
fn toggle_twice_restores_state() {
    let mut s = UserList::new();
    set_username(&mut s, "carol");
    set_password(&mut s, "pw");
    let before = s.clone();
    toggle(&mut s);
    assert_eq!(s.show_form, true);
    assert_eq!(s.users, before.users);
    assert_eq!(s.username_input_value, before.username_input_value);
    assert_eq!(s.password_input_value, before.password_input_value);
    assert_eq!(s.error, before.error);
    toggle(&mut s);
    assert_eq!(s, before);
}

#[test]
fn submit_distinct_appends_and_closes() {
    let mut s = UserList::new();
    toggle(&mut s);
    set_username(&mut s, "carol");
    set_password(&mut s, "pw");
    submit(&mut s);
    assert_eq!(
        s.users,
        vec![User { username: "carol".to_string(), password: "pw".to_string() }]
    );
    assert_eq!(s.username_input_value, "");
    assert_eq!(s.password_input_value, "");
    assert_eq!(s.error, None);
    assert_eq!(s.show_form, false);
}

#[test]
fn submit_equal_records_error_and_keeps_state() {
    let mut s = UserList::new();
    toggle(&mut s);
    set_username(&mut s, "same");
    set_password(&mut s, "same");
    submit(&mut s);
    assert!(s.users.is_empty());
    assert_eq!(s.username_input_value, "same");
    assert_eq!(s.password_input_value, "same");
    assert_eq!(
        s.error,
        Some("username and password cannot be the same".to_string())
    );
    assert_eq!(s.show_form, true);
}

#[test]
fn submit_empty_fields_is_rejected() {
    let mut s = UserList::new();
    toggle(&mut s);
    submit(&mut s);
    assert!(s.users.is_empty());
    assert_eq!(s.username_input_value, "");
    assert_eq!(s.password_input_value, "");
    assert_eq!(
        s.error,
        Some("username and password cannot be the same".to_string())
    );
    assert_eq!(s.show_form, true);
}

#[test]
fn closed_state_renders_masked_roster() {
    let s = UserList {
        show_form: false,
        users: vec![
            User { username: "alice".to_string(), password: "secret".to_string() },
            User { username: "bob".to_string(), password: "x".to_string() },
        ],
        username_input_value: String::new(),
        password_input_value: String::new(),
        error: None,
    };
    let widgets = s.render();
    assert_eq!(
        widgets,
        vec![
            Widget::ToggleButton { label: "Add user".to_string() },
            Widget::UserLine { content: "alice / ******".to_string() },
            Widget::UserLine { content: "bob / *".to_string() },
        ]
    );
}

#[test]
fn empty_password_renders_empty_mask() {
    let s = UserList {
        show_form: false,
        users: vec![User { username: "carol".to_string(), password: String::new() }],
        username_input_value: String::new(),
        password_input_value: String::new(),
        error: None,
    };
    let widgets = s.render();
    assert_eq!(
        widgets,
        vec![
            Widget::ToggleButton { label: "Add user".to_string() },
            Widget::UserLine { content: "carol / ".to_string() },
        ]
    );
}

#[test]
fn open_form_renders_inputs_and_error_last() {
    let mut s = UserList::new();
    toggle(&mut s);
    set_username(&mut s, "a");
    set_password(&mut s, "a");
    submit(&mut s);
    let widgets = s.render();
    assert_eq!(
        widgets,
        vec![
            Widget::ToggleButton { label: "Add user".to_string() },
            Widget::UsernameInput { placeholder: "Username".to_string(), value: "a".to_string() },
            Widget::PasswordInput { placeholder: "Password".to_string(), value: "a".to_string() },
            Widget::SubmitButton { label: "add user".to_string() },
            Widget::ErrorText {
                content: "username and password cannot be the same".to_string(),
            },
        ]
    );
}

#[test]
fn open_form_without_error_has_no_error_text() {
    let mut s = UserList::new();
    toggle(&mut s);
    set_username(&mut s, "a");
    set_password(&mut s, "b");
    let widgets = s.render();
    assert_eq!(
        widgets,
        vec![
            Widget::ToggleButton { label: "Add user".to_string() },
            Widget::UsernameInput { placeholder: "Username".to_string(), value: "a".to_string() },
            Widget::PasswordInput { placeholder: "Password".to_string(), value: "b".to_string() },
            Widget::SubmitButton { label: "add user".to_string() },
        ]
    );
}

#[test]
fn failed_then_corrected_submission() {
    let mut s = UserList::new();
    toggle(&mut s);
    set_username(&mut s, "a");
    set_password(&mut s, "a");
    submit(&mut s);
    assert!(s.error.is_some());
    assert!(s.users.is_empty());
    assert_eq!(s.show_form, true);
    assert_eq!(s.username_input_value, "a");
    assert_eq!(s.password_input_value, "a");

    set_password(&mut s, "b");
    submit(&mut s);
    assert_eq!(s.error, None);
    assert_eq!(
        s.users,
        vec![User { username: "a".to_string(), password: "b".to_string() }]
    );
    assert_eq!(s.show_form, false);
    assert_eq!(s.username_input_value, "");
    assert_eq!(s.password_input_value, "");
}

#[test]
fn render_is_deterministic() {
    let mut s = UserList::new();
    set_username(&mut s, "alice");
    set_password(&mut s, "secret");
    submit(&mut s);
    toggle(&mut s);
    let first = s.render();
    let second = s.render();
    assert_eq!(first, second);
}

#[test]
fn duplicate_users_are_permitted() {
    let mut s = UserList::new();
    for _ in 0..2 {
        set_username(&mut s, "dora");
        set_password(&mut s, "pw");
        submit(&mut s);
    }
    assert_eq!(s.users.len(), 2);
    assert_eq!(s.users[0], s.users[1]);
}

#[test]
fn edits_leave_a_recorded_error_in_place() {
    let mut s = UserList::new();
    toggle(&mut s);
    set_username(&mut s, "x");
    set_password(&mut s, "x");
    submit(&mut s);
    assert!(s.error.is_some());
    set_password(&mut s, "y");
    assert!(s.error.is_some());
    toggle(&mut s);
    assert!(s.error.is_some());
}
