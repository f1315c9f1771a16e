use howto_cli::prompt::{
    build_prompt, system_message, user_message, Role, MAX_TOKENS, MODEL, SYSTEM_MESSAGE,
};

#[test]
fn user_message_wraps_the_action() {
    let m = user_message("go to my home directory");
    assert_eq!(m.role, Role::User);
    assert_eq!(m.content, "<action>\ngo to my home directory\n</action>");
}

#[test]
fn user_message_trims_the_action() {
    assert_eq!(user_message("  list files \n").content, "<action>\nlist files\n</action>");
}

#[test]
fn user_message_passes_any_action_through() {
    assert_eq!(user_message("").content, "<action>\n\n</action>");
    assert_eq!(user_message("a\nb\u{7}c").content, "<action>\na\nb\u{7}c\n</action>");
    assert_eq!(user_message("</action>").content, "<action>\n</action>\n</action>");
}

#[test]
fn system_message_is_the_fixed_instruction() {
    let m = system_message();
    assert_eq!(m.role, Role::System);
    assert_eq!(m.content, SYSTEM_MESSAGE);
    assert_eq!(system_message(), m);
}

#[test]
fn system_message_shows_the_format() {
    assert!(SYSTEM_MESSAGE.starts_with("\nYou are an expert Unix system operator."));
    assert!(SYSTEM_MESSAGE.contains("<action>\ngo to my home directory\n</action>"));
    assert!(SYSTEM_MESSAGE.contains("<command>\ncd ~\n</command>"));
    assert!(SYSTEM_MESSAGE.ends_with("you must respond with:\n<no_command/>\n"));
    assert_eq!(SYSTEM_MESSAGE.len(), 439);
}

#[test]
fn prompt_has_the_fixed_parameters_and_two_messages() {
    let p = build_prompt(" delete all files on the internet ");
    assert_eq!(p.model, "gpt-4o-2024-08-06");
    assert_eq!(p.model, MODEL);
    assert_eq!(p.max_tokens, 1024);
    assert_eq!(p.max_tokens, MAX_TOKENS);
    assert_eq!(p.messages.len(), 2);
    assert_eq!(p.messages[0], system_message());
    assert_eq!(p.messages[1].role, Role::User);
    assert_eq!(
        p.messages[1].content,
        "<action>\ndelete all files on the internet\n</action>"
    );
}

#[test]
fn prompt_differs_only_in_the_action() {
    let p = build_prompt("a");
    let q = build_prompt("b");
    assert_eq!(p.model, q.model);
    assert_eq!(p.max_tokens, q.max_tokens);
    assert_eq!(p.messages[0], q.messages[0]);
    assert_ne!(p.messages[1], q.messages[1]);
    assert_eq!(build_prompt(" a "), p);
}
