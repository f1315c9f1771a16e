use howto_cli::extract::extract_command;

fn command(reply: &str) -> Option<String> {
    extract_command(reply)
}

#[test]
fn plain_block_yields_its_content() {
    assert_eq!(command("<command>cd ~</command>"), Some("cd ~".to_string()));
    assert_eq!(command("<command>ls -la | grep foo</command>"), Some("ls -la | grep foo".to_string()));
}

#[test]
fn surrounding_white_space_is_removed() {
    assert_eq!(command("<command>  ls -la  </command>"), Some("ls -la".to_string()));
    assert_eq!(command("<command>\ncd ~\n</command>"), Some("cd ~".to_string()));
    assert_eq!(command("<command>\r\n\t du -sh * \u{a0}\n</command>"), Some("du -sh *".to_string()));
}

#[test]
fn inner_white_space_is_kept() {
    assert_eq!(command("<command> echo  a \n b </command>"), Some("echo  a \n b".to_string()));
}

#[test]
fn text_around_the_block_is_ignored() {
    assert_eq!(
        command("Sure, here you go:\n<command>\npwd\n</command>\nAnything else?"),
        Some("pwd".to_string())
    );
}

#[test]
fn no_command_marker_gives_none() {
    assert_eq!(command("<no_command/>"), None);
    assert_eq!(command("I cannot do that.\n<no_command/>\n"), None);
}

#[test]
fn missing_tags_give_none() {
    assert_eq!(command(""), None);
    assert_eq!(command("cd ~"), None);
    assert_eq!(command("<command>cd ~"), None);
    assert_eq!(command("cd ~</command>"), None);
    assert_eq!(command("<command>cd ~</command"), None);
    assert_eq!(command("<command cd ~</command>"), None);
    assert_eq!(command("<Command>cd ~</Command>"), None);
}

#[test]
fn closing_tag_before_opening_tag_gives_none() {
    assert_eq!(command("</command>cd ~<command>"), None);
    assert_eq!(command("</command><command>"), None);
    assert_eq!(command("x</command> y <command>ls</command>"), None);
}

#[test]
fn only_the_first_tags_count() {
    assert_eq!(
        command("<command>ls</command> or <command>dir</command>"),
        Some("ls".to_string())
    );
    assert_eq!(
        command("<command>a<command>b</command>c</command>"),
        Some("a<command>b".to_string())
    );
}

#[test]
fn empty_block_gives_empty_text() {
    assert_eq!(command("<command></command>"), Some(String::new()));
    assert_eq!(command("<command> \n </command>"), Some(String::new()));
}

#[test]
fn chars_beyond_ascii_do_not_shift_the_block() {
    assert_eq!(
        command("Voil\u{e0} \u{2014} \u{4e2d}\u{6587}: <command> echo \u{e9}t\u{e9} </command> \u{1F600}"),
        Some("echo \u{e9}t\u{e9}".to_string())
    );
}

#[test]
fn extraction_agrees_with_byte_search_on_samples() {
    let samples = [
        "<command>\ncd ~\n</command>",
        "\u{4e2d}<command>x</command>",
        "<command>a</command><command>b</command>",
        "</command><command>",
        "<no_command/>",
        "<<command>> </</command>>",
    ];
    for reply in samples {
        let start = reply.find("<command>").map(|i| i + "<command>".len());
        let end = reply.find("</command>");
        let expected = match (start, end) {
            (Some(s), Some(e)) if s <= e => Some(reply[s..e].trim().to_string()),
            _ => None,
        };
        assert_eq!(command(reply), expected, "{:?}", reply);
    }
}
