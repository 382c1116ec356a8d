use fade_display::command::{
    command_arguments, environment_entries, environment_entry, CommandSpec,
};

fn strings(texts: &[&str]) -> Vec<String> {
    texts.iter().map(|text| text.to_string()).collect()
}

fn pairs(texts: &[(&str, &str)]) -> Vec<(String, String)> {
    texts.iter().map(|(key, value)| (key.to_string(), value.to_string())).collect()
}

#[test]
fn program_name_is_dropped() {
    assert_eq!(command_arguments(strings(&["fade-display", "swaylock", "-f"])), strings(&["swaylock", "-f"]));
}

#[test]
fn leading_separator_is_stripped() {
    assert_eq!(
        command_arguments(strings(&["fade-display", "--", "swaylock", "-f"])),
        strings(&["swaylock", "-f"])
    );
}

#[test]
fn separator_in_the_middle_is_stripped() {
    assert_eq!(
        command_arguments(strings(&["fade-display", "swaylock", "--", "-f"])),
        strings(&["swaylock", "-f"])
    );
}

#[test]
fn separator_at_the_end_is_stripped() {
    assert_eq!(command_arguments(strings(&["fade-display", "true", "--"])), strings(&["true"]));
}

#[test]
fn only_the_first_separator_is_stripped() {
    assert_eq!(
        command_arguments(strings(&["fade-display", "--", "env", "--", "true", "--"])),
        strings(&["env", "--", "true", "--"])
    );
}

#[test]
fn program_name_that_reads_like_a_separator_is_not_the_separator() {
    assert_eq!(command_arguments(strings(&["--", "--", "true"])), strings(&["true"]));
    assert_eq!(command_arguments(strings(&["--", "true"])), strings(&["true"]));
}

#[test]
fn tokens_that_only_look_like_the_separator_stay() {
    assert_eq!(
        command_arguments(strings(&["fade-display", "-", "---", "--x", " --", ""])),
        strings(&["-", "---", "--x", " --", ""])
    );
}

#[test]
fn no_arguments_give_no_command() {
    assert_eq!(command_arguments(Vec::new()), Vec::<String>::new());
    assert_eq!(command_arguments(strings(&["fade-display"])), Vec::<String>::new());
    assert_eq!(command_arguments(strings(&["fade-display", "--"])), Vec::<String>::new());
}

#[test]
fn environment_entry_joins_with_equals_sign() {
    assert_eq!(environment_entry(&"HOME".to_string(), &"/root".to_string()), "HOME=/root");
}

#[test]
fn environment_entry_keeps_value_unmodified() {
    assert_eq!(environment_entry(&"EMPTY".to_string(), &String::new()), "EMPTY=");
    assert_eq!(environment_entry(&"A".to_string(), &"b=c d".to_string()), "A=b=c d");
    assert_eq!(
        environment_entry(&"GREETING".to_string(), &"gr\u{fc}\u{df} dich\n".to_string()),
        "GREETING=gr\u{fc}\u{df} dich\n"
    );
}

#[test]
fn environment_entries_keep_every_variable_in_order() {
    let variables = pairs(&[("PATH", "/usr/bin:/bin"), ("FADE_TEST", "1"), ("LANG", "C")]);
    assert_eq!(
        environment_entries(&variables),
        strings(&["PATH=/usr/bin:/bin", "FADE_TEST=1", "LANG=C"])
    );
    assert_eq!(environment_entries(&Vec::new()), Vec::<String>::new());
}

#[test]
fn command_spec_holds_what_it_was_given() {
    let command = CommandSpec::new(strings(&["false"]), strings(&["A=1"]));
    assert_eq!(command.argv(), &strings(&["false"]));
    assert_eq!(command.env(), &strings(&["A=1"]));
    assert!(!command.is_empty());
    assert_eq!(command.program(), Some(&"false".to_string()));
}

#[test]
fn command_spec_new_does_not_strip() {
    let command = CommandSpec::new(strings(&["--", "true"]), Vec::new());
    assert_eq!(command.argv(), &strings(&["--", "true"]));
}

#[test]
fn empty_command_spec_has_no_program() {
    let command = CommandSpec::new(Vec::new(), strings(&["A=1"]));
    assert!(command.is_empty());
    assert_eq!(command.program(), None);
}

#[test]
fn command_spec_from_command_line() {
    let command = CommandSpec::from_command_line(
        strings(&["fade-display", "--", "sh", "-c", "echo $FADE_TEST"]),
        &pairs(&[("FADE_TEST", "observed"), ("HOME", "/root")]),
    );
    assert_eq!(command.argv(), &strings(&["sh", "-c", "echo $FADE_TEST"]));
    assert_eq!(command.env(), &strings(&["FADE_TEST=observed", "HOME=/root"]));
    assert_eq!(command.program(), Some(&"sh".to_string()));
}

#[test]
fn command_spec_from_bare_command_line_is_empty() {
    let command = CommandSpec::from_command_line(strings(&["fade-display"]), &Vec::new());
    assert!(command.is_empty());
    assert!(command.env().is_empty());
}
