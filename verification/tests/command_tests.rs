use yacs::command::parse_command;
use yacs::command::split_command_tokens;

#[test]
fn single_token_has_no_args() {
    let c = parse_command("prog");
    assert_eq!(c.program, "prog");
    assert!(c.args.is_empty());
}

#[test]
fn two_args_split_off_the_program() {
    let c = parse_command("prog a b");
    assert_eq!(c.program, "prog");
    assert_eq!(c.args, vec!["a".to_string(), "b".to_string()]);
}

#[test]
fn sh_script_command() {
    let c = parse_command("sh runme.sh");
    assert_eq!(c.program, "sh");
    assert_eq!(c.args, vec!["runme.sh".to_string()]);
}

#[test]
fn empty_line_is_an_empty_program() {
    let c = parse_command("");
    assert_eq!(c.program, "");
    assert!(c.args.is_empty());
}

#[test]
fn consecutive_spaces_keep_empty_tokens() {
    let c = parse_command("a  b");
    assert_eq!(c.program, "a");
    assert_eq!(c.args, vec!["".to_string(), "b".to_string()]);
}

#[test]
fn leading_space_makes_the_program_empty() {
    let c = parse_command(" prog");
    assert_eq!(c.program, "");
    assert_eq!(c.args, vec!["prog".to_string()]);
}

#[test]
fn tokens_keep_their_order() {
    let parts = split_command_tokens("git clone url name");
    assert_eq!(
        parts,
        vec![
            "git".to_string(),
            "clone".to_string(),
            "url".to_string(),
            "name".to_string()
        ]
    );
}
