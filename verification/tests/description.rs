use cmdrun::command::{
    bytes_before, cmd, env_string, list_string, option_string, Command, EnvOverride,
};
use cmdrun::output::{cmd_info_with_output, ExitStatus, Output};

fn sample() -> Command {
    Command {
        program: "ls".to_string(),
        args: vec!["-l".to_string(), "a b".to_string()],
        envs: vec![
            EnvOverride { key: "K".to_string(), value: Some("V".to_string()) },
            EnvOverride { key: "GONE".to_string(), value: None },
        ],
        current_dir: Some("/tmp".to_string()),
    }
}

#[test]
fn cmd_starts_empty() {
    let c = cmd("echo");
    assert_eq!(c.program, "echo");
    assert!(c.args.is_empty());
    assert!(c.envs.is_empty());
    assert!(c.current_dir.is_none());
}

#[test]
fn args_are_appended_in_order() {
    let c = cmd("sh").args_(vec!["-c".to_string()]).args_(vec!["exit 3".to_string(), "x".to_string()]);
    assert_eq!(c.program, "sh");
    assert_eq!(c.args, vec!["-c".to_string(), "exit 3".to_string(), "x".to_string()]);
}

#[test]
fn args_with_nothing_to_add_changes_nothing() {
    let c = cmd("sh").args_(vec!["-c".to_string()]).args_(Vec::new());
    assert_eq!(c.args, vec!["-c".to_string()]);
}

#[test]
fn description_of_a_bare_command() {
    let c = cmd("echo").args_(vec!["hello".to_string()]);
    assert_eq!(
        c.description().to_text(),
        "program = \"echo\", args = [\"hello\"], envs = [], current_dir = None"
    );
}

#[test]
fn description_of_a_full_command() {
    assert_eq!(
        sample().description().to_text(),
        "program = \"ls\", args = [\"-l\", \"a b\"], envs = [(\"K\", Some(\"V\")), (\"GONE\", None)], current_dir = Some(\"/tmp\")"
    );
}

#[test]
fn description_escapes_what_needs_it() {
    let c = cmd("a\"b").args_(vec!["line\nbreak".to_string()]);
    assert_eq!(
        c.description().to_text(),
        "program = \"a\\\"b\", args = [\"line\\nbreak\"], envs = [], current_dir = None"
    );
}

#[test]
fn description_is_the_same_for_equal_commands() {
    let a = sample().description().to_text();
    let b = sample().description().to_text();
    assert_eq!(a, b);
    let c = sample();
    assert_eq!(c.description().to_text(), c.description().to_text());
}

#[test]
fn option_string_shows_both_cases() {
    assert_eq!(option_string(&None), "None");
    assert_eq!(option_string(&Some("x y".to_string())), "Some(\"x y\")");
}

#[test]
fn env_string_shows_a_pair() {
    let set = EnvOverride { key: "PATH".to_string(), value: Some("/bin".to_string()) };
    let gone = EnvOverride { key: "HOME".to_string(), value: None };
    assert_eq!(env_string(&set), "(\"PATH\", Some(\"/bin\"))");
    assert_eq!(env_string(&gone), "(\"HOME\", None)");
}

#[test]
fn list_string_joins_with_commas() {
    assert_eq!(list_string(&Vec::new()), "[]");
    assert_eq!(list_string(&vec!["a".to_string()]), "[a]");
    assert_eq!(list_string(&vec!["a".to_string(), "b".to_string(), "c".to_string()]), "[a, b, c]");
}

#[test]
fn info_with_output_shows_both_streams() {
    let c = cmd("echo").args_(vec!["hello".to_string()]);
    assert_eq!(
        cmd_info_with_output(&c, b"hello\n", b"warn"),
        "program = \"echo\", args = [\"hello\"], envs = [], current_dir = None, stdout = \"hello\\n\", stderr = \"warn\""
    );
}

#[test]
fn info_with_output_takes_any_bytes() {
    let c = cmd("cat");
    let text = cmd_info_with_output(&c, &[0xff, 0x41], &[0xc3, 0x28, 0x00]);
    assert_eq!(
        text,
        "program = \"cat\", args = [], envs = [], current_dir = None, stdout = \"\u{fffd}A\", stderr = \"\u{fffd}(\\0\""
    );
}

#[test]
fn info_with_output_is_the_same_for_equal_input() {
    let a = cmd_info_with_output(&sample(), &[0xfe, 0xff], b"e");
    let b = cmd_info_with_output(&sample(), &[0xfe, 0xff], b"e");
    assert_eq!(a, b);
}

#[test]
fn output_description_shows_text_and_lossy_error() {
    let out = Output {
        command: cmd("echo").args_(vec!["hi".to_string()]),
        status: ExitStatus { code: Some(0) },
        stdout: "hi\n".to_string(),
        stderr: vec![0x80, b'!'],
    };
    assert_eq!(
        out.description().to_text(),
        "program = \"echo\", args = [\"hi\"], envs = [], current_dir = None, stdout = \"hi\\n\", stderr = \"\u{fffd}!\""
    );
}

#[test]
fn exit_status_succeeds_only_with_code_zero() {
    assert!(ExitStatus { code: Some(0) }.success());
    assert!(!ExitStatus { code: Some(3) }.success());
    assert!(!ExitStatus { code: Some(-1) }.success());
    assert!(!ExitStatus { code: None }.success());
}

#[test]
fn output_description_agrees_with_the_description_of_its_bytes() {
    let out = Output {
        command: sample(),
        status: ExitStatus { code: Some(0) },
        stdout: "gr\u{fc}n \"quoted\"\n".to_string(),
        stderr: vec![0xff, b'e', 0xc3],
    };
    assert_eq!(
        out.description().to_text(),
        cmd_info_with_output(&out.command, out.stdout.as_bytes(), &out.stderr)
    );
}

#[test]
fn bytes_are_ordered_as_in_a_dictionary() {
    assert!(bytes_before(b"", b"a"));
    assert!(bytes_before(b"A", b"B"));
    assert!(bytes_before(b"AB", b"ABC"));
    assert!(bytes_before(b"ABC", b"ABD"));
    assert!(bytes_before(b"Z", b"a"));
    assert!(!bytes_before(b"", b""));
    assert!(!bytes_before(b"A", b"A"));
    assert!(!bytes_before(b"B", b"A"));
    assert!(!bytes_before(b"ABC", b"AB"));
    assert!(!bytes_before(&[0xff], &[0x7f, 0x00]));
}

#[test]
fn overrides_in_key_order_are_well_formed() {
    assert!(cmd("x").is_wf());
    assert!(cmd("x").args_(vec!["a".to_string()]).is_wf());
    let mut c = cmd("x");
    c.envs = vec![
        EnvOverride { key: "A".to_string(), value: Some("1".to_string()) },
        EnvOverride { key: "AB".to_string(), value: None },
        EnvOverride { key: "B".to_string(), value: Some("2".to_string()) },
    ];
    assert!(c.is_wf());
    c.envs.push(EnvOverride { key: "B".to_string(), value: None });
    assert!(!c.is_wf());
    assert!(!sample().is_wf());
}

#[test]
fn overrides_out_of_order_are_not_well_formed() {
    let mut c = cmd("x");
    c.envs = vec![
        EnvOverride { key: "A".to_string(), value: None },
        EnvOverride { key: "C".to_string(), value: None },
        EnvOverride { key: "B".to_string(), value: None },
    ];
    assert!(!c.is_wf());
    c.envs.swap(1, 2);
    assert!(c.is_wf());
}
