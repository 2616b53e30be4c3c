use repl::command::CommandError;
use repl::kernelspec::{Kernelspec, RuntimeSpecification};

fn spec_with_argv(argv: Vec<&str>) -> RuntimeSpecification {
    RuntimeSpecification {
        name: "python".to_string(),
        path: "/kernels/python".to_string(),
        kernelspec: Kernelspec {
            display_name: "Python 3".to_string(),
            language: "python".to_string(),
            argv: argv.into_iter().map(String::from).collect(),
            env: vec![("PYTHONUNBUFFERED".to_string(), "1".to_string())],
        },
    }
}

#[test]
fn command_substitutes_the_placeholder() {
    let spec = spec_with_argv(vec![
        "python3",
        "-m",
        "ipykernel_launcher",
        "-f",
        "{connection_file}",
    ]);
    let cmd = spec.command(&"/run/kernel-zed-7.json".to_string()).unwrap();
    assert_eq!(cmd.program, "python3");
    assert_eq!(
        cmd.args,
        vec![
            "-m".to_string(),
            "ipykernel_launcher".to_string(),
            "-f".to_string(),
            "/run/kernel-zed-7.json".to_string(),
        ]
    );
    assert_eq!(
        cmd.env,
        vec![("PYTHONUNBUFFERED".to_string(), "1".to_string())]
    );
}

#[test]
fn command_rejects_empty_argv() {
    let spec = spec_with_argv(vec![]);
    let err = spec.command(&"/run/c.json".to_string()).unwrap_err();
    assert!(matches!(err, CommandError::EmptyArgv));
}

#[test]
fn command_rejects_single_token_argv() {
    let spec = spec_with_argv(vec!["python3"]);
    let err = spec.command(&"/run/c.json".to_string()).unwrap_err();
    assert!(matches!(err, CommandError::InvalidArgv));
}

#[test]
fn command_rejects_missing_placeholder() {
    let spec = spec_with_argv(vec!["python3", "-m", "ipykernel_launcher"]);
    let err = spec.command(&"/run/c.json".to_string()).unwrap_err();
    assert!(matches!(err, CommandError::MissingConnectionFile));
}

#[test]
fn command_rejects_duplicated_placeholder() {
    let spec = spec_with_argv(vec!["python3", "{connection_file}", "{connection_file}"]);
    let err = spec.command(&"/run/c.json".to_string()).unwrap_err();
    assert!(matches!(err, CommandError::DuplicateConnectionFile));
}

#[test]
fn command_error_messages_name_the_kernelspec() {
    assert_eq!(
        CommandError::EmptyArgv.message(&"python".to_string()),
        "Empty argv in kernelspec python"
    );
    assert_eq!(
        CommandError::InvalidArgv.message(&"deno".to_string()),
        "Invalid argv in kernelspec deno"
    );
    assert_eq!(
        CommandError::MissingConnectionFile.message(&"julia".to_string()),
        "Missing 'connection_file' in argv in kernelspec julia"
    );
    assert_eq!(
        CommandError::DuplicateConnectionFile.message(&"r".to_string()),
        "Duplicate 'connection_file' in argv in kernelspec r"
    );
}
