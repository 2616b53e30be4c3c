use repl::kernelspec::{
    get_runtime_specifications, kernelspec, read_kernels_dir, read_kernelspec_at, KernelspecError,
};
use repl::storage::{MemStorage, Storage};

fn python_kernel_json() -> String {
    r#"{
        "display_name": "Python 3",
        "language": "python",
        "argv": ["python3", "-m", "ipykernel_launcher", "-f", "{connection_file}"],
        "env": {}
    }"#
    .to_string()
}

fn deno_kernel_json() -> String {
    r#"{
        "display_name": "Deno",
        "language": "typescript",
        "argv": ["deno", "run", "--unstable", "--allow-net", "--allow-read", "https://deno.land/std/http/file_server.ts", "{connection_file}"],
        "env": {}
    }"#
    .to_string()
}

fn jupyter_tree() -> MemStorage {
    let mut fs = MemStorage::new();
    fs.insert_dir(&"/jupyter".to_string());
    fs.insert_dir(&"/jupyter/.zed".to_string());
    fs.insert_file(
        &"/jupyter/.zed/settings.json".to_string(),
        &r#"{ "tab_size": 8 }"#.to_string(),
    );
    fs.insert_file(
        &"/jupyter/.zed/tasks.json".to_string(),
        &r#"[{
            "label": "cargo check",
            "command": "cargo",
            "args": ["check", "--all"]
        },]"#
            .to_string(),
    );
    fs.insert_dir(&"/jupyter/kernels".to_string());
    fs.insert_dir(&"/jupyter/kernels/python".to_string());
    fs.insert_file(
        &"/jupyter/kernels/python/kernel.json".to_string(),
        &python_kernel_json(),
    );
    fs.insert_dir(&"/jupyter/kernels/deno".to_string());
    fs.insert_file(
        &"/jupyter/kernels/deno/kernel.json".to_string(),
        &deno_kernel_json(),
    );
    fs
}

#[test]
fn test_get_kernelspecs() {
    let fs = jupyter_tree();

    let mut kernels = read_kernels_dir(&"/jupyter/kernels".to_string(), &fs).unwrap();

    kernels.sort_by(|a, b| a.name.cmp(&b.name));

    assert_eq!(
        kernels.iter().map(|c| c.name.clone()).collect::<Vec<_>>(),
        vec!["deno", "python"]
    );
}

#[test]
fn parsed_kernelspec_fields_carry_over() {
    let fs = jupyter_tree();
    let spec = read_kernelspec_at(&"/jupyter/kernels/python".to_string(), &fs).unwrap();
    assert_eq!(spec.name, "python");
    assert_eq!(spec.path, "/jupyter/kernels/python");
    assert_eq!(spec.kernelspec.display_name, "Python 3");
    assert_eq!(spec.kernelspec.language, "python");
    assert_eq!(
        spec.kernelspec.argv,
        vec![
            "python3".to_string(),
            "-m".to_string(),
            "ipykernel_launcher".to_string(),
            "-f".to_string(),
            "{connection_file}".to_string(),
        ]
    );
    assert!(spec.kernelspec.env.is_empty());
}

#[test]
fn discovery_skips_invalid_descriptors() {
    let mut fs = MemStorage::new();
    fs.insert_dir(&"/kernels".to_string());
    fs.insert_dir(&"/kernels/good".to_string());
    fs.insert_file(&"/kernels/good/kernel.json".to_string(), &python_kernel_json());
    fs.insert_dir(&"/kernels/bad".to_string());
    fs.insert_file(
        &"/kernels/bad/kernel.json".to_string(),
        &"{ this is not json".to_string(),
    );

    let kernels = read_kernels_dir(&"/kernels".to_string(), &fs).unwrap();
    assert_eq!(kernels.len(), 1);
    assert_eq!(kernels[0].name, "good");
}

#[test]
fn discovery_skips_files_and_empty_directories() {
    let mut fs = MemStorage::new();
    fs.insert_dir(&"/kernels".to_string());
    fs.insert_file(&"/kernels/stray.txt".to_string(), &"notes".to_string());
    fs.insert_dir(&"/kernels/empty".to_string());
    fs.insert_dir(&"/kernels/python".to_string());
    fs.insert_file(&"/kernels/python/kernel.json".to_string(), &python_kernel_json());

    let kernels = read_kernels_dir(&"/kernels".to_string(), &fs).unwrap();
    assert_eq!(kernels.len(), 1);
    assert_eq!(kernels[0].name, "python");
}

#[test]
fn read_kernels_dir_fails_on_missing_root() {
    let fs = MemStorage::new();
    let err = read_kernels_dir(&"/nowhere".to_string(), &fs).unwrap_err();
    assert!(matches!(err, KernelspecError::NotADirectory));
}

#[test]
fn read_kernelspec_at_reports_each_failure() {
    let mut fs = MemStorage::new();
    fs.insert_dir(&"/kernels".to_string());
    fs.insert_dir(&"/kernels/nodescriptor".to_string());
    fs.insert_file(&"/kernels/plainfile".to_string(), &"text".to_string());
    fs.insert_dir(&"/kernels/badjson".to_string());
    fs.insert_file(&"/kernels/badjson/kernel.json".to_string(), &"[1, 2".to_string());

    assert!(matches!(
        read_kernelspec_at(&"/kernels/nodescriptor".to_string(), &fs),
        Err(KernelspecError::MissingDescriptor)
    ));
    assert!(matches!(
        read_kernelspec_at(&"/kernels/plainfile".to_string(), &fs),
        Err(KernelspecError::NotADirectory)
    ));
    assert!(matches!(
        read_kernelspec_at(&"/kernels/badjson".to_string(), &fs),
        Err(KernelspecError::InvalidDescriptor)
    ));
    assert!(matches!(
        read_kernelspec_at(&"/kernels/trailing/".to_string(), &fs),
        Err(KernelspecError::EmptyName)
    ));
}

#[test]
fn get_runtime_specifications_merges_roots_and_ignores_missing_ones() {
    let mut fs = MemStorage::new();
    fs.insert_dir(&"/usr/share/jupyter".to_string());
    fs.insert_dir(&"/usr/share/jupyter/kernels".to_string());
    fs.insert_dir(&"/usr/share/jupyter/kernels/python".to_string());
    fs.insert_file(
        &"/usr/share/jupyter/kernels/python/kernel.json".to_string(),
        &python_kernel_json(),
    );
    fs.insert_dir(&"/home/user/.local/jupyter".to_string());
    fs.insert_dir(&"/home/user/.local/jupyter/kernels".to_string());
    fs.insert_dir(&"/home/user/.local/jupyter/kernels/deno".to_string());
    fs.insert_file(
        &"/home/user/.local/jupyter/kernels/deno/kernel.json".to_string(),
        &deno_kernel_json(),
    );

    let roots = vec![
        "/usr/share/jupyter".to_string(),
        "/home/user/.local/jupyter".to_string(),
        "/absent/root".to_string(),
    ];
    let mut kernels = get_runtime_specifications(&roots, &fs);
    kernels.sort_by(|a, b| a.name.cmp(&b.name));
    let names: Vec<String> = kernels.iter().map(|k| k.name.clone()).collect();
    assert_eq!(names, vec!["deno", "python"]);
}

#[test]
fn kernelspec_lookup_matches_language_exactly() {
    let fs = jupyter_tree();
    let kernels = read_kernels_dir(&"/jupyter/kernels".to_string(), &fs).unwrap();

    let python = kernelspec(&kernels, "python").expect("python kernel");
    assert_eq!(python.kernelspec.language, "python");

    let typescript = kernelspec(&kernels, "typescript").expect("typescript kernel");
    assert_eq!(typescript.name, "deno");

    assert!(kernelspec(&kernels, "cobol").is_none());
    assert!(kernelspec(&kernels, "pytho").is_none());
}

#[test]
fn no_kernel_message_names_the_language() {
    assert_eq!(
        repl::kernelspec::no_kernel_message("cobol"),
        "No kernel found for language: cobol"
    );
}
