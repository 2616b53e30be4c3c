use repl::kernel::{
    Color, ExecutionState, Kernel, KernelInfo, LaunchError, RunningKernel,
};
use repl::kernelspec::{Kernelspec, RuntimeSpecification};
use repl::storage::{MemStorage, Storage};

fn running() -> RunningKernel {
    RunningKernel {
        connection_path: "/run/kernel-zed-1.json".to_string(),
        execution_state: ExecutionState::Busy,
        kernel_info: None,
    }
}

fn python_spec() -> RuntimeSpecification {
    RuntimeSpecification {
        name: "python".to_string(),
        path: "/kernels/python".to_string(),
        kernelspec: Kernelspec {
            display_name: "Python 3".to_string(),
            language: "python".to_string(),
            argv: vec![
                "python3".to_string(),
                "-m".to_string(),
                "ipykernel_launcher".to_string(),
                "-f".to_string(),
                "{connection_file}".to_string(),
            ],
            env: vec![],
        },
    }
}

#[test]
fn dot_reflects_state_and_busyness() {
    let mut k = Kernel::RunningKernel(running());
    assert_eq!(k.dot().color, Color::Modified);
    k.set_execution_state(&ExecutionState::Idle);
    assert_eq!(k.dot().color, Color::Success);

    let mut starting = Kernel::StartingKernel;
    assert_eq!(starting.dot().color, Color::Modified);
    let mut errored = Kernel::ErroredLaunch("spawn failed".to_string());
    assert_eq!(errored.dot().color, Color::Error);
    let mut stopping = Kernel::ShuttingDown;
    assert_eq!(stopping.dot().color, Color::Modified);
    let mut stopped = Kernel::Shutdown;
    assert_eq!(stopped.dot().color, Color::Disabled);
}

#[test]
fn status_updates_apply_only_to_a_running_kernel() {
    let mut k = Kernel::RunningKernel(running());
    k.set_execution_state(&ExecutionState::Idle);
    match &k {
        Kernel::RunningKernel(rk) => assert_eq!(rk.execution_state, ExecutionState::Idle),
        _ => panic!("still running"),
    }

    let mut stopped = Kernel::Shutdown;
    stopped.set_execution_state(&ExecutionState::Busy);
    assert!(matches!(stopped, Kernel::Shutdown));

    let mut errored = Kernel::ErroredLaunch("boom".to_string());
    errored.set_execution_state(&ExecutionState::Idle);
    match &errored {
        Kernel::ErroredLaunch(msg) => assert_eq!(msg, "boom"),
        _ => panic!("still errored"),
    }
}

#[test]
fn kernel_info_is_cached_on_latest_reply() {
    let mut k = Kernel::RunningKernel(running());
    k.set_kernel_info(&KernelInfo {
        language: "python".to_string(),
        banner: "Python 3.11".to_string(),
    });
    k.set_kernel_info(&KernelInfo {
        language: "python".to_string(),
        banner: "Python 3.12".to_string(),
    });
    match &k {
        Kernel::RunningKernel(rk) => {
            assert_eq!(rk.kernel_info.as_ref().unwrap().banner, "Python 3.12")
        }
        _ => panic!("still running"),
    }

    let mut stopped = Kernel::Shutdown;
    stopped.set_kernel_info(&KernelInfo {
        language: "python".to_string(),
        banner: "stray".to_string(),
    });
    assert!(matches!(stopped, Kernel::Shutdown));
}

#[test]
fn launch_resolution_and_shutdown_walk_the_state_machine() {
    let mut fs = MemStorage::new();
    let mut k = Kernel::StartingKernel;
    k.finish_launch(Err("no such executable".to_string()));
    match &k {
        Kernel::ErroredLaunch(msg) => assert_eq!(msg, "no such executable"),
        _ => panic!("launch failed"),
    }

    let mut k = Kernel::StartingKernel;
    k.finish_launch(Ok(running()));
    assert!(matches!(k, Kernel::RunningKernel(_)));
    k.begin_shutdown(&mut fs);
    assert!(matches!(k, Kernel::ShuttingDown));
    k.complete_shutdown();
    assert!(matches!(k, Kernel::Shutdown));
}

#[test]
fn prepared_launch_persists_a_descriptor_the_kernel_can_read() {
    let mut fs = MemStorage::new();
    let spec = python_spec();
    let (kernel, info, cmd) =
        RunningKernel::new(&spec, 7, &"/run/jupyter".to_string(), &mut fs).unwrap();

    assert_eq!(kernel.connection_path, "/run/jupyter/kernel-zed-7.json");
    assert_eq!(kernel.execution_state, ExecutionState::Busy);
    assert!(kernel.kernel_info.is_none());

    let text = fs.load(&kernel.connection_path).unwrap();
    let value: serde_json::Value = serde_json::from_str(&text).unwrap();
    assert_eq!(value["transport"], "tcp");
    assert_eq!(value["ip"], "127.0.0.1");
    assert_eq!(value["signature_scheme"], "hmac-sha256");
    assert_eq!(value["kernel_name"], "zed-python");
    assert_eq!(value["key"].as_str().unwrap().len(), 36);
    let ports = [
        value["stdin_port"].as_u64().unwrap(),
        value["control_port"].as_u64().unwrap(),
        value["hb_port"].as_u64().unwrap(),
        value["shell_port"].as_u64().unwrap(),
        value["iopub_port"].as_u64().unwrap(),
    ];
    assert_eq!(ports[0], info.stdin_port as u64);
    assert_eq!(ports[4], info.iopub_port as u64);
    for i in 0..5 {
        assert!(ports[i] > 0);
        for j in (i + 1)..5 {
            assert_ne!(ports[i], ports[j]);
        }
    }

    assert_eq!(cmd.program, "python3");
    assert_eq!(cmd.args.last().unwrap(), "/run/jupyter/kernel-zed-7.json");
}

#[test]
fn invalid_spec_aborts_launch_before_any_side_effect() {
    let mut fs = MemStorage::new();
    let mut spec = python_spec();
    spec.kernelspec.argv = vec!["python3".to_string(), "-m".to_string()];

    let err = RunningKernel::new(&spec, 3, &"/run/jupyter".to_string(), &mut fs).unwrap_err();
    assert!(matches!(
        err,
        LaunchError::SpecValidation(repl::command::CommandError::MissingConnectionFile)
    ));
    assert!(fs.load(&"/run/jupyter/kernel-zed-3.json".to_string()).is_none());
}

#[test]
fn teardown_removes_the_descriptor_file() {
    let mut fs = MemStorage::new();
    let spec = python_spec();
    let (kernel, _info, _cmd) =
        RunningKernel::new(&spec, 9, &"/run/jupyter".to_string(), &mut fs).unwrap();
    let path = kernel.connection_path.clone();
    assert!(fs.load(&path).is_some());

    kernel.teardown(&mut fs);
    assert!(fs.load(&path).is_none());
}

#[test]
fn begin_shutdown_removes_the_descriptor_file() {
    let mut fs = MemStorage::new();
    let spec = python_spec();
    let (kernel, _info, _cmd) =
        RunningKernel::new(&spec, 11, &"/run/jupyter".to_string(), &mut fs).unwrap();
    let path = kernel.connection_path.clone();
    let mut k = Kernel::RunningKernel(kernel);
    k.begin_shutdown(&mut fs);
    assert!(matches!(k, Kernel::ShuttingDown));
    assert!(fs.load(&path).is_none());
}

#[test]
fn concurrent_sessions_get_distinct_descriptor_paths() {
    let mut fs = MemStorage::new();
    let spec = python_spec();
    let (first, _i1, _c1) =
        RunningKernel::new(&spec, 1, &"/run/jupyter".to_string(), &mut fs).unwrap();
    let (second, _i2, _c2) =
        RunningKernel::new(&spec, 2, &"/run/jupyter".to_string(), &mut fs).unwrap();

    assert_ne!(first.connection_path, second.connection_path);
    assert!(fs.load(&first.connection_path).is_some());
    assert!(fs.load(&second.connection_path).is_some());

    second.teardown(&mut fs);
    assert!(fs.load(&first.connection_path).is_some());
}
