use aenv::conversion::{Conversion, ConvertAction, ConvertEvent, ConvertStage};
use aenv::fs_path::FsPath;
use aenv::oci::{
    apply_outcome, binary_usable, decompress_args, image_config_doc,
    layer_uses_zstd_decompression, path_to_json_string, tool_outcome, BinaryStatus,
    ConvertLayerRequest, DecompressorEnd, OverlaybdTools, StepSummary, ToolCommand,
    ToolExecutionError, ToolExit, WorkFile,
};

fn fs(text: &str) -> FsPath {
    FsPath::from_text(text)
}

fn text(path: &FsPath) -> String {
    path.to_text().unwrap()
}

fn args(command: &ToolCommand) -> Vec<String> {
    command.args.iter().map(text).collect()
}

fn conversion() -> Conversion {
    Conversion {
        tools: OverlaybdTools::from_bin_dir(&fs("/bin")),
        request: ConvertLayerRequest {
            work_dir: fs("/work"),
            input_layer_path: fs("/in/layer.tar"),
            global_config_path: fs("/etc/global.json"),
            virtual_size_gib: 64,
            mkfs: true,
            lower_layers: vec![fs("/lower/a.commit"), fs("/lower/b.commit")],
            uuid: Some(0x11111111_2222_3333_4444_555555555555),
            parent_uuid: Some(0xaaaaaaaa_bbbb_cccc_dddd_eeeeeeeeeeee),
        },
    }
}

fn summary() -> StepSummary {
    StepSummary {
        stdout: String::new(),
        stderr: String::new(),
    }
}

#[test]
fn from_overlaybd_install_root_uses_static_bin_subdir() {
    let tools = OverlaybdTools::from_overlaybd_install_root(&fs("/deps/overlaybd"));
    assert_eq!(text(&tools.create_bin), "/deps/overlaybd/bin/overlaybd-create");
    assert_eq!(text(&tools.apply_bin), "/deps/overlaybd/bin/overlaybd-apply");
    assert_eq!(text(&tools.commit_bin), "/deps/overlaybd/bin/overlaybd-commit");
}

#[test]
fn write_image_json_empty_lowers() {
    let doc = image_config_doc(
        &vec![],
        &fs("/work/upper.data"),
        &fs("/work/upper.index"),
        &fs("/work/result.txt"),
    )
    .unwrap();
    assert_eq!(doc.lowers.len(), 0);
    assert_eq!(doc.upper_data, "/work/upper.data");
    assert_eq!(doc.upper_index, "/work/upper.index");
    assert_eq!(doc.result_file, "/work/result.txt");
}

#[test]
fn write_image_json_multiple_lowers() {
    let doc = image_config_doc(
        &vec![fs("/a/layer0.commit"), fs("/b/layer1.commit")],
        &fs("/work/upper.data"),
        &fs("/work/upper.index"),
        &fs("/work/result.txt"),
    )
    .unwrap();
    assert_eq!(doc.lowers.len(), 2);
    assert_eq!(doc.lowers[0], "/a/layer0.commit");
    assert_eq!(doc.lowers[1], "/b/layer1.commit");
}

#[test]
fn image_config_names_the_first_path_that_is_no_text() {
    let bad = FsPath {
        bytes: b"/b\xff".to_vec(),
    };
    let err = image_config_doc(&vec![fs("/a"), bad.clone()], &bad, &fs("/i"), &fs("/r")).unwrap_err();
    assert_eq!(
        err.message(),
        "path contains non-UTF-8 bytes and cannot be serialized into overlaybd image config: /b\u{fffd}"
    );
    assert!(matches!(err, ToolExecutionError::InvalidRequest { .. }));
    assert_eq!(path_to_json_string(&fs("/ä")).unwrap(), "/ä");
    for n in 0..3 {
        let pick = |k: usize| if k == n { bad.clone() } else { fs("/x") };
        assert!(image_config_doc(&vec![], &pick(0), &pick(1), &pick(2)).is_err());
    }
}

#[test]
fn convert_rejects_existing_target_files() {
    let conversion = conversion();
    match conversion.action(&ConvertStage::CheckClean).unwrap() {
        ConvertAction::FindExisting { paths } => assert_eq!(
            paths.iter().map(text).collect::<Vec<_>>(),
            vec![
                "/work/upper.data",
                "/work/upper.index",
                "/work/image.json",
                "/work/layer.commit",
                "/work/result.txt"
            ]
        ),
        other => panic!("unexpected action: {other:?}"),
    }
    let err = conversion
        .after(
            ConvertStage::CheckClean,
            ConvertEvent::Existing {
                file: WorkFile::UpperData,
            },
        )
        .unwrap_err();
    assert!(err.message().contains("already exists"));
    assert_eq!(
        err.message(),
        "target file already exists: /work/upper.data; provide a clean work_dir"
    );
}

#[test]
fn convert_runs_fake_tool_chain_in_order() {
    let conversion = conversion();
    let mut stage = ConvertStage::MakeDir;
    let mut ran = Vec::new();
    let mut moved = Vec::new();
    let mut removed = Vec::new();
    let finished = loop {
        let action = conversion.action(&stage).unwrap();
        let event = match action {
            ConvertAction::CreateDir { path } => {
                assert_eq!(text(&path), "/work");
                ConvertEvent::Succeeded
            }
            ConvertAction::FindExisting { .. } => ConvertEvent::Succeeded,
            ConvertAction::InspectBinary { .. } => ConvertEvent::Binary(BinaryStatus::File),
            ConvertAction::RunTool { command } => {
                assert_eq!(text(&command.work_dir), "/work");
                ran.push((text(&command.program), args(&command)));
                ConvertEvent::Tool(Ok(summary()))
            }
            ConvertAction::WriteImageJson { path, doc } => {
                assert_eq!(text(&path), "/work/image.json");
                assert_eq!(doc.lowers, vec!["/lower/a.commit", "/lower/b.commit"]);
                ConvertEvent::Succeeded
            }
            ConvertAction::ReadHead { path } => {
                assert_eq!(text(&path), "/in/layer.tar");
                ConvertEvent::Head(b"not-".to_vec())
            }
            ConvertAction::RunApply {
                decompress,
                command,
            } => {
                assert!(decompress.is_none());
                ran.push((text(&command.program), args(&command)));
                ConvertEvent::Tool(Ok(summary()))
            }
            ConvertAction::RenameFile { from, to } => {
                assert_eq!(text(&to), format!("{}.removed", text(&from)));
                moved.push(text(&from));
                ConvertEvent::Succeeded
            }
            ConvertAction::RemoveFile { path } => {
                removed.push(text(&path));
                ConvertEvent::Succeeded
            }
            ConvertAction::Finish(result) => break result,
        };
        stage = conversion.after(stage, event).unwrap();
    };
    assert_eq!(text(&finished.layer_commit), "/work/layer.commit");
    assert_eq!(
        ran,
        vec![
            (
                "/bin/overlaybd-create".to_string(),
                vec![
                    "/work/upper.data".to_string(),
                    "/work/upper.index".to_string(),
                    "64".to_string()
                ]
            ),
            (
                "/bin/overlaybd-apply".to_string(),
                vec![
                    "--service_config_path=/etc/global.json".to_string(),
                    "--mkfs".to_string(),
                    "/in/layer.tar".to_string(),
                    "/work/image.json".to_string()
                ]
            ),
            (
                "/bin/overlaybd-commit".to_string(),
                vec![
                    "--uuid".to_string(),
                    "11111111-2222-3333-4444-555555555555".to_string(),
                    "--parent-uuid".to_string(),
                    "aaaaaaaa-bbbb-cccc-dddd-eeeeeeeeeeee".to_string(),
                    "/work/upper.data".to_string(),
                    "/work/upper.index".to_string(),
                    "/work/layer.commit".to_string()
                ]
            ),
        ]
    );
    assert_eq!(
        moved,
        vec![
            "/work/upper.data",
            "/work/upper.index",
            "/work/image.json",
            "/work/result.txt"
        ]
    );
    assert_eq!(
        removed,
        vec![
            "/work/upper.data.removed",
            "/work/upper.index.removed",
            "/work/image.json.removed",
            "/work/result.txt.removed"
        ]
    );
}

/// Cleans up after a sealed layer in a directory that holds `files`. Returns the
/// error, if there is one, and leaves in `files` what the directory then holds.
/// The files named in `broken` cannot be moved or removed.
fn clean_up(files: &mut Vec<String>, broken: &[&str]) -> Option<String> {
    let conversion = conversion();
    let mut stage = ConvertStage::SetAside(WorkFile::UpperData);
    loop {
        let (from, to) = match conversion.action(&stage).unwrap() {
            ConvertAction::RenameFile { from, to } => (text(&from), Some(text(&to))),
            ConvertAction::RemoveFile { path } => (text(&path), None),
            ConvertAction::Finish(_) => return None,
            other => panic!("unexpected action: {other:?}"),
        };
        let event = if broken.contains(&from.as_str()) {
            ConvertEvent::Failed {
                cause: "busy".to_string(),
            }
        } else if !files.contains(&from) {
            ConvertEvent::Missing {
                cause: "not found".to_string(),
            }
        } else {
            files.retain(|file| *file != from);
            files.extend(to);
            ConvertEvent::Succeeded
        };
        stage = match conversion.after(stage, event) {
            Ok(next) => next,
            Err(error) => {
                files.sort();
                return Some(error.message());
            }
        };
    }
}

fn work_files() -> Vec<String> {
    [
        "/work/image.json",
        "/work/layer.commit",
        "/work/result.txt",
        "/work/upper.data",
        "/work/upper.index",
    ]
    .iter()
    .map(|file| file.to_string())
    .collect()
}

#[test]
fn failed_conversion_retains_intermediate_files() {
    for file in [
        "/work/upper.data",
        "/work/upper.index",
        "/work/image.json",
        "/work/result.txt",
    ] {
        let mut files = work_files();
        assert_eq!(
            clean_up(&mut files, &[file]),
            Some(format!("remove conversion artifact {file}"))
        );
        assert_eq!(files, work_files());
    }
    for file in ["/work/upper.data", "/work/upper.index", "/work/image.json"] {
        let mut files = work_files();
        files.retain(|other| other != file);
        let before = files.clone();
        assert_eq!(
            clean_up(&mut files, &[]),
            Some(format!("remove conversion artifact {file}"))
        );
        assert_eq!(files, before);
    }
    let mut files = work_files();
    assert!(clean_up(&mut files, &["/work/result.txt", "/work/upper.index.removed"]).is_some());
    assert_eq!(
        files,
        vec![
            "/work/image.json",
            "/work/layer.commit",
            "/work/result.txt",
            "/work/upper.data",
            "/work/upper.index.removed"
        ]
    );
}

#[test]
fn finished_conversion_leaves_only_the_layer() {
    let mut files = work_files();
    assert_eq!(clean_up(&mut files, &[]), None);
    assert_eq!(files, vec!["/work/layer.commit"]);

    let mut files = work_files();
    files.retain(|file| file != "/work/result.txt");
    assert_eq!(clean_up(&mut files, &[]), None);
    assert_eq!(files, vec!["/work/layer.commit"]);

    let mut files = work_files();
    assert_eq!(clean_up(&mut files, &["/work/image.json.removed"]), None);
    assert_eq!(files, vec!["/work/layer.commit", "/work/image.json.removed"]);
}

#[test]
fn compressed_layer_is_piped() {
    let conversion = conversion();
    let stage = conversion
        .after(
            ConvertStage::ReadMagic,
            ConvertEvent::Head(vec![0x28, 0xb5, 0x2f, 0xfd]),
        )
        .unwrap();
    assert_eq!(stage, ConvertStage::RunApply { piped: true });
    match conversion.action(&stage).unwrap() {
        ConvertAction::RunApply {
            decompress,
            command,
        } => {
            let decompress: Vec<String> = decompress.unwrap().iter().map(text).collect();
            assert_eq!(decompress, vec!["-dc", "/in/layer.tar"]);
            assert_eq!(args(&command)[2], "/dev/stdin");
        }
        other => panic!("unexpected action: {other:?}"),
    }
    assert_eq!(
        decompress_args(&fs("/x")).iter().map(text).collect::<Vec<_>>(),
        vec!["-dc", "/x"]
    );
}

#[test]
fn uuids_are_written_hyphenated() {
    let tools = OverlaybdTools::from_bin_dir(&fs("/bin"));
    let command = tools.commit_command(
        &aenv::oci::CommitLayerRequest {
            data_file: fs("/d"),
            index_file: fs("/i"),
            commit_file: fs("/c"),
            uuid: Some(0x0123456789abcdef_fedcba9876543210),
            parent_uuid: None,
        },
        &fs("/w"),
    );
    assert_eq!(
        args(&command),
        vec!["--uuid", "01234567-89ab-cdef-fedc-ba9876543210", "/d", "/i", "/c"]
    );
}

#[test]
fn convert_reports_non_zero_exit_with_captured_output() {
    let exit = ToolExit {
        success: false,
        code: Some(23),
        stdout: fs("create-stdout\n"),
        stderr: fs("create-stderr\n"),
    };
    let result = tool_outcome("overlaybd-create".to_string(), &exit);
    let err = conversion()
        .after(ConvertStage::RunCreate, ConvertEvent::Tool(result))
        .expect_err("command should fail");
    assert_eq!(
        err.message(),
        "tool failed: overlaybd-create\nexit code: Some(23)\nstderr: create-stderr\n"
    );
    match err {
        ToolExecutionError::NonZeroExit {
            exit_code,
            stdout,
            stderr,
            ..
        } => {
            assert_eq!(exit_code, Some(23));
            assert!(stdout.contains("create-stdout"));
            assert!(stderr.contains("create-stderr"));
        }
        other => panic!("unexpected error: {}", other.message()),
    }
}

#[test]
fn convert_reports_missing_binary_explicitly() {
    let conversion = conversion();
    for status in [BinaryStatus::NotFound, BinaryStatus::OtherKind] {
        let err = conversion
            .after(ConvertStage::InspectCreate, ConvertEvent::Binary(status))
            .expect_err("missing binary should fail");
        assert_eq!(
            err.message(),
            "overlaybd tool binary not found at /bin/overlaybd-create"
        );
        match err {
            ToolExecutionError::MissingBinary { path } => {
                assert!(text(&path).ends_with("overlaybd-create"));
            }
            other => panic!("unexpected error: {}", other.message()),
        }
    }
    let err = binary_usable(
        &fs("/b"),
        BinaryStatus::Failed {
            cause: "denied".to_string(),
        },
    )
    .unwrap_err();
    assert_eq!(err.message(), "inspect bundled overlaybd binary /b");
    match err {
        ToolExecutionError::Other { cause, .. } => assert_eq!(cause, "denied"),
        other => panic!("unexpected error: {}", other.message()),
    }
}

#[test]
fn failures_say_what_was_done() {
    let conversion = conversion();
    let failed = || ConvertEvent::Failed {
        cause: "disk full".to_string(),
    };
    let cases = [
        (ConvertStage::MakeDir, "create work_dir /work"),
        (ConvertStage::WriteConfig, "write /work/image.json"),
        (
            ConvertStage::ReadMagic,
            "read input OCI layer magic /in/layer.tar",
        ),
        (
            ConvertStage::SetAside(WorkFile::UpperData),
            "remove conversion artifact /work/upper.data",
        ),
    ];
    for (stage, message) in cases {
        assert_eq!(
            conversion.after(stage, failed()).unwrap_err().message(),
            message
        );
    }
    assert_eq!(
        conversion
            .after(
                ConvertStage::ReadMagic,
                ConvertEvent::OpenFailed {
                    cause: "x".to_string()
                }
            )
            .unwrap_err()
            .message(),
        "open input OCI layer for magic detection /in/layer.tar"
    );
    assert_eq!(
        conversion
            .after(
                ConvertStage::WriteConfig,
                ConvertEvent::SerializeFailed {
                    cause: "x".to_string()
                }
            )
            .unwrap_err()
            .message(),
        "serialize image.json"
    );
    assert!(conversion
        .after(
            ConvertStage::SetAside(WorkFile::UpperData),
            ConvertEvent::Missing {
                cause: "x".to_string()
            }
        )
        .is_err());
}

#[test]
fn failed_decompressor_outweighs_the_apply_program() {
    let end = |success, code| {
        Some((
            "zstd -dc".to_string(),
            DecompressorEnd::Exited {
                success,
                code,
                stderr: fs("corrupt"),
            },
        ))
    };
    assert!(apply_outcome(end(true, Some(0)), Ok(summary())).is_ok());
    assert!(apply_outcome(None, Ok(summary())).is_ok());
    let err = apply_outcome(end(false, None), Ok(summary())).unwrap_err();
    assert_eq!(
        err.message(),
        "tool failed: zstd -dc\nexit code: None\nstderr: corrupt"
    );
    let err = apply_outcome(end(false, Some(-1)), Ok(summary())).unwrap_err();
    assert!(err.message().contains("exit code: Some(-1)"));
    let ends = [
        (
            DecompressorEnd::WaitFailed {
                cause: "c".to_string(),
            },
            "wait for layer decompressor: zstd",
        ),
        (
            DecompressorEnd::JoinFailed {
                cause: "c".to_string(),
            },
            "join stderr reader for layer decompressor: zstd",
        ),
        (
            DecompressorEnd::ReadFailed {
                cause: "c".to_string(),
            },
            "read stderr from layer decompressor: zstd",
        ),
    ];
    for (end, message) in ends {
        let err = apply_outcome(Some(("zstd".to_string(), end)), Ok(summary())).unwrap_err();
        assert_eq!(err.message(), message);
    }
}

#[test]
fn layer_decompression_detects_zstd_by_magic() {
    assert!(layer_uses_zstd_decompression(&vec![0x28, 0xb5, 0x2f, 0xfd]));
}

#[test]
fn layer_decompression_ignores_non_zstd_magic() {
    assert!(!layer_uses_zstd_decompression(&vec![0x1f, 0x8b, 0x08, 0x00]));
    assert!(!layer_uses_zstd_decompression(&vec![0x28, 0xb5, 0x2f]));
    assert!(!layer_uses_zstd_decompression(&vec![]));
}

#[test]
fn layer_decompression_detects_zstd_skippable_frame_magic() {
    assert!(layer_uses_zstd_decompression(&vec![0x50, 0x2a, 0x4d, 0x18]));
    assert!(layer_uses_zstd_decompression(&vec![0x5f, 0x2a, 0x4d, 0x18]));
    assert!(!layer_uses_zstd_decompression(&vec![0x60, 0x2a, 0x4d, 0x18]));
    assert!(!layer_uses_zstd_decompression(&vec![0x4f, 0x2a, 0x4d, 0x18]));
}
