use fsdgen::layers::{LayerArgs, Layers, ValidationError};
use fsdgen::plan::{barrel_content, barrel_file_path, filesystem_failure, slice_plan, success_message, FsOp};

fn widget_button() -> Layers {
    Layers::Widget(LayerArgs {
        name: Some("button".to_string()),
    })
}

fn dirs_of(ops: &[FsOp]) -> Vec<&str> {
    ops.iter()
        .filter_map(|op| match op {
            FsOp::EnsureDir(p) => Some(p.as_str()),
            FsOp::WriteFile(_, _) => None,
        })
        .collect()
}

fn files_of(ops: &[FsOp]) -> Vec<(&str, &str)> {
    ops.iter()
        .filter_map(|op| match op {
            FsOp::EnsureDir(_) => None,
            FsOp::WriteFile(p, c) => Some((p.as_str(), c.as_str())),
        })
        .collect()
}

#[test]
fn widget_button_plan_has_five_dirs_and_five_files() {
    let ops = slice_plan(&widget_button()).unwrap();
    assert_eq!(ops.len(), 10);
    assert_eq!(dirs_of(&ops).len(), 5);
    assert_eq!(files_of(&ops).len(), 5);
}

#[test]
fn widget_button_plan_paths_and_order() {
    let ops = slice_plan(&widget_button()).unwrap();
    assert_eq!(
        dirs_of(&ops),
        vec![
            "./widgets/button",
            "./widgets/button/ui",
            "./widgets/button/model",
            "./widgets/button/lib",
            "./widgets/button/api",
        ]
    );
    let files = files_of(&ops);
    assert_eq!(
        files.iter().map(|(p, _)| *p).collect::<Vec<_>>(),
        vec![
            "./widgets/button/ui/index.ts",
            "./widgets/button/model/index.ts",
            "./widgets/button/lib/index.ts",
            "./widgets/button/api/index.ts",
            "./widgets/button/index.ts",
        ]
    );
}

#[test]
fn segment_barrels_are_empty() {
    let ops = slice_plan(&widget_button()).unwrap();
    let files = files_of(&ops);
    for (path, content) in &files[..files.len() - 1] {
        assert!(path.ends_with("/index.ts"));
        assert_eq!(*content, "", "segment barrel {path} must be empty");
    }
}

#[test]
fn root_barrel_has_four_export_lines_in_order() {
    let ops = slice_plan(&widget_button()).unwrap();
    let (path, content) = *files_of(&ops).last().unwrap();
    assert_eq!(path, "./widgets/button/index.ts");
    assert_eq!(
        content,
        "export {} from './ui'\nexport {} from './model'\nexport {} from './lib'\nexport {} from './api'\n"
    );
    let lines: Vec<&str> = content.lines().collect();
    assert_eq!(lines.len(), 4);
    assert_eq!(lines[0], "export {} from './ui'");
    assert_eq!(lines[1], "export {} from './model'");
    assert_eq!(lines[2], "export {} from './lib'");
    assert_eq!(lines[3], "export {} from './api'");
}

#[test]
fn empty_name_fails_with_no_operations() {
    let l = Layers::Widget(LayerArgs {
        name: Some(String::new()),
    });
    assert_eq!(slice_plan(&l), Err(ValidationError));
    let missing = Layers::Feature(LayerArgs { name: None });
    assert_eq!(slice_plan(&missing), Err(ValidationError));
}

#[test]
fn rerunning_produces_the_identical_plan() {
    let first = slice_plan(&widget_button()).unwrap();
    let second = slice_plan(&widget_button()).unwrap();
    assert_eq!(first, second);
    for (a, b) in files_of(&first).iter().zip(files_of(&second).iter()) {
        assert_eq!(a, b);
    }
}

#[test]
fn barrel_content_keeps_duplicate_segments() {
    let segs = vec!["ui".to_string(), "ui".to_string()];
    assert_eq!(
        barrel_content(&segs),
        "export {} from './ui'\nexport {} from './ui'\n"
    );
}

#[test]
fn barrel_content_of_no_segments_is_empty() {
    assert_eq!(barrel_content(&Vec::new()), "");
}

#[test]
fn barrel_file_path_appends_index_ts() {
    assert_eq!(barrel_file_path("./pages/login"), "./pages/login/index.ts");
}

#[test]
fn filesystem_failure_reports_step_and_prior_paths() {
    let ops = slice_plan(&widget_button()).unwrap();
    let err = filesystem_failure(&ops, 3, "permission denied".to_string());
    assert_eq!(err.path, "./widgets/button/model");
    assert_eq!(err.cause, "permission denied");
    assert_eq!(
        err.created,
        vec![
            "./widgets/button",
            "./widgets/button/ui",
            "./widgets/button/ui/index.ts",
        ]
    );
    assert_eq!(
        err.message(),
        "filesystem operation failed at ./widgets/button/model: permission denied"
    );
}

#[test]
fn success_message_names_slice_and_layer() {
    assert_eq!(
        success_message(&widget_button()),
        Ok("Created new slice button for layer Widget".to_string())
    );
    let missing = Layers::Page(LayerArgs { name: None });
    assert_eq!(success_message(&missing), Err(ValidationError));
}
