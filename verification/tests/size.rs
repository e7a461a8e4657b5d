use rcargo::commands::size::{
    handle_size_command, show_all_project_sizes, show_project_size, size_step_for, CachedProject,
    SizeEvent, SizeStep,
};
use rcargo::project::{CargoToml, ManifestFile, Package, ProjectDir, ProjectIdentifier};
use rcargo::scan::{FsNode, ScanError};

fn dir(manifest: ManifestFile) -> ProjectDir {
    ProjectDir { path: "/work/demo".to_string(), dir_name: Some("demo".to_string()), manifest }
}

fn cached(name: &str, sizes: &[u64]) -> CachedProject {
    CachedProject {
        name: name.to_string(),
        entries: vec![FsNode::Dir {
            entries: sizes.iter().map(|len| FsNode::File { len: *len }).collect(),
        }],
    }
}

fn lines(text: &[&str]) -> Vec<String> {
    text.iter().map(|l| l.to_string()).collect()
}

#[test]
fn size_starts_with_all_or_with_the_project() {
    assert_eq!(handle_size_command(SizeEvent::Requested { all: true }), Ok(SizeStep::MeasureAll));
    assert_eq!(
        handle_size_command(SizeEvent::Requested { all: false }),
        Ok(SizeStep::InspectProject)
    );
}

#[test]
fn outside_a_project_all_are_measured() {
    assert_eq!(size_step_for(&dir(ManifestFile::Missing)), SizeStep::MeasureAll);
    assert_eq!(
        handle_size_command(SizeEvent::Inspected(dir(ManifestFile::Missing))),
        Ok(SizeStep::MeasureAll)
    );
}

#[test]
fn inside_a_project_it_is_measured() {
    let malformed = dir(ManifestFile::Malformed);
    assert_eq!(
        size_step_for(&malformed),
        SizeStep::MeasureProject(ProjectIdentifier::new(&malformed))
    );
    let named = dir(ManifestFile::Parsed(CargoToml {
        package: Some(Package { name: Some("tool".to_string()) }),
    }));
    match handle_size_command(SizeEvent::Inspected(named)) {
        Ok(SizeStep::MeasureProject(id)) => assert_eq!(id.name(), "tool"),
        other => panic!("{:?}", other),
    }
}

#[test]
fn report_without_a_target_root() {
    assert_eq!(
        show_all_project_sizes(None),
        Ok(lines(&["No cached target directories found"]))
    );
    assert_eq!(
        handle_size_command(SizeEvent::MeasuredAll(None)),
        Ok(SizeStep::Report(lines(&["No cached target directories found"])))
    );
}

#[test]
fn report_on_an_empty_target_root() {
    assert_eq!(
        show_all_project_sizes(Some(&vec![])),
        Ok(lines(&["All cached project target directories:", "Total cache size: 0 B"]))
    );
}

#[test]
fn report_on_several_projects() {
    let root = vec![
        cached("alpha-1234567", &[10, 20, 30]),
        cached("beta-89abcde", &[1024, 512]),
        cached("empty-0000000", &[]),
    ];
    let expected = lines(&[
        "All cached project target directories:",
        "  alpha-1234567: 60 B",
        "  beta-89abcde: 1.50 KiB",
        "  empty-0000000: 0 B",
        "Total cache size: 1.56 KiB",
    ]);
    assert_eq!(show_all_project_sizes(Some(&root)), Ok(lines(&expected.iter().map(|l| l.as_str()).collect::<Vec<_>>())));
    assert_eq!(handle_size_command(SizeEvent::MeasuredAll(Some(root))), Ok(SizeStep::Report(expected)));
}

#[test]
fn report_fails_where_the_total_is_too_large() {
    let root = vec![cached("a", &[u64::MAX]), cached("b", &[1])];
    assert_eq!(show_all_project_sizes(Some(&root)), Err(ScanError::TotalTooLarge));
    assert_eq!(handle_size_command(SizeEvent::MeasuredAll(Some(root))), Err(ScanError::TotalTooLarge));
    let one = vec![cached("a", &[u64::MAX, 1])];
    assert_eq!(show_all_project_sizes(Some(&one)), Err(ScanError::TotalTooLarge));
    let fits = vec![cached("a", &[u64::MAX - 1]), cached("b", &[1])];
    assert_eq!(
        show_all_project_sizes(Some(&fits)),
        Ok(lines(&[
            "All cached project target directories:",
            "  a: 17179869184.00 GiB",
            "  b: 1 B",
            "Total cache size: 17179869184.00 GiB",
        ]))
    );
}

#[test]
fn report_on_the_current_project() {
    let id = ProjectIdentifier::new(&dir(ManifestFile::Unreadable));
    let listing = vec![FsNode::File { len: 3 * 1024 * 1024 }];
    assert_eq!(
        show_project_size(&id, Some(&listing)),
        Ok("Current project 'demo' target size: 3.00 MiB".to_string())
    );
    assert_eq!(
        handle_size_command(SizeEvent::MeasuredProject { id: id.clone(), entries: Some(listing) }),
        Ok(SizeStep::Report(lines(&["Current project 'demo' target size: 3.00 MiB"])))
    );
    assert_eq!(
        show_project_size(&id, None),
        Ok("Current project 'demo' has no cached target directory".to_string())
    );
    assert_eq!(
        handle_size_command(SizeEvent::MeasuredProject { id: id.clone(), entries: None }),
        Ok(SizeStep::Report(lines(&["Current project 'demo' has no cached target directory"])))
    );
    let huge = vec![FsNode::File { len: u64::MAX }, FsNode::File { len: 1 }];
    assert_eq!(show_project_size(&id, Some(&huge)), Err(ScanError::TotalTooLarge));
    assert_eq!(
        handle_size_command(SizeEvent::MeasuredProject { id, entries: Some(huge) }),
        Err(ScanError::TotalTooLarge)
    );
}

#[test]
fn size_after_a_purge_of_everything_is_zero() {
    // A purge of everything leaves the target root in place and empty.
    assert_eq!(
        handle_size_command(SizeEvent::MeasuredAll(Some(vec![]))),
        Ok(SizeStep::Report(lines(&[
            "All cached project target directories:",
            "Total cache size: 0 B",
        ])))
    );
}
