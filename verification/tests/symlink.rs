use rcargo::symlink::{
    create_target_symlink, link_disabled, link_name_or_default, LinkAction, LinkEvent, LinkKind,
    LinkNotice, LinkState, LinkStep,
};

fn requested(opt_out: Option<&str>, link_name: Option<&str>) -> LinkEvent {
    LinkEvent::Requested {
        opt_out: opt_out.map(|v| v.to_string()),
        link_name: link_name.map(|v| v.to_string()),
    }
}

fn observe(name: &str) -> LinkStep {
    LinkStep { action: LinkAction::Observe { link_name: name.to_string() }, notice: None }
}

fn quiet(action: LinkAction) -> LinkStep {
    LinkStep { action, notice: None }
}

#[test]
fn opt_out_values() {
    for value in ["1", "true", "TRUE", "True", "tRuE"] {
        assert!(link_disabled(value), "{}", value);
    }
    for value in ["", "0", "11", "yes", "false", "tru", "truee", " true", "true ", "t", "trüe", "on"] {
        assert!(!link_disabled(value), "{:?}", value);
    }
}

#[test]
fn link_name_defaults() {
    assert_eq!(link_name_or_default(None), "target_rcargo");
    assert_eq!(link_name_or_default(Some("")), "target_rcargo");
    assert_eq!(link_name_or_default(Some("target")), "target");
    assert_eq!(link_name_or_default(Some(" ")), " ");
}

#[test]
fn request_leads_to_a_look_at_the_link() {
    assert_eq!(create_target_symlink(requested(None, None)), observe("target_rcargo"));
    assert_eq!(create_target_symlink(requested(Some("0"), Some("out"))), observe("out"));
    assert_eq!(create_target_symlink(requested(Some(""), Some(""))), observe("target_rcargo"));
}

#[test]
fn opt_out_stops_at_once() {
    assert_eq!(create_target_symlink(requested(Some("1"), None)), quiet(LinkAction::Stop));
    assert_eq!(create_target_symlink(requested(Some("True"), Some("out"))), quiet(LinkAction::Stop));
}

#[test]
fn creating_twice_is_idempotent() {
    let first = create_target_symlink(LinkEvent::Observed(LinkState::Missing));
    assert_eq!(first, quiet(LinkAction::Create));
    let made = create_target_symlink(LinkEvent::Created(LinkKind::Symlink));
    assert_eq!(
        made,
        LinkStep { action: LinkAction::Stop, notice: Some(LinkNotice::Created(LinkKind::Symlink)) }
    );
    let second = create_target_symlink(LinkEvent::Observed(LinkState::Symlink { same_target: true }));
    assert_eq!(second, quiet(LinkAction::Stop));
}

#[test]
fn a_new_target_updates_the_link() {
    let seen = create_target_symlink(LinkEvent::Observed(LinkState::Symlink { same_target: false }));
    assert_eq!(seen, quiet(LinkAction::Remove));
    assert_eq!(create_target_symlink(LinkEvent::Removed), quiet(LinkAction::Create));
}

#[test]
fn a_failed_removal_is_a_warning_and_creation_is_still_tried() {
    let step = create_target_symlink(LinkEvent::RemoveFailed { error: "denied".to_string() });
    assert_eq!(step.action, LinkAction::Create);
    let notice = step.notice.unwrap();
    assert!(notice.is_warning());
    assert_eq!(
        notice.text("/p/target_rcargo", "/tmp/t/p-1234567"),
        "Warning: Failed to remove existing symlink at '/p/target_rcargo': denied. Proceeding to create new one."
    );
}

#[test]
fn a_plain_file_is_never_touched() {
    let step = create_target_symlink(LinkEvent::Observed(LinkState::File));
    assert_eq!(step.action, LinkAction::Stop);
    let notice = step.notice.unwrap();
    assert_eq!(notice, LinkNotice::FileInTheWay);
    assert!(notice.is_warning());
    assert_eq!(
        notice.text("/p/target_rcargo", "/tmp/t/p-1234567"),
        "Warning: '/p/target_rcargo' already exists and is a file. Skipping symlink creation."
    );
}

#[test]
fn a_directory_is_never_touched() {
    let step = create_target_symlink(LinkEvent::Observed(LinkState::Directory));
    assert_eq!(step.action, LinkAction::Stop);
    assert_eq!(
        step.notice.unwrap().text("link", "target"),
        "Warning: 'link' already exists and is a directory. Skipping symlink creation."
    );
}

#[test]
fn anything_else_is_never_touched() {
    let step = create_target_symlink(LinkEvent::Observed(LinkState::Special));
    assert_eq!(step.action, LinkAction::Stop);
    assert_eq!(
        step.notice.unwrap().text("link", "target"),
        "Warning: 'link' exists and is not a file, directory, or symlink. Skipping symlink creation."
    );
}

#[test]
fn unreadable_metadata_is_a_warning_and_creation_is_still_tried() {
    let step = create_target_symlink(LinkEvent::Observed(LinkState::Unreadable {
        error: "Permission denied (os error 13)".to_string(),
    }));
    assert_eq!(step.action, LinkAction::Create);
    let notice = step.notice.unwrap();
    assert!(notice.is_warning());
    assert_eq!(
        notice.text("link", "target"),
        "Warning: Failed to get metadata for 'link': Permission denied (os error 13). Attempting to create symlink anyway."
    );
}

#[test]
fn creation_is_reported() {
    let plain = LinkNotice::Created(LinkKind::Symlink);
    assert!(!plain.is_warning());
    assert_eq!(plain.text("a", "b"), "RCargo: Created symlink 'a' -> 'b'");
    let directory = LinkNotice::Created(LinkKind::DirectorySymlink);
    assert!(!directory.is_warning());
    assert_eq!(directory.text("a", "b"), "RCargo: Created directory symlink 'a' -> 'b'");
}

#[test]
fn failed_creation_is_a_warning_and_the_end() {
    let step = create_target_symlink(LinkEvent::CreateFailed {
        kind: LinkKind::Symlink,
        error: "File exists (os error 17)".to_string(),
    });
    assert_eq!(step.action, LinkAction::Stop);
    let notice = step.notice.unwrap();
    assert!(notice.is_warning());
    assert_eq!(
        notice.text("a", "b"),
        "Warning: Failed to create symlink 'a' -> 'b'. Error: File exists (os error 17)"
    );
    let windows = LinkNotice::CreateFailed { kind: LinkKind::DirectorySymlink, error: "no".to_string() };
    assert_eq!(
        windows.text("a", "b"),
        "Warning: Failed to create symlink 'a' -> 'b'. Error: no. On Windows, this might require administrator privileges or Developer Mode to be enabled."
    );
}

#[test]
fn a_platform_without_symlinks_gets_a_warning() {
    let step = create_target_symlink(LinkEvent::Unsupported);
    assert_eq!(step.action, LinkAction::Stop);
    let notice = step.notice.unwrap();
    assert!(notice.is_warning());
    assert_eq!(
        notice.text("a", "b"),
        "Warning: Symlink creation for 'a' is not supported on this platform. Skipping."
    );
}

#[test]
fn only_a_stale_link_is_removed() {
    let events = vec![
        requested(None, None),
        requested(Some("1"), None),
        LinkEvent::Observed(LinkState::Missing),
        LinkEvent::Observed(LinkState::Symlink { same_target: true }),
        LinkEvent::Observed(LinkState::File),
        LinkEvent::Observed(LinkState::Directory),
        LinkEvent::Observed(LinkState::Special),
        LinkEvent::Observed(LinkState::Unreadable { error: "e".to_string() }),
        LinkEvent::Removed,
        LinkEvent::RemoveFailed { error: "e".to_string() },
        LinkEvent::Created(LinkKind::Symlink),
        LinkEvent::CreateFailed { kind: LinkKind::Symlink, error: "e".to_string() },
        LinkEvent::Unsupported,
    ];
    for event in events {
        assert_ne!(create_target_symlink(event).action, LinkAction::Remove);
    }
}
