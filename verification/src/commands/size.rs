//! The `size` command: which directories are measured, and the lines that
//! report their sizes.
//!
//! The caller reports what happened as a [`SizeEvent`], and
//! [`handle_size_command`] answers with the next [`SizeStep`], until that
//! step is the report.

use crate::format::{decimal, format_size, size_text};
use crate::project::{
    ProjectDir,
    ProjectIdentifier,
    ProjectIdentifierView,
    identity_of,
    is_rust_project,
};
use crate::scan::{FsNode, ScanError, calculate_directory_size, entries_total, listing_of};
use vstd::prelude::*;
use vstd::string::StringExecFns;

verus! {

/// A directory directly below the target root: the cache of one project.
#[derive(Debug, PartialEq, Eq)]
pub struct CachedProject {
    /// The directory's file name.
    pub name: String,
    /// The directory's listing.
    pub entries: Vec<FsNode>,
}

/// What the caller reports.
#[derive(Debug, PartialEq, Eq)]
pub enum SizeEvent {
    /// The command was given, with its flag.
    Requested { all: bool },
    /// The current directory was looked at.
    Inspected(ProjectDir),
    /// The directories below the target root were listed; there are none of
    /// them where there is no target root.
    MeasuredAll(Option<Vec<CachedProject>>),
    /// The cache directory of the project `id` was listed; there are no
    /// `entries` where there is no such directory.
    MeasuredProject { id: ProjectIdentifier, entries: Option<Vec<FsNode>> },
}

/// What the caller does next.
#[derive(Debug, PartialEq, Eq)]
pub enum SizeStep {
    /// Look at the current directory, and report it as `Inspected`.
    InspectProject,
    /// List every directory below the target root, and report them as
    /// `MeasuredAll`.
    MeasureAll,
    /// List the cache directory of this project, and report it as
    /// `MeasuredProject`.
    MeasureProject(ProjectIdentifier),
    /// Print these lines, and stop.
    Report(Vec<String>),
}

/// A [`SizeStep`] as plain values.
pub enum SizeStepView {
    InspectProject,
    MeasureAll,
    MeasureProject(ProjectIdentifierView),
    Report(Seq<Seq<char>>),
}

impl View for SizeStep {
    type V = SizeStepView;

    open spec fn view(&self) -> SizeStepView {
        match *self {
            SizeStep::InspectProject => SizeStepView::InspectProject,
            SizeStep::MeasureAll => SizeStepView::MeasureAll,
            SizeStep::MeasureProject(id) => SizeStepView::MeasureProject(id@),
            SizeStep::Report(lines) => SizeStepView::Report(lines.deep_view()),
        }
    }
}

/// The first line of the report on all projects.
pub open spec fn all_sizes_heading() -> Seq<char> {
    "All cached project target directories:"@
}

/// The bytes in all of `cached`.
pub open spec fn projects_total(cached: Seq<CachedProject>) -> nat
    decreases cached.len(),
{
    if cached.len() == 0 {
        0
    } else {
        projects_total(cached.drop_last()) + entries_total(cached.last().entries@)
    }
}

/// The report's line on one project.
pub open spec fn project_line(project: CachedProject) -> Seq<char> {
    "  "@ + project.name@ + ": "@ + size_text(entries_total(project.entries@))
}

/// The report's last line.
pub open spec fn total_line(total: nat) -> Seq<char> {
    "Total cache size: "@ + size_text(total)
}

/// The report on all projects: a heading, a line for each project in the
/// order of the listing, and the total. Without a target root it is one line
/// that says so.
pub open spec fn all_sizes_report(cached: Option<Seq<CachedProject>>) -> Seq<Seq<char>> {
    match cached {
        None => seq!["No cached target directories found"@],
        Some(cached) => seq![all_sizes_heading()] + Seq::new(
            cached.len(),
            |i: int| project_line(cached[i]),
        ) + seq![total_line(projects_total(cached))],
    }
}

/// The report on one project, whose cache directory has the listing
/// `entries`, or does not exist where there is none.
pub open spec fn project_size_report(name: Seq<char>, entries: Option<Seq<FsNode>>) -> Seq<char> {
    match entries {
        Some(entries) => "Current project '"@ + name + "' target size: "@ + size_text(
            entries_total(entries),
        ),
        None => "Current project '"@ + name + "' has no cached target directory"@,
    }
}

/// The listing of an event's projects, as plain values.
pub open spec fn projects_of(cached: Option<Vec<CachedProject>>) -> Option<Seq<CachedProject>> {
    match cached {
        Some(cached) => Some(cached@),
        None => None,
    }
}

/// The step that answers each event. With `all` every project is measured;
/// without it the project in the current directory, or every project where
/// the current directory holds none.
pub open spec fn size_transition(event: SizeEvent) -> SizeStepView {
    match event {
        SizeEvent::Requested { all } => if all {
            SizeStepView::MeasureAll
        } else {
            SizeStepView::InspectProject
        },
        SizeEvent::Inspected(project) => if project.manifest is Missing {
            SizeStepView::MeasureAll
        } else {
            SizeStepView::MeasureProject(identity_of(project))
        },
        SizeEvent::MeasuredAll(cached) => SizeStepView::Report(
            all_sizes_report(projects_of(cached)),
        ),
        SizeEvent::MeasuredProject { id, entries } => SizeStepView::Report(
            seq![project_size_report(id@.name, listing_of(entries))],
        ),
    }
}

/// Whether what an event reports holds more bytes than a `u64` counts.
pub open spec fn too_large_to_count(event: SizeEvent) -> bool {
    match event {
        SizeEvent::MeasuredAll(Some(cached)) => projects_total(cached@) > u64::MAX,
        SizeEvent::MeasuredProject { entries: Some(entries), .. } => entries_total(entries@)
            > u64::MAX,
        _ => false,
    }
}

/// The step after a look at the current directory: where it holds a project,
/// that project is measured, else all are.
pub fn size_step_for(project: &ProjectDir) -> (step: SizeStep)
    ensures
        step@ == if project.manifest is Missing {
            SizeStepView::MeasureAll
        } else {
            SizeStepView::MeasureProject(identity_of(*project))
        },
{
    if is_rust_project(project) {
        SizeStep::MeasureProject(ProjectIdentifier::new(project))
    } else {
        SizeStep::MeasureAll
    }
}

/// The total of a listing of projects is at least the total of each of its
/// beginnings.
pub proof fn lemma_projects_total_grows(cached: Seq<CachedProject>, n: int)
    requires
        0 <= n <= cached.len(),
    ensures
        projects_total(cached.take(n)) <= projects_total(cached),
    decreases cached.len() - n,
{
    if n < cached.len() {
        assert(cached.take(n + 1).drop_last() =~= cached.take(n));
        lemma_projects_total_grows(cached, n + 1);
    } else {
        assert(cached.take(n) =~= cached);
    }
}

/// The lines that report the size of every project below the target root,
/// for the root's listing `cached`, or for none where there is no root.
///
/// Fails where the projects together hold more bytes than a `u64` counts, and
/// only there.
pub fn show_all_project_sizes(cached: Option<&Vec<CachedProject>>) -> (report: Result<
    Vec<String>,
    ScanError,
>)
    ensures
        match cached {
            Some(cached) if projects_total(cached@) > u64::MAX => report == Err::<
                Vec<String>,
                ScanError,
            >(ScanError::TotalTooLarge),
            Some(cached) => report matches Ok(lines) && lines.deep_view() == all_sizes_report(
                Some(cached@),
            ),
            None => report matches Ok(lines) && lines.deep_view() == all_sizes_report(None),
        },
{
    let mut lines: Vec<String> = Vec::new();
    let projects = match cached {
        None => {
            lines.push(String::from_str("No cached target directories found"));
            assert(lines.deep_view() =~= all_sizes_report(None));
            return Ok(lines);
        },
        Some(projects) => projects,
    };
    lines.push(String::from_str("All cached project target directories:"));
    let mut total: u64 = 0;
    let mut i: usize = 0;
    while i < projects.len()
        invariant
            cached == Some(projects),
            i <= projects.len(),
            total == projects_total(projects@.take(i as int)),
            lines@.len() == i + 1,
            lines@[0]@ == all_sizes_heading(),
            forall|k: int| 0 <= k < i ==> (#[trigger] lines@[k + 1])@ == project_line(projects@[k]),
        decreases projects.len() - i,
    {
        let project = &projects[i];
        proof {
            assert(projects@.take(i + 1).drop_last() =~= projects@.take(i as int));
            assert(projects@.take(i + 1).last() == projects@[i as int]);
            assert(projects_total(projects@.take(i + 1)) == total + entries_total(project.entries@));
            lemma_projects_total_grows(projects@, i + 1);
        }
        let size = match calculate_directory_size(&project.entries) {
            Ok(size) => size,
            Err(e) => {
                return Err(e);
            },
        };
        total = match total.checked_add(size) {
            Some(sum) => sum,
            None => {
                return Err(ScanError::TotalTooLarge);
            },
        };
        let mut line = String::from_str("  ");
        line.append(project.name.as_str());
        line.append(": ");
        line.append(format_size(size).as_str());
        lines.push(line);
        i += 1;
    }
    let mut last = String::from_str("Total cache size: ");
    last.append(format_size(total).as_str());
    lines.push(last);
    proof {
        assert(projects@.take(i as int) =~= projects@);
        let report = all_sizes_report(Some(projects@));
        assert(lines.deep_view().len() == report.len());
        assert forall|k: int| 0 <= k < report.len() implies lines.deep_view()[k] == report[k] by {
            if 1 <= k <= i {
                assert(lines@[(k - 1) + 1]@ == project_line(projects@[k - 1]));
            }
        }
        assert(lines.deep_view() =~= report);
    }
    Ok(lines)
}

/// The line that reports the size of one project's cache directory, which has
/// the listing `entries`, or does not exist where there is none.
///
/// Fails where the directory holds more bytes than a `u64` counts, and only
/// there.
pub fn show_project_size(id: &ProjectIdentifier, entries: Option<&Vec<FsNode>>) -> (report: Result<
    String,
    ScanError,
>)
    ensures
        match entries {
            Some(entries) if entries_total(entries@) > u64::MAX => report == Err::<
                String,
                ScanError,
            >(ScanError::TotalTooLarge),
            Some(entries) => report matches Ok(line) && line@ == project_size_report(
                id@.name,
                Some(entries@),
            ),
            None => report matches Ok(line) && line@ == project_size_report(id@.name, None),
        },
{
    let mut line = String::from_str("Current project '");
    line.append(id.name());
    match entries {
        Some(entries) => {
            let size = match calculate_directory_size(entries) {
                Ok(size) => size,
                Err(e) => {
                    return Err(e);
                },
            };
            line.append("' target size: ");
            line.append(format_size(size).as_str());
        },
        None => {
            line.append("' has no cached target directory");
        },
    }
    Ok(line)
}

/// Decides what the command does after `event`, and writes the report once
/// the directories have been listed.
///
/// Fails where what was listed holds more bytes than a `u64` counts, and only
/// there.
pub fn handle_size_command(event: SizeEvent) -> (step: Result<SizeStep, ScanError>)
    ensures
        too_large_to_count(event) ==> step == Err::<SizeStep, ScanError>(ScanError::TotalTooLarge),
        !too_large_to_count(event) ==> (step matches Ok(s) && s@ == size_transition(event)),
{
    match event {
        SizeEvent::Requested { all } => {
            if all {
                Ok(SizeStep::MeasureAll)
            } else {
                Ok(SizeStep::InspectProject)
            }
        },
        SizeEvent::Inspected(project) => Ok(size_step_for(&project)),
        SizeEvent::MeasuredAll(cached) => {
            let report = match &cached {
                Some(projects) => show_all_project_sizes(Some(projects)),
                None => show_all_project_sizes(None),
            };
            match report {
                Ok(lines) => Ok(SizeStep::Report(lines)),
                Err(e) => Err(e),
            }
        },
        SizeEvent::MeasuredProject { id, entries } => {
            let report = match &entries {
                Some(listing) => show_project_size(&id, Some(listing)),
                None => show_project_size(&id, None),
            };
            match report {
                Ok(line) => {
                    let mut lines: Vec<String> = Vec::new();
                    lines.push(line);
                    assert(lines.deep_view() =~= seq![
                        project_size_report(id@.name, listing_of(entries)),
                    ]);
                    Ok(SizeStep::Report(lines))
                },
                Err(e) => Err(e),
            }
        },
    }
}

/// The report on a target root that is there and empty, as a purge of
/// everything leaves it: the heading and a total of `0 B`.
pub proof fn lemma_empty_root_reports_zero()
    ensures
        all_sizes_report(Some(Seq::<CachedProject>::empty())) == seq![
            all_sizes_heading(),
            "Total cache size: "@ + "0 B"@,
        ],
{
    reveal_strlit("0 B");
    reveal_strlit(" B");
    assert(decimal(0) + " B"@ =~= "0 B"@);
    assert(all_sizes_report(Some(Seq::<CachedProject>::empty())) =~= seq![
        all_sizes_heading(),
        "Total cache size: "@ + "0 B"@,
    ]);
}

} // verus!
