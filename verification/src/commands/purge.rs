//! The `purge` command: which directory goes, and what the user is asked
//! and told.
//!
//! Purging is a conversation. The caller reports what happened as a
//! [`PurgeEvent`], and [`handle_purge_command`] answers with the next
//! [`PurgeStep`], which holds all that the next event has to bring along. The
//! caller removes a directory where a step tells it to, and nowhere else.

use crate::format::{format_size, size_text};
use crate::project::{ProjectDir, ProjectIdentifier, ProjectIdentifierView, identity_of};
use crate::scan::{FsNode, ScanError, calculate_directory_size, entries_total, listing_of};
use crate::text::{lowercased, str_eq, trimmed};
use vstd::prelude::*;
use vstd::string::StringExecFns;

verus! {

/// What is to be purged.
#[derive(Debug, PartialEq, Eq)]
pub enum PurgeTarget {
    /// The cache directory of one project.
    Project(ProjectIdentifier),
    /// The whole target root.
    Everything,
}

/// A [`PurgeTarget`] as plain values.
pub enum PurgeTargetView {
    Project(ProjectIdentifierView),
    Everything,
}

impl View for PurgeTarget {
    type V = PurgeTargetView;

    open spec fn view(&self) -> PurgeTargetView {
        match *self {
            PurgeTarget::Project(id) => PurgeTargetView::Project(id@),
            PurgeTarget::Everything => PurgeTargetView::Everything,
        }
    }
}

/// What the caller reports.
#[derive(Debug, PartialEq, Eq)]
pub enum PurgeEvent {
    /// The command was given, with its two flags.
    Requested { all: bool, yes: bool },
    /// The current directory was looked at.
    Inspected { project: ProjectDir, yes: bool },
    /// The directory of `target` was listed; there are no `entries` where
    /// there is no such directory.
    Measured { target: PurgeTarget, yes: bool, entries: Option<Vec<FsNode>> },
    /// The user answered the question with the line `input`.
    Answered { target: PurgeTarget, size: u64, input: String },
}

/// What the caller does next.
#[derive(Debug, PartialEq, Eq)]
pub enum PurgeStep {
    /// Look at the current directory, and report it as `Inspected`.
    InspectProject { yes: bool },
    /// List the directory of `target`, and report it as `Measured`.
    Measure { target: PurgeTarget, yes: bool },
    /// Ask the user with `prompt`, and report the answer as `Answered`.
    Ask { target: PurgeTarget, size: u64, prompt: String },
    /// Remove the directory of `target`, and with `recreate` make it anew and
    /// empty. Then tell the user, and stop.
    Remove { target: PurgeTarget, recreate: bool, message: String },
    /// There is nothing to purge; tell the user, and stop.
    NothingCached { message: String },
    /// The user declined; remove nothing, tell the user, and stop.
    Cancelled { message: String },
}

/// A [`PurgeStep`] as plain values.
pub enum PurgeStepView {
    InspectProject { yes: bool },
    Measure { target: PurgeTargetView, yes: bool },
    Ask { target: PurgeTargetView, size: nat, prompt: Seq<char> },
    Remove { target: PurgeTargetView, recreate: bool, message: Seq<char> },
    NothingCached { message: Seq<char> },
    Cancelled { message: Seq<char> },
}

impl View for PurgeStep {
    type V = PurgeStepView;

    open spec fn view(&self) -> PurgeStepView {
        match *self {
            PurgeStep::InspectProject { yes } => PurgeStepView::InspectProject { yes },
            PurgeStep::Measure { target, yes } => PurgeStepView::Measure { target: target@, yes },
            PurgeStep::Ask { target, size, prompt } => PurgeStepView::Ask {
                target: target@,
                size: size as nat,
                prompt: prompt@,
            },
            PurgeStep::Remove { target, recreate, message } => PurgeStepView::Remove {
                target: target@,
                recreate,
                message: message@,
            },
            PurgeStep::NothingCached { message } => PurgeStepView::NothingCached {
                message: message@,
            },
            PurgeStep::Cancelled { message } => PurgeStepView::Cancelled { message: message@ },
        }
    }
}

/// Whether an answer, trimmed and in lower case, says yes.
pub open spec fn says_yes(answer: Seq<char>) -> bool {
    answer == "y"@ || answer == "yes"@
}

/// Whether a line that the user typed confirms the purge.
pub open spec fn confirms(input: Seq<char>) -> bool {
    says_yes(lowercased(trimmed(input)))
}

/// What the user is told where nothing is cached.
pub open spec fn nothing_cached_text(target: PurgeTargetView) -> Seq<char> {
    match target {
        PurgeTargetView::Project(id) => "Current project '"@ + id.name
            + "' has no cached target directory to purge"@,
        PurgeTargetView::Everything => "No cached target directories found to purge"@,
    }
}

/// The question that the user is asked before `size` bytes go.
pub open spec fn prompt_text(target: PurgeTargetView, size: nat) -> Seq<char> {
    match target {
        PurgeTargetView::Project(id) => "Are you sure you want to purge project '"@ + id.name
            + "' cache ("@ + size_text(size) + ")? (y/N): "@,
        PurgeTargetView::Everything =>
            "Are you sure you want to purge ALL cached target directories ("@ + size_text(size)
                + ")? (y/N): "@,
    }
}

/// What the user is told once `size` bytes are gone.
pub open spec fn purged_text(target: PurgeTargetView, size: nat) -> Seq<char> {
    match target {
        PurgeTargetView::Project(id) => "Purged current project '"@ + id.name + "' cache (freed "@
            + size_text(size) + ")"@,
        PurgeTargetView::Everything => "Purged all cached target directories (freed "@ + size_text(
            size,
        ) + ")"@,
    }
}

/// The step that removes the directory of `target`, which holds `size` bytes.
/// The target root is made anew, so that it is there for the next build; a
/// project's directory is not.
pub open spec fn removal(target: PurgeTargetView, size: nat) -> PurgeStepView {
    PurgeStepView::Remove {
        target,
        recreate: target is Everything,
        message: purged_text(target, size),
    }
}

/// What the user is told after declining.
pub open spec fn cancelled_text() -> Seq<char> {
    "Purge cancelled."@
}

/// The step for a directory with the listing `entries`, or for none where
/// the directory does not exist: nothing to do without a directory, removal
/// where `yes` was given, else a question.
pub open spec fn step_after_measuring(
    target: PurgeTargetView,
    yes: bool,
    entries: Option<Seq<FsNode>>,
) -> PurgeStepView {
    match entries {
        None => PurgeStepView::NothingCached { message: nothing_cached_text(target) },
        Some(entries) => {
            let size = entries_total(entries);
            if yes {
                removal(target, size)
            } else {
                PurgeStepView::Ask { target, size, prompt: prompt_text(target, size) }
            }
        },
    }
}

/// The step after the user typed `input`: removal where the line confirms,
/// else nothing.
pub open spec fn step_after_answer(
    target: PurgeTargetView,
    size: nat,
    input: Seq<char>,
) -> PurgeStepView {
    if confirms(input) {
        removal(target, size)
    } else {
        PurgeStepView::Cancelled { message: cancelled_text() }
    }
}

/// The step that answers each event.
pub open spec fn purge_transition(event: PurgeEvent) -> PurgeStepView {
    match event {
        PurgeEvent::Requested { all, yes } => if all {
            PurgeStepView::Measure { target: PurgeTargetView::Everything, yes }
        } else {
            PurgeStepView::InspectProject { yes }
        },
        PurgeEvent::Inspected { project, yes } => PurgeStepView::Measure {
            target: PurgeTargetView::Project(identity_of(project)),
            yes,
        },
        PurgeEvent::Measured { target, yes, entries } => step_after_measuring(
            target@,
            yes,
            listing_of(entries),
        ),
        PurgeEvent::Answered { target, size, input } => step_after_answer(
            target@,
            size as nat,
            input@,
        ),
    }
}

/// Whether the directory that an event reports holds more bytes than a `u64`
/// counts.
pub open spec fn too_large_to_count(event: PurgeEvent) -> bool {
    event matches PurgeEvent::Measured { entries: Some(entries), .. } && entries_total(entries@)
        > u64::MAX
}

/// Whether `answer`, already trimmed and in lower case, is `y` or `yes`.
pub fn is_yes(answer: &str) -> (yes: bool)
    ensures
        yes == says_yes(answer@),
{
    str_eq(answer, "y") || str_eq(answer, "yes")
}

/// Whether the line that the user typed confirms the purge: whether it is
/// `y` or `yes` once the white space around it is gone, in any mix of upper
/// and lower case.
pub fn confirm_purge(input: &str) -> (confirmed: bool)
    ensures
        confirmed == confirms(input@),
{
    let answer = input.trim().to_lowercase();
    is_yes(answer.as_str())
}

/// The line that tells the user that nothing is cached.
fn nothing_cached_message(target: &PurgeTarget) -> (message: String)
    ensures
        message@ == nothing_cached_text(target@),
{
    match target {
        PurgeTarget::Project(id) => {
            let mut message = String::from_str("Current project '");
            message.append(id.name());
            message.append("' has no cached target directory to purge");
            message
        },
        PurgeTarget::Everything => String::from_str("No cached target directories found to purge"),
    }
}

/// The question before the purge.
fn prompt_message(target: &PurgeTarget, size: u64) -> (message: String)
    ensures
        message@ == prompt_text(target@, size as nat),
{
    let shown = format_size(size);
    match target {
        PurgeTarget::Project(id) => {
            let mut message = String::from_str("Are you sure you want to purge project '");
            message.append(id.name());
            message.append("' cache (");
            message.append(shown.as_str());
            message.append(")? (y/N): ");
            message
        },
        PurgeTarget::Everything => {
            let mut message = String::from_str(
                "Are you sure you want to purge ALL cached target directories (",
            );
            message.append(shown.as_str());
            message.append(")? (y/N): ");
            message
        },
    }
}

/// The step that removes the directory of `target`.
fn remove(target: PurgeTarget, size: u64) -> (step: PurgeStep)
    ensures
        step@ == removal(target@, size as nat),
{
    let message = purged_message(&target, size);
    let recreate = match &target {
        PurgeTarget::Project(_) => false,
        PurgeTarget::Everything => true,
    };
    PurgeStep::Remove { target, recreate, message }
}

/// The line after the purge.
fn purged_message(target: &PurgeTarget, size: u64) -> (message: String)
    ensures
        message@ == purged_text(target@, size as nat),
{
    let shown = format_size(size);
    match target {
        PurgeTarget::Project(id) => {
            let mut message = String::from_str("Purged current project '");
            message.append(id.name());
            message.append("' cache (freed ");
            message.append(shown.as_str());
            message.append(")");
            message
        },
        PurgeTarget::Everything => {
            let mut message = String::from_str("Purged all cached target directories (freed ");
            message.append(shown.as_str());
            message.append(")");
            message
        },
    }
}

/// The step for `target`, whose directory has the listing `entries`, or
/// does not exist where there is none.
///
/// Fails where the directory holds more bytes than a `u64` counts, and only
/// there.
pub fn purge_measured(target: PurgeTarget, yes: bool, entries: Option<&Vec<FsNode>>) -> (step:
    Result<PurgeStep, ScanError>)
    ensures
        match entries {
            Some(entries) if entries_total(entries@) > u64::MAX => step == Err::<
                PurgeStep,
                ScanError,
            >(ScanError::TotalTooLarge),
            Some(entries) => step matches Ok(s) && s@ == step_after_measuring(
                target@,
                yes,
                Some(entries@),
            ),
            None => step matches Ok(s) && s@ == step_after_measuring(target@, yes, None),
        },
{
    match entries {
        None => Ok(PurgeStep::NothingCached { message: nothing_cached_message(&target) }),
        Some(entries) => {
            match calculate_directory_size(entries) {
                Err(e) => Err(e),
                Ok(size) => {
                    if yes {
                        Ok(remove(target, size))
                    } else {
                        let prompt = prompt_message(&target, size);
                        Ok(PurgeStep::Ask { target, size, prompt })
                    }
                },
            }
        },
    }
}

/// The step for `target` after the user answered the question with the line
/// `input`: removal where the line confirms, else nothing.
pub fn purge_answered(target: PurgeTarget, size: u64, input: &str) -> (step: PurgeStep)
    ensures
        step@ == step_after_answer(target@, size as nat, input@),
{
    if confirm_purge(input) {
        remove(target, size)
    } else {
        PurgeStep::Cancelled { message: String::from_str("Purge cancelled.") }
    }
}

/// Decides what the command does after `event`.
///
/// With `all` the whole target root is measured, else the cache directory of
/// the project in the current directory. Where the directory does not exist
/// there is nothing to do. Else it is removed: at once where `yes` was given,
/// after a question that the user confirmed where not.
///
/// Fails where the directory that was measured holds more bytes than a `u64`
/// counts, and only there.
pub fn handle_purge_command(event: PurgeEvent) -> (step: Result<PurgeStep, ScanError>)
    ensures
        too_large_to_count(event) ==> step == Err::<PurgeStep, ScanError>(
            ScanError::TotalTooLarge,
        ),
        !too_large_to_count(event) ==> (step matches Ok(s) && s@ == purge_transition(event)),
{
    match event {
        PurgeEvent::Requested { all, yes } => {
            if all {
                Ok(PurgeStep::Measure { target: PurgeTarget::Everything, yes })
            } else {
                Ok(PurgeStep::InspectProject { yes })
            }
        },
        PurgeEvent::Inspected { project, yes } => {
            let target = PurgeTarget::Project(ProjectIdentifier::new(&project));
            Ok(PurgeStep::Measure { target, yes })
        },
        PurgeEvent::Measured { target, yes, entries } => match &entries {
            Some(listing) => purge_measured(target, yes, Some(listing)),
            None => purge_measured(target, yes, None),
        },
        PurgeEvent::Answered { target, size, input } => Ok(
            purge_answered(target, size, input.as_str()),
        ),
    }
}

/// The listing of a step's directory after the step was carried out, for
/// the listing `cache` before it, where `None` stands for no directory. Only
/// a removal changes anything: the directory is gone, or empty where it was
/// made anew.
pub open spec fn cache_after(step: PurgeStepView, cache: Option<Seq<FsNode>>) -> Option<
    Seq<FsNode>,
> {
    match step {
        PurgeStepView::Remove { recreate, .. } => if recreate {
            Some(Seq::empty())
        } else {
            None
        },
        _ => cache,
    }
}

/// An answer that does not confirm leaves the cache directory as it was, and
/// with it its size.
pub proof fn lemma_declined_purge_changes_nothing(
    target: PurgeTarget,
    size: u64,
    input: String,
    cache: Option<Seq<FsNode>>,
)
    requires
        !confirms(input@),
    ensures
        purge_transition(PurgeEvent::Answered { target, size, input }) is Cancelled,
        cache_after(purge_transition(PurgeEvent::Answered { target, size, input }), cache)
            == cache,
{
}

/// Nothing is removed without consent: a step removes only after an answer
/// that confirms, or after measuring a directory that is there when `yes`
/// was given.
pub proof fn lemma_removal_needs_consent(event: PurgeEvent)
    ensures
        purge_transition(event) is Remove <==> match event {
            PurgeEvent::Answered { input, .. } => confirms(input@),
            PurgeEvent::Measured { yes, entries, .. } => yes && entries is Some,
            _ => false,
        },
{
}

/// A question that the user confirms leads to the removal that `yes` would
/// have led to at once.
pub proof fn lemma_confirmation_stands_for_yes(
    target: PurgeTarget,
    entries: Vec<FsNode>,
    input: String,
)
    requires
        confirms(input@),
        entries_total(entries@) <= u64::MAX,
    ensures
        purge_transition(PurgeEvent::Measured { target, yes: false, entries: Some(entries) })
            is Ask,
        purge_transition(
            PurgeEvent::Answered { target, size: entries_total(entries@) as u64, input },
        ) == purge_transition(PurgeEvent::Measured { target, yes: true, entries: Some(entries) }),
{
}

/// A purge of everything leaves the target root in place and empty, with a
/// total of 0 bytes, whether it was confirmed or asked for with `yes`.
pub proof fn lemma_purged_root_is_empty(event: PurgeEvent, cache: Option<Seq<FsNode>>)
    requires
        purge_transition(event) matches PurgeStepView::Remove { target, .. } && target
            is Everything,
    ensures
        cache_after(purge_transition(event), cache) == Some(Seq::<FsNode>::empty()),
        entries_total(cache_after(purge_transition(event), cache)->0) == 0,
{
}

} // verus!
