//! The convenience symlink from a project directory to its cache directory.
//!
//! Creating the link is a conversation with the file system. The caller reports
//! what happened as a [`LinkEvent`]; [`create_target_symlink`] answers with the
//! next [`LinkAction`] and, where the user should hear of it, a [`LinkNotice`].
//! No failure along the way is fatal: the link is a convenience.

use vstd::prelude::*;
use vstd::string::StrSliceExecFns;
use vstd::string::StringExecFns;

verus! {

/// File name of the link when the environment names no other.
pub const DEFAULT_LINK_NAME: &'static str = "target_rcargo";

/// What was found at the place where the link should be.
#[derive(Debug, PartialEq, Eq)]
pub enum LinkState {
    /// Nothing is there.
    Missing,
    /// A symlink; `same_target` says whether it already leads to the cache directory.
    Symlink { same_target: bool },
    /// A regular file.
    File,
    /// A directory.
    Directory,
    /// Something that is no symlink, file or directory.
    Special,
    /// Something is there, but its metadata could not be read.
    Unreadable { error: String },
}

/// The primitive with which the platform makes the link.
#[derive(Clone, Copy, PartialEq, Eq, Structural, Debug)]
pub enum LinkKind {
    /// A plain symlink.
    Symlink,
    /// A symlink that the platform marks as leading to a directory.
    DirectorySymlink,
}

/// What the caller reports.
#[derive(Debug, PartialEq, Eq)]
pub enum LinkEvent {
    /// The link was asked for; the two values are the environment's opt-out and
    /// its choice of a link name, as far as they are set.
    Requested { opt_out: Option<String>, link_name: Option<String> },
    /// The place of the link was looked at.
    Observed(LinkState),
    /// The stale link is gone.
    Removed,
    /// The stale link could not be removed.
    RemoveFailed { error: String },
    /// The link was made.
    Created(LinkKind),
    /// The link could not be made.
    CreateFailed { kind: LinkKind, error: String },
    /// The platform has no way to make such a link.
    Unsupported,
}

/// What the caller does next.
#[derive(Debug, PartialEq, Eq)]
pub enum LinkAction {
    /// Nothing more.
    Stop,
    /// Look at the place of the link, whose file name is given.
    Observe { link_name: String },
    /// Remove the symlink that is there.
    Remove,
    /// Make the link.
    Create,
}

/// What the user is told.
#[derive(Debug, PartialEq, Eq)]
pub enum LinkNotice {
    /// A regular file stands where the link should be; it stays.
    FileInTheWay,
    /// A directory stands where the link should be; it stays.
    DirectoryInTheWay,
    /// Something else that is no symlink stands where the link should be; it stays.
    SpecialInTheWay,
    /// The metadata could not be read; the link is made all the same.
    MetadataFailed { error: String },
    /// The stale link could not be removed; the link is made all the same.
    RemoveFailed { error: String },
    /// The link was made.
    Created(LinkKind),
    /// The link could not be made.
    CreateFailed { kind: LinkKind, error: String },
    /// The platform cannot make the link.
    Unsupported,
}

/// The answer to one event.
#[derive(Debug, PartialEq, Eq)]
pub struct LinkStep {
    pub action: LinkAction,
    pub notice: Option<LinkNotice>,
}

/// Whether a value of the opt-out variable switches the link off: `1`, or
/// `true` in any mix of upper and lower case.
pub open spec fn is_truthy(value: Seq<char>) -> bool {
    ||| value == seq!['1']
    ||| {
        &&& value.len() == 4
        &&& (value[0] == 't' || value[0] == 'T')
        &&& (value[1] == 'r' || value[1] == 'R')
        &&& (value[2] == 'u' || value[2] == 'U')
        &&& (value[3] == 'e' || value[3] == 'E')
    }
}

/// The link's file name: the environment's choice unless that is unset or empty.
pub open spec fn chosen_link_name(link_name: Option<Seq<char>>) -> Seq<char> {
    match link_name {
        Some(name) if name.len() > 0 => name,
        _ => DEFAULT_LINK_NAME@,
    }
}

/// The view of an action: the link name as characters.
pub enum LinkActionView {
    Stop,
    Observe { link_name: Seq<char> },
    Remove,
    Create,
}

/// The view of a notice.
pub enum LinkNoticeView {
    FileInTheWay,
    DirectoryInTheWay,
    SpecialInTheWay,
    MetadataFailed { error: Seq<char> },
    RemoveFailed { error: Seq<char> },
    Created(LinkKind),
    CreateFailed { kind: LinkKind, error: Seq<char> },
    Unsupported,
}

impl View for LinkAction {
    type V = LinkActionView;

    open spec fn view(&self) -> LinkActionView {
        match *self {
            LinkAction::Stop => LinkActionView::Stop,
            LinkAction::Observe { link_name } => LinkActionView::Observe { link_name: link_name@ },
            LinkAction::Remove => LinkActionView::Remove,
            LinkAction::Create => LinkActionView::Create,
        }
    }
}

impl View for LinkNotice {
    type V = LinkNoticeView;

    open spec fn view(&self) -> LinkNoticeView {
        match *self {
            LinkNotice::FileInTheWay => LinkNoticeView::FileInTheWay,
            LinkNotice::DirectoryInTheWay => LinkNoticeView::DirectoryInTheWay,
            LinkNotice::SpecialInTheWay => LinkNoticeView::SpecialInTheWay,
            LinkNotice::MetadataFailed { error } => LinkNoticeView::MetadataFailed { error: error@ },
            LinkNotice::RemoveFailed { error } => LinkNoticeView::RemoveFailed { error: error@ },
            LinkNotice::Created(kind) => LinkNoticeView::Created(kind),
            LinkNotice::CreateFailed { kind, error } => LinkNoticeView::CreateFailed {
                kind,
                error: error@,
            },
            LinkNotice::Unsupported => LinkNoticeView::Unsupported,
        }
    }
}

impl View for LinkStep {
    type V = (LinkActionView, Option<LinkNoticeView>);

    open spec fn view(&self) -> (LinkActionView, Option<LinkNoticeView>) {
        (
            self.action@,
            match self.notice {
                Some(n) => Some(n@),
                None => None,
            },
        )
    }
}

/// The environment's value as plain characters, where there is one.
pub open spec fn setting(value: Option<String>) -> Option<Seq<char>> {
    match value {
        Some(value) => Some(value@),
        None => None,
    }
}

/// The answer that each event gets.
pub open spec fn link_transition(event: LinkEvent) -> (LinkActionView, Option<LinkNoticeView>) {
    match event {
        LinkEvent::Requested { opt_out, link_name } => {
            if opt_out is Some && is_truthy(opt_out->0@) {
                (LinkActionView::Stop, None)
            } else {
                (LinkActionView::Observe { link_name: chosen_link_name(setting(link_name)) }, None)
            }
        },
        LinkEvent::Observed(state) => match state {
            LinkState::Missing => (LinkActionView::Create, None),
            LinkState::Symlink { same_target } => if same_target {
                (LinkActionView::Stop, None)
            } else {
                (LinkActionView::Remove, None)
            },
            LinkState::File => (LinkActionView::Stop, Some(LinkNoticeView::FileInTheWay)),
            LinkState::Directory => (LinkActionView::Stop, Some(LinkNoticeView::DirectoryInTheWay)),
            LinkState::Special => (LinkActionView::Stop, Some(LinkNoticeView::SpecialInTheWay)),
            LinkState::Unreadable { error } => (
                LinkActionView::Create,
                Some(LinkNoticeView::MetadataFailed { error: error@ }),
            ),
        },
        LinkEvent::Removed => (LinkActionView::Create, None),
        LinkEvent::RemoveFailed { error } => (
            LinkActionView::Create,
            Some(LinkNoticeView::RemoveFailed { error: error@ }),
        ),
        LinkEvent::Created(kind) => (LinkActionView::Stop, Some(LinkNoticeView::Created(kind))),
        LinkEvent::CreateFailed { kind, error } => (
            LinkActionView::Stop,
            Some(LinkNoticeView::CreateFailed { kind, error: error@ }),
        ),
        LinkEvent::Unsupported => (LinkActionView::Stop, Some(LinkNoticeView::Unsupported)),
    }
}

/// Whether `value` switches the link off.
pub fn link_disabled(value: &str) -> (off: bool)
    ensures
        off == is_truthy(value@),
{
    let n = value.unicode_len();
    if n == 1 {
        let c = value.get_char(0);
        proof {
            assert(c == '1' ==> value@ =~= seq!['1']);
        }
        c == '1'
    } else if n == 4 {
        let c0 = value.get_char(0);
        let c1 = value.get_char(1);
        let c2 = value.get_char(2);
        let c3 = value.get_char(3);
        (c0 == 't' || c0 == 'T') && (c1 == 'r' || c1 == 'R') && (c2 == 'u' || c2 == 'U') && (c3
            == 'e' || c3 == 'E')
    } else {
        false
    }
}

/// The file name that the link gets.
pub fn link_name_or_default(link_name: Option<&str>) -> (name: String)
    ensures
        name@ == chosen_link_name(
            match link_name {
                Some(name) => Some(name@),
                None => None,
            },
        ),
{
    match link_name {
        Some(n) => {
            if n.is_empty() {
                String::from_str(DEFAULT_LINK_NAME)
            } else {
                String::from_str(n)
            }
        },
        None => String::from_str(DEFAULT_LINK_NAME),
    }
}

/// Decides what to do about the link after `event`.
///
/// A link that already leads to the cache directory is left alone; one that
/// leads elsewhere is removed and made anew, also where the removal failed. A
/// file, a directory or anything else that is no symlink stays untouched.
pub fn create_target_symlink(event: LinkEvent) -> (step: LinkStep)
    ensures
        step@ == link_transition(event),
{
    match event {
        LinkEvent::Requested { opt_out, link_name } => {
            let off = match &opt_out {
                Some(v) => link_disabled(v.as_str()),
                None => false,
            };
            if off {
                LinkStep { action: LinkAction::Stop, notice: None }
            } else {
                let name = match &link_name {
                    Some(n) => link_name_or_default(Some(n.as_str())),
                    None => link_name_or_default(None),
                };
                LinkStep { action: LinkAction::Observe { link_name: name }, notice: None }
            }
        },
        LinkEvent::Observed(state) => match state {
            LinkState::Missing => LinkStep { action: LinkAction::Create, notice: None },
            LinkState::Symlink { same_target } => {
                if same_target {
                    LinkStep { action: LinkAction::Stop, notice: None }
                } else {
                    LinkStep { action: LinkAction::Remove, notice: None }
                }
            },
            LinkState::File => LinkStep {
                action: LinkAction::Stop,
                notice: Some(LinkNotice::FileInTheWay),
            },
            LinkState::Directory => LinkStep {
                action: LinkAction::Stop,
                notice: Some(LinkNotice::DirectoryInTheWay),
            },
            LinkState::Special => LinkStep {
                action: LinkAction::Stop,
                notice: Some(LinkNotice::SpecialInTheWay),
            },
            LinkState::Unreadable { error } => LinkStep {
                action: LinkAction::Create,
                notice: Some(LinkNotice::MetadataFailed { error }),
            },
        },
        LinkEvent::Removed => LinkStep { action: LinkAction::Create, notice: None },
        LinkEvent::RemoveFailed { error } => LinkStep {
            action: LinkAction::Create,
            notice: Some(LinkNotice::RemoveFailed { error }),
        },
        LinkEvent::Created(kind) => LinkStep {
            action: LinkAction::Stop,
            notice: Some(LinkNotice::Created(kind)),
        },
        LinkEvent::CreateFailed { kind, error } => LinkStep {
            action: LinkAction::Stop,
            notice: Some(LinkNotice::CreateFailed { kind, error }),
        },
        LinkEvent::Unsupported => LinkStep {
            action: LinkAction::Stop,
            notice: Some(LinkNotice::Unsupported),
        },
    }
}

/// The line that tells the user of `notice`, for the link at `link` that leads to `target`.
pub open spec fn notice_text(notice: LinkNoticeView, link: Seq<char>, target: Seq<char>) -> Seq<
    char,
> {
    match notice {
        LinkNoticeView::FileInTheWay => "Warning: '"@ + link
            + "' already exists and is a file. Skipping symlink creation."@,
        LinkNoticeView::DirectoryInTheWay => "Warning: '"@ + link
            + "' already exists and is a directory. Skipping symlink creation."@,
        LinkNoticeView::SpecialInTheWay => "Warning: '"@ + link
            + "' exists and is not a file, directory, or symlink. Skipping symlink creation."@,
        LinkNoticeView::MetadataFailed { error } => "Warning: Failed to get metadata for '"@ + link
            + "': "@ + error + ". Attempting to create symlink anyway."@,
        LinkNoticeView::RemoveFailed { error } => "Warning: Failed to remove existing symlink at '"@
            + link + "': "@ + error + ". Proceeding to create new one."@,
        LinkNoticeView::Created(kind) => match kind {
            LinkKind::Symlink => "RCargo: Created symlink '"@ + link + "' -> '"@ + target + "'"@,
            LinkKind::DirectorySymlink => "RCargo: Created directory symlink '"@ + link
                + "' -> '"@ + target + "'"@,
        },
        LinkNoticeView::CreateFailed { kind, error } => match kind {
            LinkKind::Symlink => "Warning: Failed to create symlink '"@ + link + "' -> '"@ + target
                + "'. Error: "@ + error,
            LinkKind::DirectorySymlink => "Warning: Failed to create symlink '"@ + link
                + "' -> '"@ + target + "'. Error: "@ + error
                + ". On Windows, this might require administrator privileges or Developer Mode to be enabled."@,
        },
        LinkNoticeView::Unsupported => "Warning: Symlink creation for '"@ + link
            + "' is not supported on this platform. Skipping."@,
    }
}

impl LinkNotice {
    /// Whether the notice is a warning, which goes to the error stream. Only the
    /// news that the link was made is none.
    pub fn is_warning(&self) -> (warning: bool)
        ensures
            warning == !(self@ is Created),
    {
        match self {
            LinkNotice::Created(_) => false,
            _ => true,
        }
    }

    /// The line to print. `link` and `target` are the two paths as the user
    /// should read them.
    pub fn text(&self, link: &str, target: &str) -> (line: String)
        ensures
            line@ == notice_text(self@, link@, target@),
    {
        match self {
            LinkNotice::FileInTheWay => {
                let mut line = String::from_str("Warning: '");
                line.append(link);
                line.append("' already exists and is a file. Skipping symlink creation.");
                line
            },
            LinkNotice::DirectoryInTheWay => {
                let mut line = String::from_str("Warning: '");
                line.append(link);
                line.append("' already exists and is a directory. Skipping symlink creation.");
                line
            },
            LinkNotice::SpecialInTheWay => {
                let mut line = String::from_str("Warning: '");
                line.append(link);
                line.append(
                    "' exists and is not a file, directory, or symlink. Skipping symlink creation.",
                );
                line
            },
            LinkNotice::MetadataFailed { error } => {
                let mut line = String::from_str("Warning: Failed to get metadata for '");
                line.append(link);
                line.append("': ");
                line.append(error.as_str());
                line.append(". Attempting to create symlink anyway.");
                line
            },
            LinkNotice::RemoveFailed { error } => {
                let mut line = String::from_str("Warning: Failed to remove existing symlink at '");
                line.append(link);
                line.append("': ");
                line.append(error.as_str());
                line.append(". Proceeding to create new one.");
                line
            },
            LinkNotice::Created(kind) => {
                let mut line = match kind {
                    LinkKind::Symlink => String::from_str("RCargo: Created symlink '"),
                    LinkKind::DirectorySymlink => String::from_str(
                        "RCargo: Created directory symlink '",
                    ),
                };
                line.append(link);
                line.append("' -> '");
                line.append(target);
                line.append("'");
                line
            },
            LinkNotice::CreateFailed { kind, error } => {
                let mut line = String::from_str("Warning: Failed to create symlink '");
                line.append(link);
                line.append("' -> '");
                line.append(target);
                line.append("'. Error: ");
                line.append(error.as_str());
                match kind {
                    LinkKind::Symlink => {},
                    LinkKind::DirectorySymlink => {
                        line.append(
                            ". On Windows, this might require administrator privileges or Developer Mode to be enabled.",
                        );
                    },
                }
                line
            },
            LinkNotice::Unsupported => {
                let mut line = String::from_str("Warning: Symlink creation for '");
                line.append(link);
                line.append("' is not supported on this platform. Skipping.");
                line
            },
        }
    }
}

/// What stands where the link should be, as far as a run depends on it. A link
/// is known by the directory that it leads to.
pub enum Place {
    Vacant,
    Link(Seq<char>),
    File,
    Directory,
    Special,
}

/// What a caller reports of `place` when the link should lead to `target`.
pub open spec fn observation(place: Place, target: Seq<char>) -> LinkState {
    match place {
        Place::Vacant => LinkState::Missing,
        Place::Link(to) => LinkState::Symlink { same_target: to == target },
        Place::File => LinkState::File,
        Place::Directory => LinkState::Directory,
        Place::Special => LinkState::Special,
    }
}

/// The place after a run for `target` in which the file system did all that it
/// was asked to do.
pub open spec fn place_after_run(place: Place, target: Seq<char>) -> Place {
    match link_transition(LinkEvent::Observed(observation(place, target))).0 {
        LinkActionView::Create => Place::Link(target),
        LinkActionView::Remove => match link_transition(LinkEvent::Removed).0 {
            LinkActionView::Create => Place::Link(target),
            _ => Place::Vacant,
        },
        _ => place,
    }
}

/// A second run for the same target finds nothing to do: it changes nothing,
/// and where the first run left a link it stops at once and says nothing.
pub proof fn lemma_second_run_is_idle(place: Place, target: Seq<char>)
    ensures
        place_after_run(place_after_run(place, target), target) == place_after_run(place, target),
        place_after_run(place, target) is Link ==> link_transition(
            LinkEvent::Observed(observation(place_after_run(place, target), target)),
        ) == (LinkActionView::Stop, None::<LinkNoticeView>),
{
}

/// A link that leads elsewhere is removed and made anew, so that it leads to
/// the new target afterwards.
pub proof fn lemma_stale_link_is_replaced(old_target: Seq<char>, target: Seq<char>)
    requires
        old_target != target,
    ensures
        link_transition(LinkEvent::Observed(observation(Place::Link(old_target), target))).0
            == LinkActionView::Remove,
        link_transition(LinkEvent::Removed).0 == LinkActionView::Create,
        place_after_run(Place::Link(old_target), target) == Place::Link(target),
{
}

/// Nothing but a symlink that leads elsewhere is ever removed. A file, a
/// directory or a special file at the link's place stays as it is.
pub proof fn lemma_only_stale_links_are_removed(event: LinkEvent)
    ensures
        link_transition(event).0 is Remove <==> event == LinkEvent::Observed(
            LinkState::Symlink { same_target: false },
        ),
        forall|place: Place, target: Seq<char>|
            (place is File || place is Directory || place is Special) ==> #[trigger] place_after_run(
                place,
                target,
            ) == place,
{
}

} // verus!
