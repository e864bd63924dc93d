//! Backing up directories, volumes and whole containers: the requests made
//! of the helper, the reading of its answers, and the order in which the
//! mounts of a container are taken.

use vstd::prelude::*;
use crate::config::{ContainerConfig, ContainerConfigView, HostConfig};
use crate::container::{SidecarRequest, SidecarRequestView};
use crate::error::Error;
use crate::file::{base64_encoding, encode_b64};
use crate::mount::{
    is_bind,
    is_invalid,
    is_volume,
    mount_decision,
    filter_mount,
    opt_text,
    Mount,
    MountDecision,
    MountKind,
    MountPoint,
    MountPointView,
    MountView,
    kinds_differ,
};
use crate::text::{is_space, last_token, last_token_of, replace_char, replaced};

verus! {

/// The characters that a time in RFC 3339 form is written with: digits,
/// the signs, the colon, the point and the `T` between date and time.
pub open spec fn is_stamp_char(c: char) -> bool {
    ('0' <= c && c <= '9') || c == '-' || c == '+' || c == ':' || c == '.' || c == 'T'
}

/// What holds of every time in RFC 3339 form with an offset in hours and
/// minutes: it has at least the 25 characters of
/// `0000-00-00T00:00:00+00:00`, and no character but those of such a time.
pub open spec fn is_stamp(t: Seq<char>) -> bool {
    t.len() >= 25 && forall|i: int| 0 <= i < t.len() ==> is_stamp_char(#[trigger] t[i])
}

/// A time in RFC 3339 form holds no slash and no white space, so it can
/// name a file.
pub proof fn stamps_name_files(t: Seq<char>)
    requires
        is_stamp(t),
    ensures
        t.len() >= 25,
        forall|i: int| 0 <= i < t.len() ==> t[i] != '/' && !is_space(#[trigger] t[i]),
        is_relative(t),
{
    assert forall|i: int| 0 <= i < t.len() implies t[i] != '/' && !is_space(#[trigger] t[i]) by {
        assert(is_stamp_char(t[i]));
    }
    assert(is_stamp_char(t[0]));
}

/// The current time in UTC as RFC 3339 text, from `chrono::Utc::now` and
/// `DateTime::to_rfc3339`. Which time it is depends on the clock; its form
/// does not: date, `T`, time, a fraction of the second where there is one,
/// and the offset `+00:00`. The call gives up only where the system clock
/// stands before 1970 or beyond the dates that can be written.
#[verifier::external_body]
fn timestamp_now() -> (stamp: String)
    ensures
        is_stamp(stamp@),
{
    chrono::Utc::now().to_rfc3339()
}

/// The name of a backup made at `timestamp`: an archive for a directory, a
/// plain copy for a file.
pub open spec fn archive_name(timestamp: Seq<char>, is_directory: bool) -> Seq<char> {
    if is_directory {
        timestamp + ".tgz"@
    } else {
        timestamp
    }
}

/// `base`, a slash, and `rest`.
pub open spec fn joined(base: Seq<char>, rest: Seq<char>) -> Seq<char> {
    base + "/"@ + rest
}

/// Where the backups of a bind mount go, below the destination: the host
/// path with every slash turned into a colon, under `dockyard/binds`.
pub open spec fn bind_output(source: Seq<char>) -> Seq<char> {
    "dockyard/binds/"@ + replaced(source, '/', ':')
}

/// Where the backups of a volume go, below the destination.
pub open spec fn volume_output(volume: Seq<char>) -> Seq<char> {
    "dockyard/volumes/"@ + volume
}

/// Where the backup files of a container go, below the destination.
pub open spec fn container_output(name: Seq<char>) -> Seq<char> {
    "dockyard/containers/"@ + name
}

/// A path that is not absolute: it can be resolved below a destination.
pub open spec fn is_relative(path: Seq<char>) -> bool {
    path.len() > 0 && path[0] != '/'
}

/// The archive that the helper reports: the last token of the last line of
/// its output.
pub open spec fn reported_archive(logs: Seq<String>) -> Option<Seq<char>> {
    if logs.len() == 0 {
        None
    } else {
        last_token(logs.last()@)
    }
}

/// The name of a backup made at `timestamp`, relative to the directory it is
/// put in.
pub fn archive_file_name(timestamp: &str, is_directory: bool) -> (name: String)
    ensures
        name@ == archive_name(timestamp@, is_directory),
{
    if is_directory {
        String::from_str(timestamp).concat(".tgz")
    } else {
        String::from_str(timestamp)
    }
}

/// The name of a backup made now, relative to the directory it is put in:
/// an archive named by the time for a directory, a copy named by the time
/// for a file.
pub fn backup_directory(is_directory: bool) -> (name: String)
    ensures
        exists|timestamp: Seq<char>|
            is_stamp(timestamp) && timestamp.len() >= 25 && (forall|i: int|
                0 <= i < timestamp.len() ==> timestamp[i] != '/' && !is_space(#[trigger] timestamp[i]))
                && name@ == archive_name(timestamp, is_directory),
        is_relative(name@),
        forall|i: int| 0 <= i < name@.len() ==> name@[i] != '/',
{
    let stamp = timestamp_now();
    let name = archive_file_name(stamp.as_str(), is_directory);
    proof {
        stamps_name_files(stamp@);
        reveal_strlit(".tgz");
        assert(name@[0] == stamp@[0]);
        assert forall|i: int| 0 <= i < name@.len() implies name@[i] != '/' by {
            if i < stamp@.len() {
                assert(name@[i] == stamp@[i]);
            }
        }
    }
    name
}

/// The archive that a helper reports in its output, if it reports one.
pub fn archive_from_output(logs: &Vec<String>) -> (archive: Option<String>)
    ensures
        opt_text(archive) == reported_archive(logs@),
{
    if logs.len() == 0 {
        None
    } else {
        last_token_of(logs[logs.len() - 1].as_str())
    }
}

/// The request that backs up the host directory `input` into `output` below
/// the destination `mount`.
pub open spec fn directory_backup_request(
    input: Seq<char>,
    output: Seq<char>,
    mount: MountView,
) -> SidecarRequestView {
    SidecarRequestView {
        mounts: seq![MountView { source: input, target: "/input"@, kind: MountKind::Bind }, mount],
        args: seq!["backup"@, "directory"@, "/input"@, joined(mount.target, output)],
        log_prefix: "backup directory "@ + input,
    }
}

/// Asks a helper to back up a host directory: the directory is bound at
/// `/input`, the destination is attached, and the helper archives the one
/// into `output` below the other.
pub fn backup_directory_to_mount(input: String, output: &str, mount: Mount) -> (request:
    SidecarRequest)
    ensures
        request@ == directory_backup_request(input@, output@, mount@),
{
    let log_prefix = String::from_str("backup directory ").concat(input.as_str());
    let mounted_output = mount.target.clone().concat("/").concat(output);
    let mut args: Vec<String> = Vec::new();
    args.push(String::from_str("backup"));
    args.push(String::from_str("directory"));
    args.push(String::from_str("/input"));
    args.push(mounted_output);
    let input_mount = Mount { source: input, target: String::from_str("/input"), kind: MountKind::Bind };
    let mut mounts: Vec<Mount> = Vec::new();
    mounts.push(input_mount);
    mounts.push(mount);
    let request = SidecarRequest { mounts, args, log_prefix };
    proof {
        let want = directory_backup_request(input@, output@, mount@);
        assert(request@.mounts =~= want.mounts);
        assert(request@.args =~= want.args);
    }
    request
}

/// What a directory backup gave: the archive's path below the destination.
pub open spec fn directory_backup_outcome(exit_code: i64, logs: Seq<String>, output: Seq<char>) -> Result<
    Seq<char>,
    Error,
> {
    if exit_code != 0 {
        Err(Error::NonZeroExit(exit_code))
    } else {
        match reported_archive(logs) {
            Some(archive) => Ok(joined(output, archive)),
            None => Err(Error::UnresolvableArchivePath),
        }
    }
}

/// The view of a path or an error.
pub open spec fn path_view(r: Result<String, Error>) -> Result<Seq<char>, Error> {
    match r {
        Ok(p) => Ok(p@),
        Err(e) => Err(e),
    }
}

/// Reads what the helper of a directory backup gave back. A helper that
/// ended with another code than zero failed. One that succeeded names the
/// archive in the last line of its output, relative to `output`.
pub fn directory_backup_result(exit_code: i64, logs: &Vec<String>, output: &str) -> (path: Result<
    String,
    Error,
>)
    ensures
        path_view(path) == directory_backup_outcome(exit_code, logs@, output@),
{
    if exit_code != 0 {
        return Err(Error::NonZeroExit(exit_code));
    }
    match archive_from_output(logs) {
        Some(archive) => Ok(String::from_str(output).concat("/").concat(archive.as_str())),
        None => Err(Error::UnresolvableArchivePath),
    }
}

/// The request that backs up the volume `volume` to the destination `mount`.
pub open spec fn volume_backup_request(volume: Seq<char>, mount: MountView) -> SidecarRequestView {
    SidecarRequestView {
        mounts: seq![MountView { source: volume, target: "/volume"@, kind: MountKind::Volume }, mount],
        args: seq![
            "backup"@,
            "directory"@,
            "/volume"@,
            joined("/backup"@, volume_output(volume)),
        ],
        log_prefix: "backup volume "@ + volume,
    }
}

/// Asks a helper to back up a volume: the volume is attached at `/volume`,
/// the destination is attached, and the helper archives the one into the
/// volume's place below the other.
pub fn backup_volume(volume: String, backup_mount: Mount) -> (request: SidecarRequest)
    ensures
        request@ == volume_backup_request(volume@, backup_mount@),
{
    let log_prefix = String::from_str("backup volume ").concat(volume.as_str());
    let mounted_output = String::from_str("/backup").concat("/").concat("dockyard/volumes/").concat(
        volume.as_str(),
    );
    let mut args: Vec<String> = Vec::new();
    args.push(String::from_str("backup"));
    args.push(String::from_str("directory"));
    args.push(String::from_str("/volume"));
    args.push(mounted_output);
    let volume_mount = Mount {
        source: volume,
        target: String::from_str("/volume"),
        kind: MountKind::Volume,
    };
    let mut mounts: Vec<Mount> = Vec::new();
    mounts.push(volume_mount);
    mounts.push(backup_mount);
    let request = SidecarRequest { mounts, args, log_prefix };
    proof {
        let want = volume_backup_request(volume@, backup_mount@);
        assert(mounted_output@ =~= joined("/backup"@, volume_output(volume@)));
        assert(request@.mounts =~= want.mounts);
        assert(request@.args =~= want.args);
    }
    request
}

/// What a volume backup gave: the archive's path below the destination.
pub open spec fn volume_backup_outcome(exit_code: i64, logs: Seq<String>, volume: Seq<char>) -> Result<
    Seq<char>,
    Error,
> {
    if exit_code != 0 {
        Err(Error::NonZeroExit(exit_code))
    } else {
        match reported_archive(logs) {
            Some(archive) => Ok(joined(volume_output(volume), archive)),
            None => Err(Error::UnresolvableArchivePath),
        }
    }
}

/// Reads what the helper of a volume backup gave back. A helper that ended
/// with another code than zero failed. The archive of one that succeeded
/// lies in the volume's place below the destination, under the name in the
/// last line of the helper's output.
pub fn volume_backup_result(exit_code: i64, logs: &Vec<String>, volume: &str) -> (path: Result<
    String,
    Error,
>)
    ensures
        path_view(path) == volume_backup_outcome(exit_code, logs@, volume@),
{
    if exit_code != 0 {
        return Err(Error::NonZeroExit(exit_code));
    }
    match archive_from_output(logs) {
        Some(archive) => Ok(
            String::from_str("dockyard/volumes/").concat(volume).concat("/").concat(archive.as_str()),
        ),
        None => Err(Error::UnresolvableArchivePath),
    }
}

/// Where a helper that succeeded reports the archive of the time
/// `timestamp`, the archive of the volume `volume` lies at
/// `dockyard/volumes/<volume>/<timestamp>.tgz`.
pub proof fn volume_archive_path(logs: Seq<String>, volume: Seq<char>, timestamp: Seq<char>)
    requires
        reported_archive(logs) == Some(archive_name(timestamp, true)),
    ensures
        volume_backup_outcome(0, logs, volume) == Ok::<Seq<char>, Error>(
            "dockyard/volumes/"@ + volume + "/"@ + timestamp + ".tgz"@,
        ),
{
    assert(joined(volume_output(volume), archive_name(timestamp, true)) =~= "dockyard/volumes/"@
        + volume + "/"@ + timestamp + ".tgz"@);
}

/// The backup of one mount: where its archive lies below the destination,
/// and the mount record it was made from.
#[derive(Clone, Debug, PartialEq, Eq)]
pub struct MountBackup {
    pub path: String,
    pub mount: MountPoint,
}

/// What a `MountBackup` stands for.
pub struct MountBackupView {
    pub path: Seq<char>,
    pub mount: MountPointView,
}

impl View for MountBackup {
    type V = MountBackupView;

    open spec fn view(&self) -> MountBackupView {
        MountBackupView { path: self.path@, mount: self.mount@ }
    }
}

/// The views of a sequence of mount backups.
pub open spec fn mount_backup_views(v: Seq<MountBackup>) -> Seq<MountBackupView> {
    Seq::new(v.len(), |i: int| v[i]@)
}

/// The backup of a container: its name, its configuration, and the backups
/// of its mounts in the order in which they were made.
#[derive(Clone, Debug, PartialEq, Eq)]
pub struct ContainerBackup {
    pub name: String,
    pub container_config: ContainerConfig,
    pub host_config: HostConfig,
    pub mounts: Vec<MountBackup>,
}

/// What a `ContainerBackup` stands for.
pub struct ContainerBackupView {
    pub name: Seq<char>,
    pub container_config: ContainerConfigView,
    pub host_config: Seq<char>,
    pub mounts: Seq<MountBackupView>,
}

impl View for ContainerBackup {
    type V = ContainerBackupView;

    open spec fn view(&self) -> ContainerBackupView {
        ContainerBackupView {
            name: self.name@,
            container_config: self.container_config@,
            host_config: self.host_config@,
            mounts: mount_backup_views(self.mounts@),
        }
    }
}

/// A mount record of a container together with what the daemon says of its
/// volume: the driver option `type`, where the record is a volume and the
/// option is set.
#[derive(Clone, Debug, PartialEq, Eq)]
pub struct InspectedMount {
    pub mount: MountPoint,
    pub volume_type: Option<String>,
}

/// Whether the classifier includes a mount.
pub open spec fn included(item: InspectedMount, excluded: Seq<String>) -> bool {
    !is_invalid(item.mount@) && mount_decision(item.mount@, opt_text(item.volume_type), excluded)
        == MountDecision::Include
}

/// The mounts that the classifier includes, in the order of the list.
pub open spec fn eligible(items: Seq<InspectedMount>, excluded: Seq<String>) -> Seq<MountPointView>
    decreases items.len(),
{
    if items.len() == 0 {
        Seq::empty()
    } else if included(items.last(), excluded) {
        eligible(items.drop_last(), excluded).push(items.last().mount@)
    } else {
        eligible(items.drop_last(), excluded)
    }
}

/// Whether one of the records cannot be classified.
pub open spec fn any_invalid(items: Seq<InspectedMount>) -> bool {
    exists|i: int| 0 <= i < items.len() && is_invalid(#[trigger] items[i].mount@)
}

/// A mount that can be backed up: a bind with a source, or a volume with a
/// name.
pub open spec fn can_back_up(m: MountPointView) -> bool {
    (is_bind(m) && m.source is Some) || (is_volume(m) && m.name is Some)
}

/// Every mount that the classifier includes can be backed up.
pub proof fn eligible_can_back_up(items: Seq<InspectedMount>, excluded: Seq<String>)
    ensures
        forall|i: int|
            0 <= i < eligible(items, excluded).len() ==> can_back_up(
                #[trigger] eligible(items, excluded)[i],
            ),
    decreases items.len(),
{
    if items.len() > 0 {
        eligible_can_back_up(items.drop_last(), excluded);
        let front = eligible(items.drop_last(), excluded);
        assert forall|i: int| 0 <= i < eligible(items, excluded).len() implies can_back_up(
            #[trigger] eligible(items, excluded)[i],
        ) by {
            if i < front.len() {
                assert(eligible(items, excluded)[i] == front[i]);
            } else {
                assert(included(items.last(), excluded));
                assert(eligible(items, excluded)[i] == items.last().mount@);
            }
        }
    }
}

/// A mount that the caller excluded by name is not among the mounts that
/// are backed up, nor is a volume on a network filesystem, nor a bind to
/// the control socket.
pub proof fn eligible_were_included(items: Seq<InspectedMount>, excluded: Seq<String>, i: int)
    requires
        0 <= i < eligible(items, excluded).len(),
    ensures
        exists|k: int|
            0 <= k < items.len() && included(#[trigger] items[k], excluded) && items[k].mount@
                == eligible(items, excluded)[i],
    decreases items.len(),
{
    let front = items.drop_last();
    if included(items.last(), excluded) && i == eligible(front, excluded).len() {
        assert(items[items.len() - 1] == items.last());
    } else {
        eligible_were_included(front, excluded, i);
        let k = choose|k: int|
            0 <= k < front.len() && included(#[trigger] front[k], excluded) && front[k].mount@
                == eligible(front, excluded)[i];
        assert(items[k] == front[k]);
    }
}

/// The mounts of a container that take part in its backup, in the order in
/// which the container lists them. A record that cannot be classified fails
/// the whole.
pub fn eligible_mounts(items: &Vec<InspectedMount>, exclude_volumes: &Vec<String>) -> (mounts:
    Result<Vec<MountPoint>, Error>)
    ensures
        any_invalid(items@) <==> mounts is Err,
        mounts is Err ==> mounts->Err_0 == Error::InvalidMount,
        mounts is Ok ==> crate::mount::mount_point_views(mounts->Ok_0@) == eligible(
            items@,
            exclude_volumes@,
        ),
{
    let mut kept: Vec<MountPoint> = Vec::new();
    let mut i: usize = 0;
    proof {
        assert(crate::mount::mount_point_views(kept@) =~= eligible(
            items@.subrange(0, 0),
            exclude_volumes@,
        ));
    }
    while i < items.len()
        invariant
            i <= items@.len(),
            forall|k: int| 0 <= k < i ==> !is_invalid(#[trigger] items@[k].mount@),
            crate::mount::mount_point_views(kept@) == eligible(
                items@.subrange(0, i as int),
                exclude_volumes@,
            ),
        decreases items@.len() - i,
    {
        let item = &items[i];
        let volume_type: Option<&str> = match &item.volume_type {
            Some(t) => Some(t.as_str()),
            None => None,
        };
        proof {
            let next = items@.subrange(0, i + 1);
            assert(next.drop_last() =~= items@.subrange(0, i as int));
            assert(next.last() == items@[i as int]);
        }
        match filter_mount(&item.mount, volume_type, exclude_volumes) {
            Err(e) => {
                return Err(e);
            },
            Ok(MountDecision::Include) => {
                let ghost before = crate::mount::mount_point_views(kept@);
                kept.push(item.mount.duplicate());
                proof {
                    assert(crate::mount::mount_point_views(kept@) =~= before.push(item.mount@));
                }
            },
            Ok(_) => {},
        }
        i += 1;
    }
    proof {
        assert(items@.subrange(0, i as int) =~= items@);
    }
    Ok(kept)
}

/// The backup of one container while it is made: the mounts to back up, in
/// order, and the backups made so far.
#[derive(Debug)]
pub struct BackupSession {
    name: String,
    mounts: Vec<MountPoint>,
    destination: Mount,
    backups: Vec<MountBackup>,
    aborted: bool,
}

/// What a `BackupSession` stands for.
pub struct BackupSessionView {
    pub name: Seq<char>,
    pub mounts: Seq<MountPointView>,
    pub destination: MountView,
    pub backups: Seq<MountBackupView>,
    pub aborted: bool,
}

impl BackupSessionView {
    /// The backups made so far are those of the first mounts, in order, each
    /// at a path relative to the destination, and every mount can be backed
    /// up.
    pub open spec fn wf(self) -> bool {
        &&& self.backups.len() <= self.mounts.len()
        &&& forall|i: int| 0 <= i < self.backups.len() ==> is_relative((#[trigger] self.backups[i]).path)
        &&& forall|i: int| 0 <= i < self.backups.len() ==> (#[trigger] self.backups[i]).mount == self.mounts[i]
        &&& forall|i: int| 0 <= i < self.mounts.len() ==> can_back_up(#[trigger] self.mounts[i])
    }

    /// A mount is still to be backed up.
    pub open spec fn pending(self) -> bool {
        !self.aborted && self.backups.len() < self.mounts.len()
    }

    /// Every mount was backed up.
    pub open spec fn complete(self) -> bool {
        !self.aborted && self.backups.len() == self.mounts.len()
    }

    /// The mount that is backed up next.
    pub open spec fn current(self) -> MountPointView
        recommends
            self.pending(),
    {
        self.mounts[self.backups.len() as int]
    }
}

impl View for BackupSession {
    type V = BackupSessionView;

    closed spec fn view(&self) -> BackupSessionView {
        BackupSessionView {
            name: self.name@,
            mounts: crate::mount::mount_point_views(self.mounts@),
            destination: self.destination@,
            backups: mount_backup_views(self.backups@),
            aborted: self.aborted,
        }
    }
}

/// What a backup session asks for next.
#[derive(Clone, Debug, PartialEq, Eq)]
pub enum BackupStep {
    /// Run a helper on this request, and record what it gave.
    Run(SidecarRequest),
    /// Every mount is backed up: write the backup file.
    WriteManifest,
    /// A mount failed: nothing more is to be done.
    Aborted,
}

/// What a `BackupStep` stands for.
pub enum BackupStepView {
    Run(SidecarRequestView),
    WriteManifest,
    Aborted,
}

impl View for BackupStep {
    type V = BackupStepView;

    open spec fn view(&self) -> BackupStepView {
        match self {
            BackupStep::Run(request) => BackupStepView::Run(request@),
            BackupStep::WriteManifest => BackupStepView::WriteManifest,
            BackupStep::Aborted => BackupStepView::Aborted,
        }
    }
}

/// The request that backs up one mount: a bind as a directory, into the
/// place of its host path; a volume by its name.
pub open spec fn mount_backup_request(m: MountPointView, destination: MountView) -> SidecarRequestView {
    if is_bind(m) {
        directory_backup_request(m.source->0, bind_output(m.source->0), destination)
    } else {
        volume_backup_request(m.name->0, destination)
    }
}

/// What the backup of one mount gave.
pub open spec fn mount_backup_outcome(m: MountPointView, exit_code: i64, logs: Seq<String>) -> Result<
    Seq<char>,
    Error,
> {
    if is_bind(m) {
        directory_backup_outcome(exit_code, logs, bind_output(m.source->0))
    } else {
        volume_backup_outcome(exit_code, logs, m.name->0)
    }
}

/// The archive of a mount is never at an absolute path: it lies below
/// `dockyard/`, relative to the destination.
pub proof fn archive_paths_are_relative(m: MountPointView, exit_code: i64, logs: Seq<String>)
    ensures
        mount_backup_outcome(m, exit_code, logs) matches Ok(path) ==> is_relative(path)
            && path.subrange(0, 9) == "dockyard/"@,
{
    reveal_strlit("dockyard/binds/");
    reveal_strlit("dockyard/volumes/");
    reveal_strlit("dockyard/");
    let outcome = mount_backup_outcome(m, exit_code, logs);
    if outcome is Ok {
        assert(outcome->Ok_0.subrange(0, 9) =~= "dockyard/"@);
    }
}

/// What a session asks for next.
pub open spec fn next_step(s: BackupSessionView) -> BackupStepView {
    if s.aborted {
        BackupStepView::Aborted
    } else if s.backups.len() < s.mounts.len() {
        BackupStepView::Run(mount_backup_request(s.current(), s.destination))
    } else {
        BackupStepView::WriteManifest
    }
}

/// The session after a helper's result was recorded, and what the record
/// says. A success adds the backup of the current mount; a failure aborts
/// the session; a result that no request called for changes nothing.
pub open spec fn recorded(s: BackupSessionView, exit_code: i64, logs: Seq<String>) -> (
    BackupSessionView,
    Result<(), Error>,
) {
    if !s.pending() {
        (s, Err(Error::OutOfTurn))
    } else {
        match mount_backup_outcome(s.current(), exit_code, logs) {
            Ok(path) => (
                BackupSessionView {
                    backups: s.backups.push(MountBackupView { path, mount: s.current() }),
                    ..s
                },
                Ok(()),
            ),
            Err(e) => (BackupSessionView { aborted: true, ..s }, Err(e)),
        }
    }
}

/// Begins the backup of a container: the mounts that the classifier
/// includes are to be backed up to `backup_mount`, one at a time and in
/// the order in which the container lists them.
pub fn backup_container(
    container_name: &str,
    items: &Vec<InspectedMount>,
    backup_mount: Mount,
    exclude_volumes: &Vec<String>,
) -> (session: Result<BackupSession, Error>)
    ensures
        any_invalid(items@) <==> session is Err,
        session is Err ==> session->Err_0 == Error::InvalidMount,
        session is Ok ==> session->Ok_0@ == (BackupSessionView {
            name: container_name@,
            mounts: eligible(items@, exclude_volumes@),
            destination: backup_mount@,
            backups: Seq::empty(),
            aborted: false,
        }) && session->Ok_0@.wf(),
{
    match eligible_mounts(items, exclude_volumes) {
        Err(e) => Err(e),
        Ok(mounts) => {
            let backups: Vec<MountBackup> = Vec::new();
            proof {
                eligible_can_back_up(items@, exclude_volumes@);
                assert(mount_backup_views(backups@) =~= Seq::<MountBackupView>::empty());
            }
            let session = BackupSession {
                name: String::from_str(container_name),
                mounts,
                destination: backup_mount,
                backups,
                aborted: false,
            };
            Ok(session)
        },
    }
}

impl BackupSession {
    #[verifier::type_invariant]
    spec fn well_formed(self) -> bool {
        self@.wf()
    }

    /// The name of the container that is backed up.
    pub fn name(&self) -> (name: &String)
        ensures
            name@ == self@.name,
    {
        &self.name
    }

    /// The number of mounts backed up so far.
    pub fn completed(&self) -> (count: usize)
        ensures
            count == self@.backups.len(),
    {
        self.backups.len()
    }

    /// Says what to do next.
    pub fn next(&self) -> (step: BackupStep)
        ensures
            step@ == next_step(self@),
            self@.wf(),
    {
        proof {
            use_type_invariant(self);
        }
        if self.aborted {
            return BackupStep::Aborted;
        }
        let done = self.backups.len();
        if done < self.mounts.len() {
            let mount = &self.mounts[done];
            proof {
                kinds_differ();
                assert(self@.mounts[done as int] == mount@);
                assert(can_back_up(self@.mounts[done as int]));
            }
            if mount.is_bind() {
                match &mount.source {
                    Some(source) => {
                        let output = String::from_str("dockyard/binds/").concat(
                            replace_char(source.as_str(), '/', ':').as_str(),
                        );
                        BackupStep::Run(
                            backup_directory_to_mount(
                                source.clone(),
                                output.as_str(),
                                self.destination.duplicate(),
                            ),
                        )
                    },
                    None => BackupStep::Aborted,
                }
            } else {
                match &mount.name {
                    Some(name) => BackupStep::Run(backup_volume(name.clone(), self.destination.duplicate())),
                    None => BackupStep::Aborted,
                }
            }
        } else {
            BackupStep::WriteManifest
        }
    }

    /// Records what the helper of the last request gave back.
    pub fn record(&mut self, exit_code: i64, logs: &Vec<String>) -> (outcome: Result<(), Error>)
        ensures
            (final(self)@, outcome) == recorded(old(self)@, exit_code, logs@),
            old(self)@.wf(),
            final(self)@.wf(),
    {
        proof {
            use_type_invariant(&*self);
        }
        let done = self.backups.len();
        if self.aborted || done >= self.mounts.len() {
            return Err(Error::OutOfTurn);
        }
        let mount = &self.mounts[done];
        proof {
            kinds_differ();
            assert(self@.mounts[done as int] == mount@);
            assert(can_back_up(self@.mounts[done as int]));
            archive_paths_are_relative(mount@, exit_code, logs@);
        }
        let path = if mount.is_bind() {
            match &mount.source {
                Some(source) => {
                    let output = String::from_str("dockyard/binds/").concat(
                        replace_char(source.as_str(), '/', ':').as_str(),
                    );
                    directory_backup_result(exit_code, logs, output.as_str())
                },
                None => Err(Error::InvalidMount),
            }
        } else {
            match &mount.name {
                Some(name) => volume_backup_result(exit_code, logs, name.as_str()),
                None => Err(Error::InvalidMount),
            }
        };
        match path {
            Ok(path) => {
                let backup = MountBackup { path, mount: mount.duplicate() };
                let ghost before = self@.backups;
                let mut backups: Vec<MountBackup> = Vec::new();
                std::mem::swap(&mut self.backups, &mut backups);
                backups.push(backup);
                proof {
                    assert(mount_backup_views(backups@) =~= before.push(backup@));
                }
                std::mem::swap(&mut self.backups, &mut backups);
                Ok(())
            },
            Err(e) => {
                self.aborted = true;
                Err(e)
            },
        }
    }

    /// Gives the session up, as after an error of the daemon.
    pub fn abort(&mut self)
        ensures
            final(self)@ == (BackupSessionView { aborted: true, ..old(self)@ }),
    {
        proof {
            use_type_invariant(&*self);
        }
        self.aborted = true;
    }

    /// The backup of the container, once every mount is backed up.
    pub fn finish(self, container_config: ContainerConfig, host_config: HostConfig) -> (backup: Result<
        ContainerBackup,
        Error,
    >)
        ensures
            self@.complete() <==> backup is Ok,
            backup is Err ==> backup->Err_0 == Error::OutOfTurn,
            backup is Ok ==> forall|i: int|
                0 <= i < self@.backups.len() ==> is_relative((#[trigger] self@.backups[i]).path),
            backup is Ok ==> backup->Ok_0@ == (ContainerBackupView {
                name: self@.name,
                container_config: container_config@,
                host_config: host_config@,
                mounts: self@.backups,
            }),
    {
        proof {
            use_type_invariant(&self);
        }
        if self.aborted || self.backups.len() != self.mounts.len() {
            Err(Error::OutOfTurn)
        } else {
            Ok(
                ContainerBackup {
                    name: self.name,
                    container_config,
                    host_config,
                    mounts: self.backups,
                },
            )
        }
    }
}

/// The mounts of a container are backed up one at a time and in their
/// order: the request is always for the first mount not yet backed up, a
/// success moves on by exactly that mount, and a failure aborts the
/// session with the backups made so far left as they are.
pub proof fn mounts_are_backed_up_in_order(s: BackupSessionView, exit_code: i64, logs: Seq<String>)
    requires
        s.wf(),
        s.pending(),
    ensures
        next_step(s) == BackupStepView::Run(
            mount_backup_request(s.mounts[s.backups.len() as int], s.destination),
        ),
        recorded(s, exit_code, logs).0.wf(),
        recorded(s, exit_code, logs).0.mounts == s.mounts,
        recorded(s, exit_code, logs).1 is Ok ==> recorded(s, exit_code, logs).0.backups.len()
            == s.backups.len() + 1 && recorded(s, exit_code, logs).0.backups.last().mount
            == s.mounts[s.backups.len() as int] && !recorded(s, exit_code, logs).0.aborted,
        recorded(s, exit_code, logs).1 is Err ==> recorded(s, exit_code, logs).0.aborted && recorded(
            s,
            exit_code,
            logs,
        ).0.backups == s.backups,
{
    archive_paths_are_relative(s.current(), exit_code, logs);
}

/// Once a mount has failed nothing more is attempted: no request is made,
/// and no result is taken.
pub proof fn nothing_follows_a_failure(s: BackupSessionView, exit_code: i64, logs: Seq<String>)
    requires
        s.aborted,
    ensures
        next_step(s) == BackupStepView::Aborted,
        recorded(s, exit_code, logs) == (s, Err::<(), Error>(Error::OutOfTurn)),
{
}

/// The session after the results of several helpers were recorded, one
/// after the other.
pub open spec fn after_results(s: BackupSessionView, results: Seq<(i64, Seq<String>)>) -> BackupSessionView
    decreases results.len(),
{
    if results.len() == 0 {
        s
    } else {
        recorded(after_results(s, results.drop_last()), results.last().0, results.last().1).0
    }
}

/// Whatever the helpers give back, a new session asks for the backup of a
/// mount only when every mount before it has been backed up with success,
/// and then for the next mount in order: the request that follows `n`
/// results is for the mount at place `n`.
pub proof fn requests_follow_the_order_of_the_mounts(
    s: BackupSessionView,
    results: Seq<(i64, Seq<String>)>,
)
    requires
        s.wf(),
        s.backups.len() == 0,
        !s.aborted,
    ensures
        after_results(s, results).wf(),
        after_results(s, results).mounts == s.mounts,
        after_results(s, results).destination == s.destination,
        after_results(s, results).pending() ==> {
            &&& results.len() < s.mounts.len()
            &&& after_results(s, results).backups.len() == results.len()
            &&& next_step(after_results(s, results)) == BackupStepView::Run(
                mount_backup_request(s.mounts[results.len() as int], s.destination),
            )
            &&& forall|j: int|
                0 <= j < results.len() ==> (#[trigger] mount_backup_outcome(
                    s.mounts[j],
                    results[j].0,
                    results[j].1,
                )) is Ok
        },
    decreases results.len(),
{
    if results.len() > 0 {
        let front = results.drop_last();
        requests_follow_the_order_of_the_mounts(s, front);
        let before = after_results(s, front);
        if before.pending() {
            archive_paths_are_relative(before.current(), results.last().0, results.last().1);
            if after_results(s, results).pending() {
                assert forall|j: int| 0 <= j < results.len() implies (#[trigger] mount_backup_outcome(
                    s.mounts[j],
                    results[j].0,
                    results[j].1,
                )) is Ok by {
                    if j < front.len() {
                        assert(results[j] == front[j]);
                    }
                }
            }
        }
    }
}

/// The file that holds the backup of a container, and the request that
/// writes it.
#[derive(Clone, Debug, PartialEq, Eq)]
pub struct ManifestWrite {
    pub path: String,
    pub request: SidecarRequest,
}

/// The path of a container's backup file made at `timestamp`, below the
/// destination.
pub open spec fn manifest_path(name: Seq<char>, timestamp: Seq<char>) -> Seq<char> {
    joined(container_output(name), timestamp + ".json"@)
}

/// The backup file of a container is never at an absolute path.
pub proof fn manifest_path_is_relative(name: Seq<char>, timestamp: Seq<char>)
    ensures
        is_relative(manifest_path(name, timestamp)),
{
    reveal_strlit("dockyard/containers/");
}

/// The request that writes the backup file of the container `name` to
/// `path` below the destination, given the contents in their encoded form.
pub open spec fn encoded_write_request(
    name: Seq<char>,
    path: Seq<char>,
    encoded: Seq<char>,
    mount: MountView,
) -> SidecarRequestView {
    SidecarRequestView {
        mounts: seq![mount],
        args: seq!["write"@, "--file"@, "/backup/"@ + path, "--contents"@, encoded, "--encoded"@],
        log_prefix: "backup container "@ + name,
    }
}

/// The request that writes the backup file of the container `name` to
/// `path` below the destination: the contents go to the helper encoded.
pub open spec fn manifest_write_request(
    name: Seq<char>,
    path: Seq<char>,
    manifest: Seq<char>,
    mount: MountView,
) -> SidecarRequestView {
    encoded_write_request(name, path, base64_encoding(manifest), mount)
}

/// Asks a helper to write encoded contents to the backup file of a
/// container at `path` below the destination.
pub fn write_encoded(name: &str, path: &str, encoded: String, backup_mount: Mount) -> (request:
    SidecarRequest)
    ensures
        request@ == encoded_write_request(name@, path@, encoded@, backup_mount@),
{
    let mut args: Vec<String> = Vec::new();
    args.push(String::from_str("write"));
    args.push(String::from_str("--file"));
    args.push(String::from_str("/backup/").concat(path));
    args.push(String::from_str("--contents"));
    args.push(encoded);
    args.push(String::from_str("--encoded"));
    let mut mounts: Vec<Mount> = Vec::new();
    mounts.push(backup_mount);
    let request = SidecarRequest {
        mounts,
        args,
        log_prefix: String::from_str("backup container ").concat(name),
    };
    proof {
        let want = encoded_write_request(name@, path@, encoded@, backup_mount@);
        assert(request@.mounts =~= want.mounts);
        assert(request@.args =~= want.args);
    }
    request
}

/// Asks a helper to write the backup file of a container, made at
/// `timestamp`, with the serialised backup `manifest` as its contents.
pub fn manifest_write(name: &str, timestamp: &str, manifest: &str, backup_mount: Mount) -> (write:
    ManifestWrite)
    ensures
        write.path@ == manifest_path(name@, timestamp@),
        write.request@ == manifest_write_request(name@, write.path@, manifest@, backup_mount@),
{
    let path = String::from_str("dockyard/containers/").concat(name).concat("/").concat(
        String::from_str(timestamp).concat(".json").as_str(),
    );
    let request = write_encoded(name, path.as_str(), encode_b64(manifest), backup_mount);
    ManifestWrite { path, request }
}

/// Asks a helper to write the backup file of a container, named by the
/// current time.
pub fn write_container_backup(name: &str, manifest: &str, backup_mount: Mount) -> (write:
    ManifestWrite)
    ensures
        exists|timestamp: Seq<char>|
            is_stamp(timestamp) && timestamp.len() >= 25 && (forall|i: int|
                0 <= i < timestamp.len() ==> timestamp[i] != '/' && !is_space(#[trigger] timestamp[i]))
                && write.path@ == manifest_path(name@, timestamp),
        is_relative(write.path@),
        write.request@ == manifest_write_request(name@, write.path@, manifest@, backup_mount@),
{
    let stamp = timestamp_now();
    proof {
        stamps_name_files(stamp@);
        manifest_path_is_relative(name@, stamp@);
    }
    manifest_write(name, stamp.as_str(), manifest, backup_mount)
}

} // verus!
