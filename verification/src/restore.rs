//! Restoring directories, volumes and whole containers: the requests made
//! of the helper, the reading of the backup file, and the order in which
//! the mounts of a backup are restored.

use vstd::prelude::*;
use crate::backup::{
    can_back_up, is_relative, joined, mount_backup_request, BackupSessionView, ContainerBackup,
    ContainerBackupView, MountBackupView,
};
use crate::config::{ContainerConfig, ContainerConfigView, HostConfig};
use crate::container::{SidecarRequest, SidecarRequestView};
use crate::error::Error;
use crate::file::{decode_b64, decoded_text};
use crate::mount::{
    copy_opt, is_bind, kinds_differ, opt_text, Mount, MountKind, MountPointView, MountView,
};
use crate::text::{trim, trimmed};

verus! {

/// The request that restores the archive `archive`, found below the backup
/// source `mount`, into the host directory `directory`.
pub open spec fn directory_restore_request(
    archive: Seq<char>,
    mount: MountView,
    directory: Seq<char>,
) -> SidecarRequestView {
    SidecarRequestView {
        mounts: seq![mount, MountView { source: directory, target: "/output"@, kind: MountKind::Bind }],
        args: seq!["restore"@, "directory"@, joined(mount.target, archive), "/output"@],
        log_prefix: "restore directory "@ + directory,
    }
}

/// Asks a helper to restore an archive into a host directory: the backup
/// source is attached, the directory is bound at `/output`, and the helper
/// unpacks the one into the other.
pub fn restore_directory_from_mount(archive: &str, backup_mount: Mount, directory: String) -> (request:
    SidecarRequest)
    ensures
        request@ == directory_restore_request(archive@, backup_mount@, directory@),
{
    let log_prefix = String::from_str("restore directory ").concat(directory.as_str());
    let mounted_backup = backup_mount.target.clone().concat("/").concat(archive);
    let mut args: Vec<String> = Vec::new();
    args.push(String::from_str("restore"));
    args.push(String::from_str("directory"));
    args.push(mounted_backup);
    args.push(String::from_str("/output"));
    let output_mount = Mount {
        source: directory,
        target: String::from_str("/output"),
        kind: MountKind::Bind,
    };
    let mut mounts: Vec<Mount> = Vec::new();
    mounts.push(backup_mount);
    mounts.push(output_mount);
    let request = SidecarRequest { mounts, args, log_prefix };
    proof {
        let want = directory_restore_request(archive@, backup_mount@, directory@);
        assert(request@.mounts =~= want.mounts);
        assert(request@.args =~= want.args);
    }
    request
}

/// The restore of a volume: the volume that has to exist first, the driver
/// it is created with where it does not, and the request that fills it.
#[derive(Clone, Debug, PartialEq, Eq)]
pub struct VolumeRestore {
    pub volume: String,
    pub driver: String,
    pub request: SidecarRequest,
}

/// What a `VolumeRestore` stands for.
pub struct VolumeRestoreView {
    pub volume: Seq<char>,
    pub driver: Seq<char>,
    pub request: SidecarRequestView,
}

impl View for VolumeRestore {
    type V = VolumeRestoreView;

    open spec fn view(&self) -> VolumeRestoreView {
        VolumeRestoreView { volume: self.volume@, driver: self.driver@, request: self.request@ }
    }
}

/// The restore of the archive `archive`, found below the backup source
/// `mount`, into the volume of `volume_mount`.
pub open spec fn volume_restore(archive: Seq<char>, mount: MountView, volume_mount: MountView) -> VolumeRestoreView {
    VolumeRestoreView {
        volume: volume_mount.source,
        driver: "local"@,
        request: SidecarRequestView {
            mounts: seq![mount, volume_mount],
            args: seq!["restore"@, "directory"@, joined(mount.target, archive), volume_mount.target],
            log_prefix: "restore volume "@ + volume_mount.source,
        },
    }
}

/// Asks for a volume to be restored: the volume is created where it does
/// not exist, then a helper with the backup source and the volume attached
/// unpacks the archive into the volume.
pub fn restore_volume(archive: &str, backup_mount: Mount, volume_mount: Mount) -> (restore:
    VolumeRestore)
    ensures
        restore@ == volume_restore(archive@, backup_mount@, volume_mount@),
{
    let volume = volume_mount.source.clone();
    let log_prefix = String::from_str("restore volume ").concat(volume.as_str());
    let mounted_backup = backup_mount.target.clone().concat("/").concat(archive);
    let mut args: Vec<String> = Vec::new();
    args.push(String::from_str("restore"));
    args.push(String::from_str("directory"));
    args.push(mounted_backup);
    args.push(volume_mount.target.clone());
    let mut mounts: Vec<Mount> = Vec::new();
    mounts.push(backup_mount);
    mounts.push(volume_mount);
    let request = SidecarRequest { mounts, args, log_prefix };
    proof {
        let want = volume_restore(archive@, backup_mount@, volume_mount@).request;
        assert(request@.mounts =~= want.mounts);
        assert(request@.args =~= want.args);
    }
    VolumeRestore { volume, driver: String::from_str("local"), request }
}

/// The request that reads the backup file `backup_file` of a container,
/// encoded, from below the backup source.
pub open spec fn manifest_read_request(
    backup_file: Seq<char>,
    container: Seq<char>,
    mount: MountView,
) -> SidecarRequestView {
    SidecarRequestView {
        mounts: seq![mount],
        args: seq!["cat"@, "--encoded"@, "-f"@, "/backup/"@ + backup_file],
        log_prefix: "restore container "@ + container,
    }
}

/// Asks a helper to print the backup file of a container, encoded.
pub fn read_container_backup(backup_file: &str, container: &str, backup_mount: Mount) -> (request:
    SidecarRequest)
    ensures
        request@ == manifest_read_request(backup_file@, container@, backup_mount@),
{
    let mut args: Vec<String> = Vec::new();
    args.push(String::from_str("cat"));
    args.push(String::from_str("--encoded"));
    args.push(String::from_str("-f"));
    args.push(String::from_str("/backup/").concat(backup_file));
    let mut mounts: Vec<Mount> = Vec::new();
    mounts.push(backup_mount);
    let request = SidecarRequest {
        mounts,
        args,
        log_prefix: String::from_str("restore container ").concat(container),
    };
    proof {
        let want = manifest_read_request(backup_file@, container@, backup_mount@);
        assert(request@.mounts =~= want.mounts);
        assert(request@.args =~= want.args);
    }
    request
}

/// The backup file as text, given what its encoded form was decoded to: an
/// empty file is an error of its own.
pub open spec fn checked_manifest(decoded: Option<Seq<char>>) -> Result<Seq<char>, Error> {
    match decoded {
        None => Err(Error::InvalidEncoding),
        Some(text) => if text.len() == 0 {
            Err(Error::EmptyBackupFile)
        } else {
            Ok(text)
        },
    }
}

/// The backup file as text, given what the helper that read it gave back.
/// The encoded file is the last line of the output. No output at all, and
/// a file that decodes to nothing, count as an empty backup file.
pub open spec fn manifest_outcome(exit_code: i64, logs: Seq<String>) -> Result<Seq<char>, Error> {
    if logs.len() == 0 {
        Err(Error::EmptyBackupFile)
    } else if exit_code != 0 {
        Err(Error::NonZeroExit(exit_code))
    } else {
        checked_manifest(decoded_text(trimmed(logs.last()@)))
    }
}

/// Checks a decoded backup file: it must hold something.
pub fn check_manifest(decoded: Result<String, Error>) -> (manifest: Result<String, Error>)
    ensures
        match decoded {
            Ok(text) => crate::backup::path_view(manifest) == checked_manifest(Some(text@)),
            Err(e) => manifest == Err::<String, Error>(e),
        },
{
    match decoded {
        Ok(text) => {
            if text.as_str().is_empty() {
                Err(Error::EmptyBackupFile)
            } else {
                Ok(text)
            }
        },
        Err(e) => Err(e),
    }
}

/// Reads the backup file of a container from what the helper gave back.
pub fn read_manifest(exit_code: i64, logs: &Vec<String>) -> (manifest: Result<String, Error>)
    ensures
        crate::backup::path_view(manifest) == manifest_outcome(exit_code, logs@),
{
    if logs.len() == 0 {
        return Err(Error::EmptyBackupFile);
    }
    if exit_code != 0 {
        return Err(Error::NonZeroExit(exit_code));
    }
    let encoded = trim(logs[logs.len() - 1].as_str());
    check_manifest(decode_b64(encoded.as_str()))
}

/// The lines of the helper's output that come before the encoded file.
pub fn manifest_log_lines(logs: &Vec<String>) -> (lines: Vec<String>)
    ensures
        lines@.len() == (if logs@.len() == 0 {
            0
        } else {
            logs@.len() - 1
        }),
        forall|i: int| 0 <= i < lines@.len() ==> (#[trigger] lines@[i])@ == logs@[i]@,
{
    let mut lines: Vec<String> = Vec::new();
    if logs.len() == 0 {
        return lines;
    }
    let last: usize = logs.len() - 1;
    let mut i: usize = 0;
    while i < last
        invariant
            lines@.len() == i,
            i <= last,
            last + 1 == logs@.len(),
            forall|k: int| 0 <= k < i ==> (#[trigger] lines@[k])@ == logs@[k]@,
        decreases last - i,
    {
        lines.push(logs[i].clone());
        i += 1;
    }
    lines
}

/// A backup that decodes to an empty text fails as an empty backup file,
/// whatever else the helper printed, and never as text handed on to be
/// parsed.
pub proof fn empty_manifest_is_refused(exit_code: i64, logs: Seq<String>)
    requires
        logs.len() > 0,
        exit_code == 0,
        decoded_text(trimmed(logs.last()@)) == Some(Seq::<char>::empty()),
    ensures
        manifest_outcome(exit_code, logs) == Err::<Seq<char>, Error>(Error::EmptyBackupFile),
{
}

/// A mount backup that can be restored: its record has a kind, a bind has
/// its source, and every other record has a volume name.
pub open spec fn can_restore(m: MountPointView) -> bool {
    &&& m.typ is Some
    &&& is_bind(m) ==> m.source is Some
    &&& !is_bind(m) ==> m.name is Some
}

/// What keeps a mount backup from being restored, if anything: a record
/// that cannot be restored, or an archive whose path cannot be resolved
/// below the backup source.
pub open spec fn restore_problem(b: MountBackupView) -> Option<Error> {
    if !can_restore(b.mount) {
        Some(Error::InvalidMount)
    } else if !is_relative(b.path) {
        Some(Error::UnresolvableArchivePath)
    } else {
        None
    }
}

/// The problem of the first mount backup that has one.
pub open spec fn first_problem(mounts: Seq<MountBackupView>) -> Option<Error>
    decreases mounts.len(),
{
    if mounts.len() == 0 {
        None
    } else if restore_problem(mounts[0]) is Some {
        restore_problem(mounts[0])
    } else {
        first_problem(mounts.drop_first())
    }
}

proof fn first_problem_after(mounts: Seq<MountBackupView>, i: int)
    requires
        0 <= i <= mounts.len(),
        forall|k: int| 0 <= k < i ==> restore_problem(#[trigger] mounts[k]) is None,
    ensures
        first_problem(mounts) == first_problem(mounts.subrange(i, mounts.len() as int)),
    decreases i,
{
    if i == 0 {
        assert(mounts.subrange(0, mounts.len() as int) =~= mounts);
    } else {
        assert(restore_problem(mounts[0]) is None);
        assert forall|k: int| 0 <= k < i - 1 implies restore_problem(
            #[trigger] mounts.drop_first()[k],
        ) is None by {
            assert(mounts.drop_first()[k] == mounts[k + 1]);
        }
        first_problem_after(mounts.drop_first(), i - 1);
        assert(mounts.drop_first().subrange(i - 1, mounts.len() - 1) =~= mounts.subrange(
            i,
            mounts.len() as int,
        ));
    }
}

/// The host path or the volume that a mount backup is restored to: the
/// place it was backed up from.
pub open spec fn restore_target(m: MountPointView) -> Seq<char> {
    if is_bind(m) {
        m.source->0
    } else {
        m.name->0
    }
}

/// The restore of a container while it is made: the mount backups to
/// restore, in order, and how many are restored so far.
#[derive(Debug)]
pub struct RestoreSession {
    backup: ContainerBackup,
    source: Mount,
    restored: usize,
    aborted: bool,
}

/// What a `RestoreSession` stands for.
pub struct RestoreSessionView {
    pub backup: ContainerBackupView,
    pub source: MountView,
    pub restored: nat,
    pub aborted: bool,
}

impl RestoreSessionView {
    /// No more mounts are restored than there are, and each can be restored
    /// from an archive below the backup source.
    pub open spec fn wf(self) -> bool {
        &&& self.restored <= self.backup.mounts.len()
        &&& forall|i: int|
            0 <= i < self.backup.mounts.len() ==> restore_problem(#[trigger] self.backup.mounts[i]) is None
    }

    /// A mount is still to be restored.
    pub open spec fn pending(self) -> bool {
        !self.aborted && self.restored < self.backup.mounts.len()
    }

    /// Every mount was restored.
    pub open spec fn complete(self) -> bool {
        !self.aborted && self.restored == self.backup.mounts.len()
    }

    /// The mount backup that is restored next.
    pub open spec fn current(self) -> MountBackupView
        recommends
            self.pending(),
    {
        self.backup.mounts[self.restored as int]
    }
}

impl View for RestoreSession {
    type V = RestoreSessionView;

    closed spec fn view(&self) -> RestoreSessionView {
        RestoreSessionView {
            backup: self.backup@,
            source: self.source@,
            restored: self.restored as nat,
            aborted: self.aborted,
        }
    }
}

/// What a restore session asks for next.
#[derive(Clone, Debug, PartialEq, Eq)]
pub enum RestoreStep {
    /// Run a helper on this request, and record its exit code.
    Directory(SidecarRequest),
    /// Make sure the volume exists, run a helper on the request, and record
    /// its exit code.
    Volume(VolumeRestore),
    /// Every mount is restored: pull the image where it is not there yet,
    /// and create the container.
    CreateContainer,
    /// A mount failed: nothing more is to be done.
    Aborted,
}

/// What a `RestoreStep` stands for.
pub enum RestoreStepView {
    Directory(SidecarRequestView),
    Volume(VolumeRestoreView),
    CreateContainer,
    Aborted,
}

impl View for RestoreStep {
    type V = RestoreStepView;

    open spec fn view(&self) -> RestoreStepView {
        match self {
            RestoreStep::Directory(request) => RestoreStepView::Directory(request@),
            RestoreStep::Volume(restore) => RestoreStepView::Volume(restore@),
            RestoreStep::CreateContainer => RestoreStepView::CreateContainer,
            RestoreStep::Aborted => RestoreStepView::Aborted,
        }
    }
}

/// The restore of one mount backup: a bind goes back to the host path it
/// was backed up from, a volume to the volume of its name.
pub open spec fn mount_restore_step(b: MountBackupView, source: MountView) -> RestoreStepView {
    if is_bind(b.mount) {
        RestoreStepView::Directory(directory_restore_request(b.path, source, b.mount.source->0))
    } else {
        RestoreStepView::Volume(
            volume_restore(
                b.path,
                source,
                MountView { source: b.mount.name->0, target: "/volume"@, kind: MountKind::Volume },
            ),
        )
    }
}

/// What a session asks for next.
pub open spec fn next_restore_step(s: RestoreSessionView) -> RestoreStepView {
    if s.aborted {
        RestoreStepView::Aborted
    } else if s.restored < s.backup.mounts.len() {
        mount_restore_step(s.current(), s.source)
    } else {
        RestoreStepView::CreateContainer
    }
}

/// The mount that failed to be restored, and why.
#[derive(Clone, Debug, PartialEq, Eq)]
pub struct RestoreFailure {
    pub mount: String,
    pub cause: Error,
}

/// The session after a helper's exit code was recorded, and the failure
/// that the record reports: the mount and the cause.
pub open spec fn restore_recorded(s: RestoreSessionView, exit_code: i64) -> (
    RestoreSessionView,
    Option<(Seq<char>, Error)>,
) {
    if !s.pending() {
        (s, Some((Seq::empty(), Error::OutOfTurn)))
    } else if exit_code == 0 {
        (RestoreSessionView { restored: s.restored + 1, ..s }, None)
    } else {
        (
            RestoreSessionView { aborted: true, ..s },
            Some((restore_target(s.current().mount), Error::NonZeroExit(exit_code))),
        )
    }
}

/// The view of a failure, if there is one.
pub open spec fn failure_view(r: Result<(), RestoreFailure>) -> Option<(Seq<char>, Error)> {
    match r {
        Ok(_) => None,
        Err(f) => Some((f.mount@, f.cause)),
    }
}

/// Begins the restore of a container from its backup: the mount backups
/// are to be restored from `backup_mount`, one at a time and in the order
/// of the backup. Nothing is restored where one of them cannot be: the
/// first such mount decides the error.
pub fn restore_container(backup: ContainerBackup, backup_mount: Mount) -> (session: Result<
    RestoreSession,
    Error,
>)
    ensures
        first_problem(backup@.mounts) is Some <==> session is Err,
        session is Err ==> Some(session->Err_0) == first_problem(backup@.mounts),
        session is Ok ==> session->Ok_0@ == (RestoreSessionView {
            backup: backup@,
            source: backup_mount@,
            restored: 0,
            aborted: false,
        }) && session->Ok_0@.wf(),
{
    let mut i: usize = 0;
    while i < backup.mounts.len()
        invariant
            i <= backup.mounts@.len(),
            forall|k: int| 0 <= k < i ==> restore_problem(#[trigger] backup@.mounts[k]) is None,
        decreases backup.mounts@.len() - i,
    {
        let b = &backup.mounts[i];
        proof {
            assert(backup@.mounts[i as int] == b@);
            first_problem_after(backup@.mounts, i as int);
            assert(backup@.mounts.subrange(i as int, backup@.mounts.len() as int)[0] == b@);
        }
        let fine = match &b.mount.typ {
            None => false,
            Some(_) => if b.mount.is_bind() {
                b.mount.source.is_some()
            } else {
                b.mount.name.is_some()
            },
        };
        if !fine {
            return Err(Error::InvalidMount);
        }
        let path = b.path.as_str();
        if path.is_empty() || path.get_char(0) == '/' {
            return Err(Error::UnresolvableArchivePath);
        }
        i += 1;
    }
    proof {
        first_problem_after(backup@.mounts, i as int);
    }
    let session = RestoreSession { backup, source: backup_mount, restored: 0, aborted: false };
    Ok(session)
}

impl RestoreSession {
    #[verifier::type_invariant]
    spec fn well_formed(self) -> bool {
        self@.wf()
    }

    /// The number of mounts restored so far.
    pub fn restored(&self) -> (count: usize)
        ensures
            count == self@.restored,
    {
        self.restored
    }

    /// The place that is restored next: the host path of a bind, the name of
    /// a volume. There is none where nothing is left to restore.
    pub fn pending_mount(&self) -> (target: Option<String>)
        ensures
            opt_text(target) == (if self@.pending() {
                Some(restore_target(self@.current().mount))
            } else {
                None
            }),
    {
        proof {
            use_type_invariant(self);
        }
        if self.aborted || self.restored >= self.backup.mounts.len() {
            return None;
        }
        let b = &self.backup.mounts[self.restored];
        proof {
            assert(self@.backup.mounts[self.restored as int] == b@);
            assert(restore_problem(self@.backup.mounts[self.restored as int]) is None);
        }
        if b.mount.is_bind() {
            copy_opt(&b.mount.source)
        } else {
            copy_opt(&b.mount.name)
        }
    }

    /// Says what to do next.
    pub fn next(&self) -> (step: RestoreStep)
        ensures
            step@ == next_restore_step(self@),
            self@.wf(),
    {
        proof {
            use_type_invariant(self);
        }
        if self.aborted {
            return RestoreStep::Aborted;
        }
        if self.restored < self.backup.mounts.len() {
            let b = &self.backup.mounts[self.restored];
            proof {
                assert(self@.backup.mounts[self.restored as int] == b@);
                assert(restore_problem(self@.backup.mounts[self.restored as int]) is None);
            }
            if b.mount.is_bind() {
                match &b.mount.source {
                    Some(directory) => RestoreStep::Directory(
                        restore_directory_from_mount(
                            b.path.as_str(),
                            self.source.duplicate(),
                            directory.clone(),
                        ),
                    ),
                    None => RestoreStep::Aborted,
                }
            } else {
                match &b.mount.name {
                    Some(volume) => RestoreStep::Volume(
                        restore_volume(
                            b.path.as_str(),
                            self.source.duplicate(),
                            crate::mount::get_volume_mount(volume.clone()),
                        ),
                    ),
                    None => RestoreStep::Aborted,
                }
            }
        } else {
            RestoreStep::CreateContainer
        }
    }

    /// Records the exit code of the helper of the last request.
    pub fn record(&mut self, exit_code: i64) -> (outcome: Result<(), RestoreFailure>)
        ensures
            (final(self)@, failure_view(outcome)) == restore_recorded(old(self)@, exit_code),
            old(self)@.wf(),
            final(self)@.wf(),
    {
        proof {
            use_type_invariant(&*self);
        }
        if self.aborted || self.restored >= self.backup.mounts.len() {
            return Err(RestoreFailure { mount: String::new(), cause: Error::OutOfTurn });
        }
        if exit_code == 0 {
            self.restored = self.restored + 1;
            return Ok(());
        }
        let b = &self.backup.mounts[self.restored];
        proof {
            assert(self@.backup.mounts[self.restored as int] == b@);
            assert(restore_problem(self@.backup.mounts[self.restored as int]) is None);
        }
        let target = if b.mount.is_bind() {
            &b.mount.source
        } else {
            &b.mount.name
        };
        let mount = match target {
            Some(t) => t.clone(),
            None => String::new(),
        };
        self.aborted = true;
        Err(RestoreFailure { mount, cause: Error::NonZeroExit(exit_code) })
    }

    /// The backup whose mounts were restored, once every one of them is: the
    /// container can then be created from it.
    pub fn finish(self) -> (backup: Result<ContainerBackup, Error>)
        ensures
            self@.complete() <==> backup is Ok,
            backup is Err ==> backup->Err_0 == Error::OutOfTurn,
            backup is Ok ==> backup->Ok_0@ == self@.backup,
    {
        if self.aborted || self.restored != self.backup.mounts.len() {
            Err(Error::OutOfTurn)
        } else {
            Ok(self.backup)
        }
    }

    /// Gives the session up, as after an error of the daemon.
    pub fn abort(&mut self)
        ensures
            final(self)@ == (RestoreSessionView { aborted: true, ..old(self)@ }),
    {
        proof {
            use_type_invariant(&*self);
        }
        self.aborted = true;
    }
}

/// The mounts of a backup are restored one at a time and in the order of
/// the backup: the request is always for the first mount not yet restored,
/// a success moves on by exactly that mount, and a failure names it and
/// aborts the session.
pub proof fn mounts_are_restored_in_order(s: RestoreSessionView, exit_code: i64)
    requires
        s.wf(),
        s.pending(),
    ensures
        next_restore_step(s) == mount_restore_step(s.backup.mounts[s.restored as int], s.source),
        restore_recorded(s, exit_code).0.wf(),
        restore_recorded(s, exit_code).0.backup == s.backup,
        exit_code == 0 ==> restore_recorded(s, exit_code).0.restored == s.restored + 1
            && !restore_recorded(s, exit_code).0.aborted,
        exit_code != 0 ==> restore_recorded(s, exit_code).0.aborted && restore_recorded(
            s,
            exit_code,
        ).0.restored == s.restored && restore_recorded(s, exit_code).1 == Some(
            (restore_target(s.backup.mounts[s.restored as int].mount), Error::NonZeroExit(exit_code)),
        ),
{
}

/// Once a mount has failed nothing more is attempted: no request is made,
/// and no result is taken.
pub proof fn nothing_follows_a_failed_restore(s: RestoreSessionView, exit_code: i64)
    requires
        s.aborted,
    ensures
        next_restore_step(s) == RestoreStepView::Aborted,
        restore_recorded(s, exit_code).0 == s,
        restore_recorded(s, exit_code).1 is Some,
{
}

/// The session after the exit codes of several helpers were recorded, one
/// after the other.
pub open spec fn after_exit_codes(s: RestoreSessionView, codes: Seq<i64>) -> RestoreSessionView
    decreases codes.len(),
{
    if codes.len() == 0 {
        s
    } else {
        restore_recorded(after_exit_codes(s, codes.drop_last()), codes.last()).0
    }
}

/// Whatever the helpers give back, a new session asks for the restore of a
/// mount only when every mount before it has been restored with success,
/// and then for the next mount in the order of the backup: the request
/// that follows `n` exit codes is for the mount at place `n`.
pub proof fn restores_follow_the_order_of_the_backup(s: RestoreSessionView, codes: Seq<i64>)
    requires
        s.wf(),
        s.restored == 0,
        !s.aborted,
    ensures
        after_exit_codes(s, codes).wf(),
        after_exit_codes(s, codes).backup == s.backup,
        after_exit_codes(s, codes).source == s.source,
        after_exit_codes(s, codes).pending() ==> {
            &&& codes.len() < s.backup.mounts.len()
            &&& after_exit_codes(s, codes).restored == codes.len()
            &&& next_restore_step(after_exit_codes(s, codes)) == mount_restore_step(
                s.backup.mounts[codes.len() as int],
                s.source,
            )
            &&& forall|j: int| 0 <= j < codes.len() ==> codes[j] == 0
        },
    decreases codes.len(),
{
    if codes.len() > 0 {
        let front = codes.drop_last();
        restores_follow_the_order_of_the_backup(s, front);
        if after_exit_codes(s, front).pending() && after_exit_codes(s, codes).pending() {
            assert forall|j: int| 0 <= j < codes.len() implies codes[j] == 0 by {
                if j < front.len() {
                    assert(codes[j] == front[j]);
                }
            }
        }
    }
}

/// Whatever a backup session has backed up can be restored: each of its
/// mount backups has a record with a source or a name, and an archive at a
/// path below the destination.
pub proof fn backups_can_be_restored(s: BackupSessionView)
    requires
        s.wf(),
    ensures
        first_problem(s.backups) is None,
{
    kinds_differ();
    assert forall|k: int| 0 <= k < s.backups.len() implies restore_problem(
        #[trigger] s.backups[k],
    ) is None by {
        assert(s.backups[k].mount == s.mounts[k]);
        assert(can_back_up(s.mounts[k]));
    }
    first_problem_after(s.backups, s.backups.len() as int);
}

/// A mount is restored to the place it was backed up from: a bind to the
/// host path that the helper of its backup read, a volume to the volume
/// that the helper of its backup had attached.
pub proof fn restore_goes_back_to_the_source(s: BackupSessionView, source: MountView, i: int)
    requires
        s.wf(),
        0 <= i < s.backups.len(),
    ensures
        is_bind(s.mounts[i]) ==> mount_restore_step(s.backups[i], source) is Directory
            && mount_restore_step(s.backups[i], source)->Directory_0.mounts[1].source
            == mount_backup_request(s.mounts[i], s.destination).mounts[0].source,
        !is_bind(s.mounts[i]) ==> mount_restore_step(s.backups[i], source) is Volume
            && mount_restore_step(s.backups[i], source)->Volume_0.volume == mount_backup_request(
            s.mounts[i],
            s.destination,
        ).mounts[0].source,
        mount_restore_step(s.backups[i], source) matches RestoreStepView::Directory(request)
            ==> request.args[2] == joined(source.target, s.backups[i].path),
        mount_restore_step(s.backups[i], source) matches RestoreStepView::Volume(restore)
            ==> restore.request.args[2] == joined(source.target, s.backups[i].path),
{
    assert(s.backups[i].mount == s.mounts[i]);
    assert(can_back_up(s.mounts[i]));
}

/// The container to create from a backup.
#[derive(Clone, Debug, PartialEq, Eq)]
pub struct CreateRequest {
    /// The name of the new container.
    pub name: String,
    /// The image to pull first, and to create the container from.
    pub image: String,
    /// The container's own configuration, as the backup holds it.
    pub container_config: ContainerConfig,
    /// The container's host configuration, as the backup holds it.
    pub host_config: HostConfig,
}

/// What a `CreateRequest` stands for.
pub struct CreateRequestView {
    pub name: Seq<char>,
    pub image: Seq<char>,
    pub container_config: ContainerConfigView,
    pub host_config: Seq<char>,
}

impl View for CreateRequest {
    type V = CreateRequestView;

    open spec fn view(&self) -> CreateRequestView {
        CreateRequestView {
            name: self.name@,
            image: self.image@,
            container_config: self.container_config@,
            host_config: self.host_config@,
        }
    }
}

/// The container to create from a backup under the name `container`: its
/// image, its own configuration and its host configuration are those of
/// the backup. A backup without an image cannot be restored.
pub open spec fn creation(backup: ContainerBackupView, container: Seq<char>) -> Result<
    CreateRequestView,
    Error,
> {
    match backup.container_config.image {
        None => Err(Error::MissingImage),
        Some(image) => Ok(
            CreateRequestView {
                name: container,
                image,
                container_config: backup.container_config,
                host_config: backup.host_config,
            },
        ),
    }
}

/// The view of a request or an error.
pub open spec fn request_view(r: Result<CreateRequest, Error>) -> Result<CreateRequestView, Error> {
    match r {
        Ok(request) => Ok(request@),
        Err(e) => Err(e),
    }
}

/// The container to create from a backup, under a new name.
pub fn create_request(backup: ContainerBackup, container: &str) -> (request: Result<
    CreateRequest,
    Error,
>)
    ensures
        request_view(request) == creation(backup@, container@),
{
    let image = match &backup.container_config.image {
        None => {
            return Err(Error::MissingImage);
        },
        Some(image) => image.clone(),
    };
    Ok(
        CreateRequest {
            name: String::from_str(container),
            image,
            container_config: backup.container_config,
            host_config: backup.host_config,
        },
    )
}

/// The container that is created from a backup has the environment, the
/// command, the labels, the exposed ports, the health check, the working
/// directory, the entry point and the host configuration of the container
/// that was backed up, and its image.
pub proof fn creation_keeps_the_configuration(backup: ContainerBackupView, container: Seq<char>)
    requires
        backup.container_config.image is Some,
    ensures
        creation(backup, container) is Ok,
        creation(backup, container)->Ok_0.name == container,
        Some(creation(backup, container)->Ok_0.image) == backup.container_config.image,
        creation(backup, container)->Ok_0.container_config.env == backup.container_config.env,
        creation(backup, container)->Ok_0.container_config.cmd == backup.container_config.cmd,
        creation(backup, container)->Ok_0.container_config.labels == backup.container_config.labels,
        creation(backup, container)->Ok_0.container_config.exposed_ports
            == backup.container_config.exposed_ports,
        creation(backup, container)->Ok_0.container_config.healthcheck
            == backup.container_config.healthcheck,
        creation(backup, container)->Ok_0.container_config.working_dir
            == backup.container_config.working_dir,
        creation(backup, container)->Ok_0.container_config.entrypoint
            == backup.container_config.entrypoint,
        creation(backup, container)->Ok_0.container_config == backup.container_config,
        creation(backup, container)->Ok_0.host_config == backup.host_config,
        backup.container_config.wf() ==> creation(backup, container)->Ok_0.container_config.wf(),
{
}

} // verus!
