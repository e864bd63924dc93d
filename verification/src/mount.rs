//! Mounts, the mount records of a container, and the rule that decides which
//! of them are backed up.

use vstd::prelude::*;
use crate::error::Error;
use crate::text::{is_listed, listed, name_set, same_text};

verus! {

/// The host path of the daemon's control socket. A bind to it is never
/// backed up.
pub const CONTROL_SOCKET: &'static str = "/var/run/docker.sock";

/// How a mount is attached.
#[derive(Clone, Copy, Debug, PartialEq, Eq, Structural)]
pub enum MountKind {
    /// A host path mapped into the container.
    Bind,
    /// A volume of the daemon, referred to by name.
    Volume,
}

/// A filesystem attachment of a container or of a helper.
#[derive(Clone, Debug, PartialEq, Eq)]
pub struct Mount {
    /// Host path or volume name.
    pub source: String,
    /// Path inside the container.
    pub target: String,
    pub kind: MountKind,
}

/// What a `Mount` stands for.
pub struct MountView {
    pub source: Seq<char>,
    pub target: Seq<char>,
    pub kind: MountKind,
}

impl View for Mount {
    type V = MountView;

    open spec fn view(&self) -> MountView {
        MountView { source: self.source@, target: self.target@, kind: self.kind }
    }
}

/// The views of a sequence of mounts.
pub open spec fn mount_views(v: Seq<Mount>) -> Seq<MountView> {
    Seq::new(v.len(), |i: int| v[i]@)
}

impl Mount {
    /// A mount with the same source, target and kind.
    pub fn duplicate(&self) -> (copy: Mount)
        ensures
            copy@ == self@,
    {
        Mount { source: self.source.clone(), target: self.target.clone(), kind: self.kind }
    }
}

/// The view of a text that may be absent.
pub open spec fn opt_text(o: Option<String>) -> Option<Seq<char>> {
    match o {
        Some(s) => Some(s@),
        None => None,
    }
}

/// A copy of a text that may be absent.
pub fn copy_opt(o: &Option<String>) -> (copy: Option<String>)
    ensures
        opt_text(copy) == opt_text(*o),
{
    match o {
        Some(s) => Some(s.clone()),
        None => None,
    }
}

/// One mount of a container, as an inspection of the container reports it.
#[derive(Clone, Debug, PartialEq, Eq)]
pub struct MountPoint {
    /// `bind`, `volume`, or another kind such as `tmpfs`.
    pub typ: Option<String>,
    /// The volume's name, for a volume.
    pub name: Option<String>,
    /// The host path.
    pub source: Option<String>,
    /// The path inside the container.
    pub destination: Option<String>,
    pub driver: Option<String>,
    pub mode: Option<String>,
    pub rw: Option<bool>,
    pub propagation: Option<String>,
}

/// What a `MountPoint` stands for.
pub struct MountPointView {
    pub typ: Option<Seq<char>>,
    pub name: Option<Seq<char>>,
    pub source: Option<Seq<char>>,
    pub destination: Option<Seq<char>>,
    pub driver: Option<Seq<char>>,
    pub mode: Option<Seq<char>>,
    pub rw: Option<bool>,
    pub propagation: Option<Seq<char>>,
}

impl View for MountPoint {
    type V = MountPointView;

    open spec fn view(&self) -> MountPointView {
        MountPointView {
            typ: opt_text(self.typ),
            name: opt_text(self.name),
            source: opt_text(self.source),
            destination: opt_text(self.destination),
            driver: opt_text(self.driver),
            mode: opt_text(self.mode),
            rw: self.rw,
            propagation: opt_text(self.propagation),
        }
    }
}

/// The views of a sequence of mount records.
pub open spec fn mount_point_views(v: Seq<MountPoint>) -> Seq<MountPointView> {
    Seq::new(v.len(), |i: int| v[i]@)
}

impl MountPoint {
    /// A record with the same fields.
    pub fn duplicate(&self) -> (copy: MountPoint)
        ensures
            copy@ == self@,
    {
        MountPoint {
            typ: copy_opt(&self.typ),
            name: copy_opt(&self.name),
            source: copy_opt(&self.source),
            destination: copy_opt(&self.destination),
            driver: copy_opt(&self.driver),
            mode: copy_opt(&self.mode),
            rw: self.rw,
            propagation: copy_opt(&self.propagation),
        }
    }

    /// Tells whether the record is a bind mount.
    pub fn is_bind(&self) -> (yes: bool)
        ensures
            yes == is_bind(self@),
    {
        match &self.typ {
            Some(t) => same_text(t.as_str(), "bind"),
            None => false,
        }
    }

    /// Tells whether the record is a volume mount.
    pub fn is_volume(&self) -> (yes: bool)
        ensures
            yes == is_volume(self@),
    {
        match &self.typ {
            Some(t) => same_text(t.as_str(), "volume"),
            None => false,
        }
    }
}

/// No record is both a bind and a volume.
pub proof fn kinds_differ()
    ensures
        "bind"@ != "volume"@,
{
    reveal_strlit("bind");
    reveal_strlit("volume");
    assert("bind"@.len() == 4);
    assert("volume"@.len() == 6);
}

/// Whether a record is a bind mount.
pub open spec fn is_bind(m: MountPointView) -> bool {
    m.typ == Some("bind"@)
}

/// Whether a record is a volume mount.
pub open spec fn is_volume(m: MountPointView) -> bool {
    m.typ == Some("volume"@)
}

/// A record that cannot be backed up or restored: a volume without a name,
/// or a bind without a source.
pub open spec fn is_invalid(m: MountPointView) -> bool {
    (is_volume(m) && m.name is None) || (is_bind(m) && m.source is None)
}

/// Whether a volume's driver option `type` marks a network filesystem.
pub open spec fn is_network_type(volume_type: Option<Seq<char>>) -> bool {
    volume_type == Some("nfs"@) || volume_type == Some("nfs4"@)
}

/// What the classifier says of one mount.
#[derive(Clone, Copy, Debug, PartialEq, Eq, Structural)]
pub enum MountDecision {
    /// The mount is backed up.
    Include,
    /// A volume on a network filesystem.
    IgnoreNetworkVolume,
    /// A volume that the caller excluded by name.
    IgnoreExcludedVolume,
    /// A bind to the daemon's control socket.
    IgnoreControlSocket,
    /// Neither a bind nor a volume.
    IgnoreUnknownKind,
}

/// The decision for a valid mount record. `volume_type` is the driver option
/// `type` of the volume, where the record is a volume; `excluded` are the
/// volume names that the caller excludes. They are read as a set: the
/// decision depends only on which names occur among them.
pub open spec fn mount_decision(
    m: MountPointView,
    volume_type: Option<Seq<char>>,
    excluded: Seq<String>,
) -> MountDecision {
    if is_volume(m) {
        if is_network_type(volume_type) {
            MountDecision::IgnoreNetworkVolume
        } else if listed(excluded, m.name->0) {
            MountDecision::IgnoreExcludedVolume
        } else {
            MountDecision::Include
        }
    } else if is_bind(m) {
        if m.source == Some(CONTROL_SOCKET@) {
            MountDecision::IgnoreControlSocket
        } else {
            MountDecision::Include
        }
    } else {
        MountDecision::IgnoreUnknownKind
    }
}

/// The volume whose driver options the classifier needs before it can decide:
/// the name of a volume mount, and nothing for any other record.
pub fn volume_to_inspect(mount: &MountPoint) -> (volume: Option<String>)
    ensures
        opt_text(volume) == (if is_volume(mount@) {
            mount@.name
        } else {
            None
        }),
{
    if mount.is_volume() {
        copy_opt(&mount.name)
    } else {
        None
    }
}

/// Decides whether a mount takes part in a backup.
///
/// `volume_type` is what the daemon reports as the driver option `type` of
/// the volume named by `volume_to_inspect`; it is not read for other records.
pub fn filter_mount(mount: &MountPoint, volume_type: Option<&str>, exclude_volumes: &Vec<String>) -> (decision:
    Result<MountDecision, Error>)
    ensures
        is_invalid(mount@) <==> decision is Err,
        decision is Err ==> decision == Err::<MountDecision, Error>(Error::InvalidMount),
        decision is Ok ==> decision->Ok_0 == mount_decision(
            mount@,
            match volume_type {
                Some(t) => Some(t@),
                None => None,
            },
            exclude_volumes@,
        ),
{
    proof {
        kinds_differ();
    }
    if mount.is_volume() {
        match &mount.name {
            None => Err(Error::InvalidMount),
            Some(name) => {
                let network = match volume_type {
                    Some(t) => same_text(t, "nfs") || same_text(t, "nfs4"),
                    None => false,
                };
                if network {
                    Ok(MountDecision::IgnoreNetworkVolume)
                } else if is_listed(exclude_volumes, name.as_str()) {
                    Ok(MountDecision::IgnoreExcludedVolume)
                } else {
                    Ok(MountDecision::Include)
                }
            },
        }
    } else if mount.is_bind() {
        match &mount.source {
            None => Err(Error::InvalidMount),
            Some(source) => {
                if same_text(source.as_str(), CONTROL_SOCKET) {
                    Ok(MountDecision::IgnoreControlSocket)
                } else {
                    Ok(MountDecision::Include)
                }
            },
        }
    } else {
        Ok(MountDecision::IgnoreUnknownKind)
    }
}

/// Tells whether a mount takes part in a backup.
pub fn should_include(mount: &MountPoint, volume_type: Option<&str>, exclude_volumes: &Vec<String>) -> (included:
    bool)
    ensures
        included == (!is_invalid(mount@) && mount_decision(
            mount@,
            match volume_type {
                Some(t) => Some(t@),
                None => None,
            },
            exclude_volumes@,
        ) == MountDecision::Include),
{
    match filter_mount(mount, volume_type, exclude_volumes) {
        Ok(MountDecision::Include) => true,
        _ => false,
    }
}

/// The exclusions count as a set: two lists that hold the same names give
/// the same decision, in whatever order and however often they hold them.
pub proof fn exclusions_are_a_set(
    m: MountPointView,
    volume_type: Option<Seq<char>>,
    one: Seq<String>,
    other: Seq<String>,
)
    requires
        name_set(one) == name_set(other),
    ensures
        mount_decision(m, volume_type, one) == mount_decision(m, volume_type, other),
{
    let name = m.name->0;
    assert(name_set(one).contains(name) == listed(one, name));
    assert(name_set(other).contains(name) == listed(other, name));
}

/// A bind to the control socket is never included. A volume on `nfs` or
/// `nfs4` is never included. A volume whose name the caller excluded is not
/// included. Every other bind with a source, and every other named volume, is
/// included. A record of another kind is not included.
pub proof fn classifier_rules(m: MountPointView, volume_type: Option<Seq<char>>, excluded: Seq<String>)
    ensures
        is_bind(m) && m.source == Some(CONTROL_SOCKET@) ==> mount_decision(m, volume_type, excluded)
            == MountDecision::IgnoreControlSocket,
        is_volume(m) && is_network_type(volume_type) ==> mount_decision(m, volume_type, excluded)
            == MountDecision::IgnoreNetworkVolume,
        is_volume(m) && m.name is Some && listed(excluded, m.name->0) ==> mount_decision(
            m,
            volume_type,
            excluded,
        ) != MountDecision::Include,
        is_bind(m) && m.source != Some(CONTROL_SOCKET@) ==> mount_decision(m, volume_type, excluded)
            == MountDecision::Include,
        is_volume(m) && !is_network_type(volume_type) && !listed(excluded, m.name->0)
            ==> mount_decision(m, volume_type, excluded) == MountDecision::Include,
        !is_bind(m) && !is_volume(m) ==> mount_decision(m, volume_type, excluded)
            == MountDecision::IgnoreUnknownKind,
{
    kinds_differ();
}

/// The mount of a backup destination that is a directory of the host.
pub fn get_backup_directory_mount(directory: String) -> (mount: Mount)
    ensures
        mount@ == (MountView { source: directory@, target: "/backup"@, kind: MountKind::Bind }),
{
    Mount { source: directory, target: String::from_str("/backup"), kind: MountKind::Bind }
}

/// The mount of a backup destination that is a volume.
pub fn get_backup_volume_mount(volume: String) -> (mount: Mount)
    ensures
        mount@ == (MountView { source: volume@, target: "/backup"@, kind: MountKind::Volume }),
{
    Mount { source: volume, target: String::from_str("/backup"), kind: MountKind::Volume }
}

/// The mount of a host directory at the place where a volume is restored.
pub fn get_bind_mount(directory: String) -> (mount: Mount)
    ensures
        mount@ == (MountView { source: directory@, target: "/volume"@, kind: MountKind::Bind }),
{
    Mount { source: directory, target: String::from_str("/volume"), kind: MountKind::Bind }
}

/// The mount of a volume at the place where it is backed up or restored.
pub fn get_volume_mount(volume: String) -> (mount: Mount)
    ensures
        mount@ == (MountView { source: volume@, target: "/volume"@, kind: MountKind::Volume }),
{
    Mount { source: volume, target: String::from_str("/volume"), kind: MountKind::Volume }
}

/// The mount of a backup destination or source given on the command line:
/// a host directory where its kind is `directory`, a volume otherwise.
pub fn backup_mount_for(kind: &str, location: String) -> (mount: Mount)
    ensures
        mount@ == (MountView {
            source: location@,
            target: "/backup"@,
            kind: if kind@ == "directory"@ {
                MountKind::Bind
            } else {
                MountKind::Volume
            },
        }),
{
    if same_text(kind, "directory") {
        get_backup_directory_mount(location)
    } else {
        get_backup_volume_mount(location)
    }
}

/// The mount of a place to restore to given on the command line: a host
/// directory where its kind is `directory`, a volume otherwise.
pub fn restore_mount_for(kind: &str, location: String) -> (mount: Mount)
    ensures
        mount@ == (MountView {
            source: location@,
            target: "/volume"@,
            kind: if kind@ == "directory"@ {
                MountKind::Bind
            } else {
                MountKind::Volume
            },
        }),
{
    if same_text(kind, "directory") {
        get_bind_mount(location)
    } else {
        get_volume_mount(location)
    }
}

} // verus!
