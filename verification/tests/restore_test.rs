use dockyard::backup::{ContainerBackup, MountBackup};
use dockyard::config::{ContainerConfig, HealthConfig, HostConfig};
use dockyard::container::Label;
use dockyard::error::Error;
use dockyard::file::encode_b64;
use dockyard::mount::{
    get_backup_directory_mount, get_volume_mount, Mount, MountKind, MountPoint,
};
use dockyard::restore::{
    check_manifest, create_request, manifest_log_lines, read_container_backup, read_manifest,
    restore_container, restore_directory_from_mount, restore_volume, RestoreFailure, RestoreStep,
};

fn strings(items: &[&str]) -> Vec<String> {
    items.iter().map(|s| s.to_string()).collect()
}

fn record(typ: &str, name: Option<&str>, source: Option<&str>) -> MountPoint {
    MountPoint {
        typ: Some(typ.to_string()),
        name: name.map(|s| s.to_string()),
        source: source.map(|s| s.to_string()),
        destination: Some("/volume".to_string()),
        driver: Some("local".to_string()),
        mode: None,
        rw: None,
        propagation: None,
    }
}

fn backup_of(mounts: Vec<MountBackup>) -> ContainerBackup {
    ContainerBackup {
        name: "web".to_string(),
        container_config: ContainerConfig {
            image: Some("nginx:latest".to_string()),
            cmd: Some(strings(&["tail", "-f", "/dev/null"])),
            env: Some(strings(&["VAR1=a", "VAR2=b"])),
            entrypoint: None,
            working_dir: Some("/var".to_string()),
            exposed_ports: Some(strings(&["80/tcp"])),
            labels: Some(vec![Label { key: "com.a.label-one".to_string(), value: "one".to_string() }]),
            healthcheck: Some(HealthConfig {
                test: Some(strings(&["CMD", "true"])),
                interval: Some(30_000_000_000),
                timeout: None,
                retries: Some(3),
                start_period: None,
            }),
            ..ContainerConfig::empty()
        },
        host_config: HostConfig { settings: "{\"Mounts\":[]}".to_string() },
        mounts,
    }
}

fn three_mounts() -> Vec<MountBackup> {
    vec![
        MountBackup {
            path: "dockyard/binds/:srv:a/1.tgz".to_string(),
            mount: record("bind", Some("ignored"), Some("/srv/a")),
        },
        MountBackup {
            path: "dockyard/volumes/b/2.tgz".to_string(),
            mount: record("volume", Some("b"), Some("/var/lib/docker/volumes/b/_data")),
        },
        MountBackup {
            path: "dockyard/binds/:srv:c/3.tgz".to_string(),
            mount: record("bind", None, Some("/srv/c")),
        },
    ]
}

#[test]
fn directory_restore_request_binds_the_output() {
    let source = get_backup_directory_mount("/tmp/backups".to_string());
    let request = restore_directory_from_mount("a/1.tgz", source.clone(), "/srv/a".to_string());
    assert_eq!(
        request.mounts,
        vec![
            source,
            Mount { source: "/srv/a".to_string(), target: "/output".to_string(), kind: MountKind::Bind }
        ]
    );
    assert_eq!(request.args, strings(&["restore", "directory", "/backup/a/1.tgz", "/output"]));
    assert_eq!(request.log_prefix, "restore directory /srv/a");
}

#[test]
fn volume_restore_creates_the_volume_first() {
    let source = get_backup_directory_mount("/tmp/backups".to_string());
    let volume = get_volume_mount("data".to_string());
    let restore = restore_volume("archive.tgz", source.clone(), volume.clone());
    assert_eq!(restore.volume, "data");
    assert_eq!(restore.driver, "local");
    assert_eq!(restore.request.mounts, vec![source, volume]);
    assert_eq!(
        restore.request.args,
        strings(&["restore", "directory", "/backup/archive.tgz", "/volume"])
    );
    assert_eq!(restore.request.log_prefix, "restore volume data");
}

#[test]
fn manifest_is_read_encoded() {
    let source = get_backup_directory_mount("/tmp/backups".to_string());
    let request = read_container_backup("backup.json", "restored", source.clone());
    assert_eq!(request.mounts, vec![source]);
    assert_eq!(request.args, strings(&["cat", "--encoded", "-f", "/backup/backup.json"]));
    assert_eq!(request.log_prefix, "restore container restored");
}

#[test]
fn manifest_is_the_decoded_last_line() {
    let json = "{\"name\":\"web\"}";
    let logs = vec!["DEBUG Reading /backup/backup.json".to_string(), format!("{}\n", encode_b64(json))];
    assert_eq!(read_manifest(0, &logs), Ok(json.to_string()));
    assert_eq!(manifest_log_lines(&logs), strings(&["DEBUG Reading /backup/backup.json"]));
    assert!(manifest_log_lines(&Vec::new()).is_empty());
    assert!(manifest_log_lines(&strings(&["only"])).is_empty());
}

#[test]
fn an_empty_manifest_is_an_empty_backup_file() {
    assert_eq!(read_manifest(0, &Vec::new()), Err(Error::EmptyBackupFile));
    assert_eq!(read_manifest(0, &strings(&[""])), Err(Error::EmptyBackupFile));
    assert_eq!(read_manifest(0, &strings(&["DEBUG Reading", "\n"])), Err(Error::EmptyBackupFile));
    assert_eq!(read_manifest(0, &vec![encode_b64("")]), Err(Error::EmptyBackupFile));
    // No output at all is an empty file whatever the exit code.
    assert_eq!(read_manifest(1, &Vec::new()), Err(Error::EmptyBackupFile));
    assert_eq!(check_manifest(Ok(String::new())), Err(Error::EmptyBackupFile));
}

#[test]
fn a_failed_read_is_reported_by_its_exit_code() {
    assert_eq!(
        read_manifest(2, &strings(&["ERROR Failed to read file"])),
        Err(Error::NonZeroExit(2))
    );
}

#[test]
fn a_manifest_that_is_no_base64_is_refused() {
    assert_eq!(read_manifest(0, &strings(&["{not base64}"])), Err(Error::InvalidEncoding));
    assert_eq!(check_manifest(Err(Error::InvalidEncoding)), Err(Error::InvalidEncoding));
    assert_eq!(check_manifest(Ok("{}".to_string())), Ok("{}".to_string()));
}

#[test]
fn mounts_are_restored_in_the_order_of_the_backup() {
    let source = get_backup_directory_mount("/tmp/backups".to_string());
    let backup = backup_of(three_mounts());
    let mut session = restore_container(backup, source.clone()).unwrap();
    assert_eq!(session.restored(), 0);
    assert_eq!(session.pending_mount(), Some("/srv/a".to_string()));
    assert_eq!(
        session.next(),
        RestoreStep::Directory(restore_directory_from_mount(
            "dockyard/binds/:srv:a/1.tgz",
            source.clone(),
            "/srv/a".to_string()
        ))
    );
    assert_eq!(session.record(0), Ok(()));
    assert_eq!(session.pending_mount(), Some("b".to_string()));
    assert_eq!(
        session.next(),
        RestoreStep::Volume(restore_volume(
            "dockyard/volumes/b/2.tgz",
            source.clone(),
            get_volume_mount("b".to_string())
        ))
    );
    assert_eq!(session.record(0), Ok(()));
    assert_eq!(
        session.next(),
        RestoreStep::Directory(restore_directory_from_mount(
            "dockyard/binds/:srv:c/3.tgz",
            source.clone(),
            "/srv/c".to_string()
        ))
    );
    assert_eq!(session.record(0), Ok(()));
    assert_eq!(session.restored(), 3);
    assert_eq!(session.pending_mount(), None);
    assert_eq!(session.next(), RestoreStep::CreateContainer);
    assert_eq!(
        session.record(0),
        Err(RestoreFailure { mount: String::new(), cause: Error::OutOfTurn })
    );
}

#[test]
fn a_failed_mount_stops_the_restore() {
    let source = get_backup_directory_mount("/tmp/backups".to_string());
    let backup = backup_of(three_mounts());
    let mut session = restore_container(backup, source).unwrap();
    assert_eq!(session.record(0), Ok(()));
    assert_eq!(
        session.record(5),
        Err(RestoreFailure { mount: "b".to_string(), cause: Error::NonZeroExit(5) })
    );
    assert_eq!(session.restored(), 1);
    assert_eq!(session.next(), RestoreStep::Aborted);
    assert_eq!(
        session.record(0),
        Err(RestoreFailure { mount: String::new(), cause: Error::OutOfTurn })
    );
    assert_eq!(session.restored(), 1);
}

#[test]
fn a_failed_bind_is_named_by_its_host_path() {
    let source = get_backup_directory_mount("/tmp/backups".to_string());
    let backup = backup_of(three_mounts());
    let mut session = restore_container(backup, source).unwrap();
    assert_eq!(
        session.record(1),
        Err(RestoreFailure { mount: "/srv/a".to_string(), cause: Error::NonZeroExit(1) })
    );
}

#[test]
fn an_aborted_restore_asks_for_nothing() {
    let source = get_backup_directory_mount("/tmp/backups".to_string());
    let backup = backup_of(three_mounts());
    let mut session = restore_container(backup, source).unwrap();
    session.abort();
    assert_eq!(session.next(), RestoreStep::Aborted);
}

#[test]
fn mounts_that_cannot_be_restored_fail_at_once() {
    let source = get_backup_directory_mount("/tmp/backups".to_string());
    let mut mounts = three_mounts();
    mounts[2].mount.source = None;
    assert!(matches!(
        restore_container(backup_of(mounts), source.clone()),
        Err(Error::InvalidMount)
    ));
    let mut mounts = three_mounts();
    mounts[1].mount.name = None;
    assert!(matches!(
        restore_container(backup_of(mounts), source.clone()),
        Err(Error::InvalidMount)
    ));
    let mut mounts = three_mounts();
    mounts[0].mount.typ = None;
    assert!(matches!(restore_container(backup_of(mounts), source), Err(Error::InvalidMount)));
}

#[test]
fn other_kinds_are_restored_as_volumes() {
    let source = get_backup_directory_mount("/tmp/backups".to_string());
    let mounts = vec![MountBackup { path: "x.tgz".to_string(), mount: record("tmpfs", Some("t"), None) }];
    let session = restore_container(backup_of(mounts), source.clone()).unwrap();
    assert_eq!(
        session.next(),
        RestoreStep::Volume(restore_volume("x.tgz", source, get_volume_mount("t".to_string())))
    );
}

#[test]
fn the_new_container_keeps_image_and_configuration() {
    let backup = backup_of(three_mounts());
    let request = create_request(backup.clone(), "restored").unwrap();
    assert_eq!(request.name, "restored");
    assert_eq!(request.image, "nginx:latest");
    assert_eq!(request.container_config, backup.container_config);
    assert_eq!(request.container_config.env, Some(strings(&["VAR1=a", "VAR2=b"])));
    assert_eq!(request.container_config.cmd, Some(strings(&["tail", "-f", "/dev/null"])));
    assert_eq!(request.host_config, backup.host_config);
}

#[test]
fn a_backup_without_image_cannot_be_created() {
    let mut backup = backup_of(Vec::new());
    backup.container_config.image = None;
    assert_eq!(create_request(backup, "restored"), Err(Error::MissingImage));
}

#[test]
fn the_backup_comes_back_once_every_mount_is_restored() {
    let source = get_backup_directory_mount("/tmp/backups".to_string());
    let backup = backup_of(three_mounts());
    let mut session = restore_container(backup.clone(), source.clone()).unwrap();
    assert_eq!(session.record(0), Ok(()));
    assert_eq!(session.record(0), Ok(()));
    assert_eq!(session.record(0), Ok(()));
    assert_eq!(session.finish(), Ok(backup.clone()));
    let mut session = restore_container(backup.clone(), source.clone()).unwrap();
    assert_eq!(session.record(0), Ok(()));
    assert_eq!(session.finish(), Err(Error::OutOfTurn));
    let mut session = restore_container(backup, source).unwrap();
    assert_eq!(session.record(0), Ok(()));
    assert_eq!(session.record(4).is_err(), true);
    assert_eq!(session.finish(), Err(Error::OutOfTurn));
}

#[test]
fn archives_at_absolute_paths_are_refused() {
    let source = get_backup_directory_mount("/tmp/backups".to_string());
    let mut mounts = three_mounts();
    mounts[1].path = "/etc/archive.tgz".to_string();
    assert!(matches!(
        restore_container(backup_of(mounts), source.clone()),
        Err(Error::UnresolvableArchivePath)
    ));
    let mut mounts = three_mounts();
    mounts[0].path = String::new();
    assert!(matches!(
        restore_container(backup_of(mounts), source.clone()),
        Err(Error::UnresolvableArchivePath)
    ));
    // The first mount that cannot be restored decides the error.
    let mut mounts = three_mounts();
    mounts[0].path = "/abs.tgz".to_string();
    mounts[1].mount.name = None;
    assert!(matches!(
        restore_container(backup_of(mounts), source.clone()),
        Err(Error::UnresolvableArchivePath)
    ));
    let mut mounts = three_mounts();
    mounts[0].mount.source = None;
    mounts[1].path = "/abs.tgz".to_string();
    assert!(matches!(restore_container(backup_of(mounts), source), Err(Error::InvalidMount)));
}

#[test]
fn a_manifest_with_text_beyond_ascii_is_read_as_it_was_written() {
    let json = "{\"Env\":[\"GREETING=h\u{e9}llo \u{4e16}\u{754c}\"]}";
    let logs = vec![format!("{}\n", encode_b64(json))];
    assert_eq!(read_manifest(0, &logs), Ok(json.to_string()));
    // Bytes that are no UTF-8 are refused.
    assert_eq!(read_manifest(0, &strings(&["/w=="])), Err(Error::InvalidEncoding));
}
