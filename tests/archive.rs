use cargo_cook::collect::{artifact_entry, collect, FileEntry};
use cargo_cook::config::{CargoConfig, Cook, CookConfig, Deploy, FsCopy, Package, SshConfig};
use cargo_cook::container::{compress, ContainerError, LoadedEntry, SourceFile};
use cargo_cook::cook::{archive_file_name, hash_file_name, plan, validate, ConfigError};
use cargo_cook::hash::{hash, sidecar_content};
use std::io::Read;

fn demo_configs(containers: &[&str], hashes: Option<Vec<&str>>) -> (CookConfig, CargoConfig) {
    let cook = Cook {
        target_directory: "build".to_string(),
        cook_directory: "out".to_string(),
        containers: containers.iter().map(|c| c.to_string()).collect(),
        hashes: hashes.map(|v| v.iter().map(|h| h.to_string()).collect()),
        ..Cook::default()
    };
    let cargo = CargoConfig {
        package: Package { name: "demo".to_string(), version: "1.0.0".to_string() },
    };
    (CookConfig { cook }, cargo)
}

fn source(data: &[u8]) -> SourceFile {
    SourceFile { data: data.to_vec(), mode: 0o755, mtime: 1_500_000_000, uid: 1000, gid: 1000 }
}

fn loaded(destination: &str, src: &str, content: Option<SourceFile>) -> LoadedEntry {
    LoadedEntry {
        entry: FileEntry { destination: destination.to_string(), source: src.to_string() },
        content,
    }
}

fn tar_entries(bytes: &[u8]) -> Vec<(String, Vec<u8>)> {
    let mut archive = tar::Archive::new(bytes);
    let mut out = Vec::new();
    for e in archive.entries().unwrap() {
        let mut e = e.unwrap();
        let path = e.path().unwrap().to_string_lossy().to_string();
        let mut data = Vec::new();
        e.read_to_end(&mut data).unwrap();
        out.push((path, data));
    }
    out
}

#[test]
fn demo_run_writes_tar_and_sha256_sidecar() {
    let (c, cargo) = demo_configs(&["tar"], Some(vec!["sha256"]));
    let p = plan(&c, &cargo).unwrap();
    assert_eq!(p.archives.len(), 1);
    let job = &p.archives[0];
    assert_eq!(job.container, "tar");
    assert_eq!(job.path, "out/demo-1.0.0.tar");
    assert_eq!(job.sidecars.len(), 1);
    assert_eq!(job.sidecars[0].hash, "sha256");
    assert_eq!(job.sidecars[0].path, "out/demo-1.0.0.tar.sha256");
    assert!(p.targets.is_empty());

    let manifest = collect(&[], &artifact_entry(&c, &cargo)).unwrap();
    assert_eq!(manifest.len(), 1);
    assert_eq!(manifest[0].destination, "demo");
    assert_eq!(manifest[0].source, "build/demo");

    let files: Vec<LoadedEntry> = manifest
        .iter()
        .map(|e| LoadedEntry { entry: e.clone(), content: Some(source(b"\x7fELF binary")) })
        .collect();
    let bytes = compress(&files, &job.container).unwrap();
    assert_eq!(tar_entries(&bytes), vec![("demo".to_string(), b"\x7fELF binary".to_vec())]);

    let sidecar = sidecar_content(&bytes, &job.sidecars[0].hash).unwrap();
    assert_eq!(sidecar, format!("{}\n", hash(&bytes, "sha256").unwrap()));
    assert_eq!(sidecar.len(), 65);
}

#[test]
fn tar_keeps_manifest_order_and_metadata() {
    let files = vec![
        loaded("a/one.txt", "src/one.txt", Some(source(b"one"))),
        loaded("two.txt", "src/two.txt", Some(source(b""))),
        loaded("demo", "build/demo", Some(source(&[0u8; 1500]))),
    ];
    let bytes = compress(&files, "tar").unwrap();
    let entries = tar_entries(&bytes);
    assert_eq!(entries.len(), 3);
    assert_eq!(entries[0], ("a/one.txt".to_string(), b"one".to_vec()));
    assert_eq!(entries[1], ("two.txt".to_string(), Vec::new()));
    assert_eq!(entries[2].0, "demo");
    assert_eq!(entries[2].1.len(), 1500);
    let mut archive = tar::Archive::new(bytes.as_slice());
    let first = archive.entries().unwrap().next().unwrap().unwrap();
    assert_eq!(first.header().mode().unwrap(), 0o755);
    assert_eq!(first.header().mtime().unwrap(), 1_500_000_000);
}

#[test]
fn tar_bzip2_compresses_the_tar() {
    let files = vec![loaded("demo", "build/demo", Some(source(&[b'x'; 4096])))];
    let tar_bytes = compress(&files, "tar").unwrap();
    let bz = compress(&files, "tar.bzip2").unwrap();
    assert_eq!(&bz[0..4], b"BZh9");
    let mut raw = Vec::new();
    bzip2::read::BzDecoder::new(bz.as_slice()).read_to_end(&mut raw).unwrap();
    assert_eq!(raw, tar_bytes);
}

#[test]
fn unsupported_container_is_an_error() {
    let files = vec![loaded("demo", "build/demo", Some(source(b"x")))];
    assert_eq!(compress(&files, "zip"), Err(ContainerError::Unsupported("zip".to_string())));
}

#[test]
fn unreadable_source_is_an_error() {
    let files = vec![
        loaded("a", "src/a", Some(source(b"a"))),
        loaded("b", "src/b", None),
        loaded("c", "src/c", None),
    ];
    assert_eq!(compress(&files, "tar"), Err(ContainerError::Unreadable("src/b".to_string())));
}

#[test]
fn destination_that_tar_refuses_is_a_write_error() {
    let files = vec![
        loaded("a", "src/a", Some(source(b"a"))),
        loaded("../escape", "src/b", Some(source(b"b"))),
    ];
    assert!(matches!(compress(&files, "tar"), Err(ContainerError::Write(_))));
    assert!(matches!(compress(&files, "tar.bzip2"), Err(ContainerError::Write(_))));
}

#[test]
fn readable_sources_with_plain_names_always_build() {
    let files = vec![
        loaded("./deep/nested/path/file.bin", "src/f", Some(source(&[1u8; 10]))),
        loaded("same", "src/x", Some(source(b"x"))),
        loaded("same", "src/y", Some(source(b"y"))),
    ];
    let bytes = compress(&files, "tar").unwrap();
    let entries = tar_entries(&bytes);
    assert_eq!(entries.len(), 3);
    assert_eq!(entries[1], ("same".to_string(), b"x".to_vec()));
    assert_eq!(entries[2], ("same".to_string(), b"y".to_vec()));
    assert!(compress(&files, "tar.bzip2").is_ok());
}

#[test]
fn rerun_gives_identical_archive_and_sidecar() {
    let files = vec![
        loaded("a", "src/a", Some(source(b"alpha"))),
        loaded("demo", "build/demo", Some(source(b"binary"))),
    ];
    let first = compress(&files, "tar").unwrap();
    let second = compress(&files.clone(), "tar").unwrap();
    assert_eq!(first, second);
    assert_eq!(sidecar_content(&first, "md5"), sidecar_content(&second, "md5"));
}

#[test]
fn archive_and_sidecar_names() {
    let (c, cargo) = demo_configs(&["tar.bzip2"], None);
    let name = archive_file_name(&c, &cargo, "tar.bzip2");
    assert_eq!(name, "out/demo-1.0.0.tar.bzip2");
    assert_eq!(hash_file_name(&name, "sha512"), "out/demo-1.0.0.tar.bzip2.sha512");
}

#[test]
fn plan_lists_every_container_and_hash() {
    let (c, cargo) = demo_configs(&["tar", "tar.bzip2"], Some(vec!["md5", "SHA512"]));
    let p = plan(&c, &cargo).unwrap();
    let paths: Vec<&str> = p.archives.iter().map(|a| a.path.as_str()).collect();
    assert_eq!(paths, vec!["out/demo-1.0.0.tar", "out/demo-1.0.0.tar.bzip2"]);
    let sidecars: Vec<&str> = p.archives[1].sidecars.iter().map(|s| s.path.as_str()).collect();
    assert_eq!(sidecars, vec!["out/demo-1.0.0.tar.bzip2.md5", "out/demo-1.0.0.tar.bzip2.SHA512"]);
}

#[test]
fn unregistered_container_fails_before_planning() {
    let (c, cargo) = demo_configs(&["tar", "zip", "rar"], Some(vec!["sha1"]));
    assert_eq!(validate(&c), Err(ConfigError::UnsupportedContainer("zip".to_string())));
    assert_eq!(plan(&c, &cargo), Err(ConfigError::UnsupportedContainer("zip".to_string())));
}

#[test]
fn unregistered_hash_fails_before_planning() {
    let (c, cargo) = demo_configs(&["tar"], Some(vec!["sha256", "sha1"]));
    assert_eq!(plan(&c, &cargo), Err(ConfigError::UnsupportedHash("sha1".to_string())));
}

#[test]
fn unregistered_target_fails_before_planning() {
    let (mut c, cargo) = demo_configs(&["tar"], None);
    c.cook.deploy = Some(Deploy {
        targets: Some(vec!["fscopy".to_string(), "ftp".to_string()]),
        ssh: None,
        fscopy: Some(FsCopy { path: "/dest".to_string() }),
    });
    assert_eq!(plan(&c, &cargo), Err(ConfigError::UnsupportedTarget("ftp".to_string())));
}

#[test]
fn target_without_parameters_fails_before_planning() {
    let (mut c, cargo) = demo_configs(&["tar"], None);
    c.cook.deploy = Some(Deploy {
        targets: Some(vec!["FSCOPY".to_string(), "ssh".to_string()]),
        ssh: None,
        fscopy: Some(FsCopy { path: "/dest".to_string() }),
    });
    assert_eq!(validate(&c), Err(ConfigError::MissingTargetParameters("ssh".to_string())));
}

#[test]
fn valid_deploy_block_is_planned() {
    let (mut c, cargo) = demo_configs(&["tar"], None);
    c.cook.deploy = Some(Deploy {
        targets: Some(vec!["ssh".to_string(), "fscopy".to_string()]),
        ssh: Some(SshConfig {
            hostname: "example.org:22".to_string(),
            username: "deployer".to_string(),
            remote_path: "/srv/demo".to_string(),
            deploy_script: None,
        }),
        fscopy: Some(FsCopy { path: "/dest".to_string() }),
    });
    assert_eq!(validate(&c), Ok(()));
    let p = plan(&c, &cargo).unwrap();
    assert_eq!(p.targets, vec!["ssh".to_string(), "fscopy".to_string()]);
}
