use cargo_cook::container::support_container;
use cargo_cook::deploy::support_deploy_target;
use cargo_cook::hash::{hash, sidecar_content, support_hash_type, HashError};

const ABC_MD5: &str = "900150983cd24fb0d6963f7d28e17f72";
const ABC_SHA256: &str = "ba7816bf8f01cfea414140de5dae2223b00361a396177a9cb410ff61f20015ad";
const ABC_SHA512: &str = "ddaf35a193617abacc417349ae20413112e6fa4e89a97ea20a9eeee64b55d39a2192992a274fc1a836ba3c23a3feebbd454d4423643ce80e2a9ac94fa54ca49f";

#[test]
fn containers_are_looked_up_exactly() {
    assert!(support_container("tar"));
    assert!(support_container("tar.bzip2"));
    assert!(!support_container("TAR"));
    assert!(!support_container("zip"));
    assert!(!support_container(""));
}

#[test]
fn hash_names_ignore_case() {
    assert!(support_hash_type("md5"));
    assert!(support_hash_type("SHA256"));
    assert!(support_hash_type("Sha512"));
    assert!(!support_hash_type("sha1"));
    assert!(!support_hash_type("sha2566"));
}

#[test]
fn deploy_target_names_ignore_case() {
    assert!(support_deploy_target("ssh"));
    assert!(support_deploy_target("SSH"));
    assert!(support_deploy_target("FsCopy"));
    assert!(!support_deploy_target("ftp"));
}

#[test]
fn known_digests_of_abc() {
    assert_eq!(hash(b"abc", "md5"), Ok(ABC_MD5.to_string()));
    assert_eq!(hash(b"abc", "sha256"), Ok(ABC_SHA256.to_string()));
    assert_eq!(hash(b"abc", "SHA512"), Ok(ABC_SHA512.to_string()));
}

#[test]
fn digest_of_empty_input() {
    assert_eq!(
        hash(b"", "sha256"),
        Ok("e3b0c44298fc1c149afbf4c8996fb92427ae41e4649b934ca495991b7852b855".to_string())
    );
}

#[test]
fn unknown_hash_is_an_error() {
    assert_eq!(hash(b"abc", "sha1"), Err(HashError::Unsupported("sha1".to_string())));
    assert_eq!(
        sidecar_content(b"abc", "crc32"),
        Err(HashError::Unsupported("crc32".to_string()))
    );
}

#[test]
fn digest_is_deterministic() {
    let data = vec![7u8; 5000];
    let first = hash(&data, "sha256").unwrap();
    let second = hash(&data.clone(), "SHA256").unwrap();
    assert_eq!(first, second);
    let other = hash(b"abd", "sha256").unwrap();
    assert_ne!(other, hash(b"abc", "sha256").unwrap());
}

#[test]
fn sidecar_is_digest_and_newline() {
    let text = sidecar_content(b"abc", "Sha256").unwrap();
    assert_eq!(text, format!("{}\n", ABC_SHA256));
    assert_eq!(text.len(), 65);
}
