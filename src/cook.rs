//! The up-front validation of the configuration and the plan of one run:
//! which archives and hash sidecars are written where, and which targets are
//! deployed to.
use crate::config::{CargoConfig, CookConfig, Deploy};
use crate::container::{container_kind_of, ContainerKind};
use crate::deploy::{target_kind_of, TargetKind};
use crate::hash::{hash_kind_of, HashKind};
use crate::text::{concat, join_path, joined, owned};
use vstd::prelude::*;

verus! {

/// A configuration that names something the registries do not hold.
#[derive(Clone, Debug, PartialEq, Eq)]
pub enum ConfigError {
    UnsupportedContainer(String),
    UnsupportedHash(String),
    UnsupportedTarget(String),
    /// A declared target whose kind has no parameter block.
    MissingTargetParameters(String),
}

/// The views of a list of names.
pub open spec fn names_of(v: Seq<String>) -> Seq<Seq<char>> {
    v.map_values(|s: String| s@)
}

/// The declared hash names.
pub open spec fn declared_hashes(c: CookConfig) -> Seq<String> {
    match c.cook.hashes {
        Some(v) => v@,
        None => seq![],
    }
}

/// The deploy block, or an empty one.
pub open spec fn deploy_block(c: CookConfig) -> Deploy {
    match c.cook.deploy {
        Some(d) => d,
        None => Deploy { targets: None, ssh: None, fscopy: None },
    }
}

/// The declared deploy target names.
pub open spec fn declared_targets(c: CookConfig) -> Seq<String> {
    match deploy_block(c).targets {
        Some(v) => v@,
        None => seq![],
    }
}

/// A target name that is registered and whose kind has its parameter block.
pub open spec fn target_usable(d: Deploy, name: Seq<char>) -> bool {
    match target_kind_of(name) {
        Some(TargetKind::Ssh) => d.ssh is Some,
        Some(TargetKind::FsCopy) => d.fscopy is Some,
        None => false,
    }
}

/// Every name of `names` is `good`.
pub open spec fn all_good(names: Seq<String>, good: spec_fn(Seq<char>) -> bool) -> bool {
    forall|i: int| 0 <= i < names.len() ==> good(#[trigger] names[i]@)
}

/// Name `k` is the first of `names` that is not `good`.
pub open spec fn first_bad(names: Seq<String>, good: spec_fn(Seq<char>) -> bool, k: int) -> bool {
    &&& 0 <= k < names.len()
    &&& !good(names[k]@)
    &&& forall|j: int| 0 <= j < k ==> good(#[trigger] names[j]@)
}

pub open spec fn container_ok() -> spec_fn(Seq<char>) -> bool {
    |n: Seq<char>| container_kind_of(n) is Some
}

pub open spec fn hash_ok() -> spec_fn(Seq<char>) -> bool {
    |n: Seq<char>| hash_kind_of(n) is Some
}

pub open spec fn target_ok(d: Deploy) -> spec_fn(Seq<char>) -> bool {
    |n: Seq<char>| target_usable(d, n)
}

proof fn lemma_first_bad_not_all_good(
    names: Seq<String>,
    good: spec_fn(Seq<char>) -> bool,
    k: int,
)
    requires
        first_bad(names, good, k),
    ensures
        !all_good(names, good),
{
    assert(!good(names[k]@));
}

/// Every declared container, hash and deploy target is registered, and every
/// declared target has its parameter block.
pub open spec fn config_valid(c: CookConfig) -> bool {
    &&& all_good(c.cook.containers@, container_ok())
    &&& all_good(declared_hashes(c), hash_ok())
    &&& all_good(declared_targets(c), target_ok(deploy_block(c)))
}

/// `e` reports the first fault of `c`: containers are checked first, then
/// hashes, then deploy targets, each in declaration order.
pub open spec fn reports_first_fault(c: CookConfig, e: ConfigError) -> bool {
    match e {
        ConfigError::UnsupportedContainer(n) => exists|k: int|
            #[trigger] first_bad(c.cook.containers@, container_ok(), k) && n@
                == c.cook.containers@[k]@,
        ConfigError::UnsupportedHash(n) => all_good(c.cook.containers@, container_ok())
            && exists|k: int|
            #[trigger] first_bad(declared_hashes(c), hash_ok(), k) && n@ == declared_hashes(
                c,
            )[k]@,
        ConfigError::UnsupportedTarget(n) => all_good(c.cook.containers@, container_ok())
            && all_good(declared_hashes(c), hash_ok()) && target_kind_of(n@) is None
            && exists|k: int|
            #[trigger] first_bad(declared_targets(c), target_ok(deploy_block(c)), k) && n@
                == declared_targets(c)[k]@,
        ConfigError::MissingTargetParameters(n) => all_good(c.cook.containers@, container_ok())
            && all_good(declared_hashes(c), hash_ok()) && target_kind_of(n@) is Some
            && exists|k: int|
            #[trigger] first_bad(declared_targets(c), target_ok(deploy_block(c)), k) && n@
                == declared_targets(c)[k]@,
    }
}

/// Checks, before anything is run or written, that every declared container,
/// hash and deploy target is registered and that every declared target has
/// its parameter block.
pub fn validate(c: &CookConfig) -> (r: Result<(), ConfigError>)
    ensures
        r is Ok <==> config_valid(*c),
        r matches Err(e) ==> reports_first_fault(*c, e),
{
    let containers = &c.cook.containers;
    let mut i: usize = 0;
    while i < containers.len()
        invariant
            i <= containers.len(),
            containers@ == c.cook.containers@,
            forall|j: int| 0 <= j < i ==> container_ok()(#[trigger] containers@[j]@),
        decreases containers.len() - i,
    {
        if ContainerKind::from_name(&containers[i]).is_none() {
            let n = containers[i].clone();
            proof {
                assert(first_bad(containers@, container_ok(), i as int));
                lemma_first_bad_not_all_good(containers@, container_ok(), i as int);
                assert(reports_first_fault(*c, ConfigError::UnsupportedContainer(n)));
            }
            return Err(ConfigError::UnsupportedContainer(n));
        }
        i = i + 1;
    }
    let empty: Vec<String> = Vec::new();
    let hashes = match &c.cook.hashes {
        Some(v) => v,
        None => &empty,
    };
    assert(hashes@ == declared_hashes(*c));
    let mut i: usize = 0;
    while i < hashes.len()
        invariant
            i <= hashes.len(),
            containers@ == c.cook.containers@,
            hashes@ == declared_hashes(*c),
            all_good(containers@, container_ok()),
            forall|j: int| 0 <= j < i ==> hash_ok()(#[trigger] hashes@[j]@),
        decreases hashes.len() - i,
    {
        if HashKind::from_name(&hashes[i]).is_none() {
            let n = hashes[i].clone();
            proof {
                assert(first_bad(hashes@, hash_ok(), i as int));
                lemma_first_bad_not_all_good(hashes@, hash_ok(), i as int);
                assert(reports_first_fault(*c, ConfigError::UnsupportedHash(n)));
            }
            return Err(ConfigError::UnsupportedHash(n));
        }
        i = i + 1;
    }
    let (targets, ssh_set, fscopy_set) = match &c.cook.deploy {
        Some(d) => (
            match &d.targets {
                Some(t) => t,
                None => &empty,
            },
            d.ssh.is_some(),
            d.fscopy.is_some(),
        ),
        None => (&empty, false, false),
    };
    assert(targets@ == declared_targets(*c));
    let ghost d = deploy_block(*c);
    assert(ssh_set == d.ssh is Some && fscopy_set == d.fscopy is Some);
    let mut i: usize = 0;
    while i < targets.len()
        invariant
            i <= targets.len(),
            containers@ == c.cook.containers@,
            hashes@ == declared_hashes(*c),
            targets@ == declared_targets(*c),
            d == deploy_block(*c),
            all_good(containers@, container_ok()),
            all_good(hashes@, hash_ok()),
            ssh_set == d.ssh is Some,
            fscopy_set == d.fscopy is Some,
            forall|j: int| 0 <= j < i ==> target_ok(d)(#[trigger] targets@[j]@),
        decreases targets.len() - i,
    {
        let configured = match TargetKind::from_name(&targets[i]) {
            None => {
                let n = targets[i].clone();
                proof {
                    assert(first_bad(targets@, target_ok(d), i as int));
                    lemma_first_bad_not_all_good(targets@, target_ok(d), i as int);
                    assert(reports_first_fault(*c, ConfigError::UnsupportedTarget(n)));
                }
                return Err(ConfigError::UnsupportedTarget(n));
            },
            Some(TargetKind::Ssh) => ssh_set,
            Some(TargetKind::FsCopy) => fscopy_set,
        };
        if !configured {
            let n = targets[i].clone();
            proof {
                assert(first_bad(targets@, target_ok(d), i as int));
                lemma_first_bad_not_all_good(targets@, target_ok(d), i as int);
                assert(reports_first_fault(*c, ConfigError::MissingTargetParameters(n)));
            }
            return Err(ConfigError::MissingTargetParameters(n));
        }
        i = i + 1;
    }
    Ok(())
}

/// A configuration that declares a container, hash or deploy target that is
/// not registered is not valid, so `plan` gives it no plan and the run stops
/// before any file is written.
pub proof fn lemma_unregistered_name_rejected(c: CookConfig, k: int)
    requires
        (0 <= k < c.cook.containers@.len() && container_kind_of(c.cook.containers@[k]@) is None)
            || (0 <= k < declared_hashes(c).len() && hash_kind_of(declared_hashes(c)[k]@) is None)
            || (0 <= k < declared_targets(c).len() && target_kind_of(declared_targets(c)[k]@) is None),
    ensures
        !config_valid(c),
{
    if 0 <= k < c.cook.containers@.len() && container_kind_of(c.cook.containers@[k]@) is None {
        assert(!container_ok()(c.cook.containers@[k]@));
    } else if 0 <= k < declared_hashes(c).len() && hash_kind_of(declared_hashes(c)[k]@) is None {
        assert(!hash_ok()(declared_hashes(c)[k]@));
    } else {
        assert(!target_ok(deploy_block(c))(declared_targets(c)[k]@));
    }
}

/// `{cook_directory}/{name}-{version}.{container}`: where the archive in the
/// format `container` is written.
pub open spec fn archive_path(c: CookConfig, cargo: CargoConfig, container: Seq<char>) -> Seq<
    char,
> {
    joined(c.cook.cook_directory@, cargo.package.name@ + "-"@ + cargo.package.version@) + "."@
        + container
}

/// `{archive}.{hash}`: where the `hash` digest of an archive is written.
pub open spec fn sidecar_path(archive: Seq<char>, hash: Seq<char>) -> Seq<char> {
    archive + "."@ + hash
}

/// Where the archive in the format `container` is written.
pub fn archive_file_name(c: &CookConfig, cargo: &CargoConfig, container: &str) -> (r: String)
    ensures
        r@ == archive_path(*c, *cargo, container@),
{
    let named = concat(&cargo.package.name, "-");
    let versioned = concat(&named, &cargo.package.version);
    let base = join_path(&c.cook.cook_directory, &versioned);
    let dotted = concat(&base, ".");
    concat(&dotted, container)
}

/// Where the `hash` digest of the archive at `archive` is written.
pub fn hash_file_name(archive: &str, hash: &str) -> (r: String)
    ensures
        r@ == sidecar_path(archive@, hash@),
{
    let dotted = concat(archive, ".");
    concat(&dotted, hash)
}

/// A hash sidecar to write: the digest name and the file's path.
#[derive(Clone, Debug, PartialEq, Eq)]
pub struct Sidecar {
    pub hash: String,
    pub path: String,
}

/// One archive to write, and its sidecars.
#[derive(Clone, Debug, PartialEq, Eq)]
pub struct ArchiveJob {
    pub container: String,
    pub path: String,
    pub sidecars: Vec<Sidecar>,
}

/// What one run writes and where it deploys, in order.
#[derive(Clone, Debug, PartialEq, Eq)]
pub struct CookPlan {
    pub archives: Vec<ArchiveJob>,
    pub targets: Vec<String>,
}

/// `job` writes the archive in the format `container`, then one sidecar per
/// declared hash, in declaration order.
pub open spec fn job_for(c: CookConfig, cargo: CargoConfig, container: Seq<char>, job: ArchiveJob) -> bool {
    let hashes = declared_hashes(c);
    &&& job.container@ == container
    &&& job.path@ == archive_path(c, cargo, container)
    &&& job.sidecars@.len() == hashes.len()
    &&& forall|j: int|
        0 <= j < hashes.len() ==> (#[trigger] job.sidecars@[j]).hash@ == hashes[j]@
            && job.sidecars@[j].path@ == sidecar_path(job.path@, hashes[j]@)
}

/// `p` is the plan of a run of `c` on `cargo`: one archive job per declared
/// container, in declaration order, and the declared deploy targets.
pub open spec fn plans(c: CookConfig, cargo: CargoConfig, p: CookPlan) -> bool {
    &&& p.archives@.len() == c.cook.containers@.len()
    &&& forall|i: int|
        0 <= i < p.archives@.len() ==> job_for(
            c,
            cargo,
            c.cook.containers@[i]@,
            #[trigger] p.archives@[i],
        )
    &&& names_of(p.targets@) == names_of(declared_targets(c))
}

fn plan_job(c: &CookConfig, cargo: &CargoConfig, hashes: &Vec<String>, container: &str) -> (r:
    ArchiveJob)
    requires
        hashes@ == declared_hashes(*c),
    ensures
        job_for(*c, *cargo, container@, r),
{
    let path = archive_file_name(c, cargo, container);
    let mut sidecars: Vec<Sidecar> = Vec::new();
    let mut j: usize = 0;
    while j < hashes.len()
        invariant
            j <= hashes.len(),
            sidecars@.len() == j,
            forall|k: int|
                0 <= k < j ==> (#[trigger] sidecars@[k]).hash@ == hashes@[k]@
                    && sidecars@[k].path@ == sidecar_path(path@, hashes@[k]@),
        decreases hashes.len() - j,
    {
        let h = &hashes[j];
        sidecars.push(Sidecar { hash: h.clone(), path: hash_file_name(&path, h) });
        j = j + 1;
    }
    ArchiveJob { container: owned(container), path, sidecars }
}

/// Validates `c` and lays out the run: the archives and sidecars to write,
/// and the targets to deploy to. A configuration that fails validation gets
/// no plan, so nothing is written for it.
pub fn plan(c: &CookConfig, cargo: &CargoConfig) -> (r: Result<CookPlan, ConfigError>)
    ensures
        r is Ok <==> config_valid(*c),
        r matches Err(e) ==> reports_first_fault(*c, e),
        r matches Ok(p) ==> plans(*c, *cargo, p),
{
    match validate(c) {
        Err(e) => {
            return Err(e);
        },
        Ok(()) => {},
    }
    let empty: Vec<String> = Vec::new();
    let hashes = match &c.cook.hashes {
        Some(v) => v,
        None => &empty,
    };
    let containers = &c.cook.containers;
    let mut archives: Vec<ArchiveJob> = Vec::new();
    let mut i: usize = 0;
    while i < containers.len()
        invariant
            i <= containers.len(),
            containers@ == c.cook.containers@,
            hashes@ == declared_hashes(*c),
            archives@.len() == i,
            forall|k: int|
                0 <= k < i ==> job_for(*c, *cargo, containers@[k]@, #[trigger] archives@[k]),
        decreases containers.len() - i,
    {
        let job = plan_job(c, cargo, hashes, &containers[i]);
        archives.push(job);
        i = i + 1;
    }
    let declared = match &c.cook.deploy {
        Some(d) => match &d.targets {
            Some(t) => t,
            None => &empty,
        },
        None => &empty,
    };
    let mut targets: Vec<String> = Vec::new();
    let mut i: usize = 0;
    while i < declared.len()
        invariant
            i <= declared.len(),
            declared@ == declared_targets(*c),
            targets@.len() == i,
            forall|k: int| 0 <= k < i ==> (#[trigger] targets@[k])@ == declared@[k]@,
        decreases declared.len() - i,
    {
        targets.push(declared[i].clone());
        i = i + 1;
    }
    proof {
        assert(names_of(targets@) =~= names_of(declared_targets(*c)));
    }
    Ok(CookPlan { archives, targets })
}

} // verus!
