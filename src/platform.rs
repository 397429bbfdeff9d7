use vstd::prelude::*;
use vstd::string::*;
use crate::text::same_text;
use crate::version::{version_text, SemVersion};

verus! {

/// The operating systems that protoc is published for.
#[derive(Clone, Copy, PartialEq, Eq, Structural, Debug)]
pub enum OsPlat {
    Windows,
    Darwin,
    Linux,
}

/// The platform named by `s`, if it is one of `windows`, `darwin`, `linux`.
pub open spec fn os_named(s: Seq<char>) -> Option<OsPlat> {
    if s == "windows"@ {
        Some(OsPlat::Windows)
    } else if s == "darwin"@ {
        Some(OsPlat::Darwin)
    } else if s == "linux"@ {
        Some(OsPlat::Linux)
    } else {
        None
    }
}

/// The architectures protoc is usually published for on each platform.
pub open spec fn usual_archs(os: OsPlat) -> Seq<Seq<char>> {
    match os {
        OsPlat::Windows => seq!["32"@, "64"@],
        OsPlat::Darwin => seq!["aarch_64"@, "x86_64"@],
        OsPlat::Linux => seq!["aarch_64"@, "x86_64"@, "ppcle_64"@, "s390_64"@, "x86_32"@],
    }
}

/// `a, b, c` with each item in double quotes.
pub open spec fn quoted_items(items: Seq<Seq<char>>) -> Seq<char>
    decreases items.len(),
{
    if items.len() == 0 {
        Seq::empty()
    } else if items.len() == 1 {
        seq!['"'] + items[0] + seq!['"']
    } else {
        quoted_items(items.drop_last()) + seq![',', ' ', '"'] + items.last() + seq!['"']
    }
}

/// The advice printed for an unusual architecture.
pub open spec fn arch_warning_text(arch: Seq<char>, os: OsPlat) -> Seq<char> {
    "warning: "@ + arch + " is an unusual architecture, I suggest one of ["@ + quoted_items(
        usual_archs(os),
    ) + "]"@
}

/// The part of the artifact's file name that names the platform.
pub open spec fn platform_infix(os: OsPlat) -> Seq<char> {
    match os {
        OsPlat::Windows => "-win"@,
        OsPlat::Darwin => "-osx-"@,
        OsPlat::Linux => "-linux-"@,
    }
}

/// `protoc-<version>-win<arch>.zip`, `protoc-<version>-osx-<arch>.zip` or
/// `protoc-<version>-linux-<arch>.zip`, with the bare version text.
pub open spec fn artifact_file_name(version: Seq<char>, os: OsPlat, arch: Seq<char>) -> Seq<char> {
    "protoc-"@ + version + platform_infix(os) + arch + ".zip"@
}

/// `<release base>/v<version>/<file name>`: the directory is the tag form.
pub open spec fn artifact_url(version: Seq<char>, os: OsPlat, arch: Seq<char>) -> Seq<char> {
    "https://github.com/protocolbuffers/protobuf/releases/download/v"@ + version + "/"@
        + artifact_file_name(version, os, arch)
}

/// The usual architectures of a platform.
pub fn usual_arch_list(os: OsPlat) -> (r: Vec<&'static str>)
    ensures
        r@.map_values(|a: &str| a@) == usual_archs(os),
{
    let r = match os {
        OsPlat::Windows => vec!["32", "64"],
        OsPlat::Darwin => vec!["aarch_64", "x86_64"],
        OsPlat::Linux => vec!["aarch_64", "x86_64", "ppcle_64", "s390_64", "x86_32"],
    };
    assert(r@.map_values(|a: &str| a@) =~= usual_archs(os));
    r
}

/// Whether `arch` is one of the usual architectures of `os`.
pub fn is_usual_arch(arch: &str, os: OsPlat) -> (r: bool)
    ensures
        r == usual_archs(os).contains(arch@),
{
    let list = usual_arch_list(os);
    let ghost archs = usual_archs(os);
    let mut i: usize = 0;
    while i < list.len()
        invariant
            list@.map_values(|a: &str| a@) == archs,
            archs == usual_archs(os),
            i <= list.len(),
            forall|j: int| 0 <= j < i ==> archs[j] != arch@,
        decreases list.len() - i,
    {
        if same_text(list[i], arch) {
            assert(list@[i as int]@ == archs[i as int]);
            assert(archs[i as int] == arch@);
            assert(archs.contains(arch@));
            return true;
        }
        i = i + 1;
    }
    assert(!archs.contains(arch@)) by {
        if archs.contains(arch@) {
            let j = choose|j: int| 0 <= j < archs.len() && archs[j] == arch@;
            assert(archs[j] != arch@);
        }
    }
    false
}

/// The advice for an architecture that is unusual for its platform; `None`
/// for a usual one. The advice never stops a run.
pub fn arch_warning(arch: &str, os: OsPlat) -> (r: Option<String>)
    ensures
        r is None <==> usual_archs(os).contains(arch@),
        r matches Some(m) ==> m@ == arch_warning_text(arch@, os),
{
    if is_usual_arch(arch, os) {
        return None;
    }
    proof {
        reveal_strlit("\"");
        reveal_strlit(", \"");
    }
    let list = usual_arch_list(os);
    let ghost archs = usual_archs(os);
    let mut items = String::new();
    let mut i: usize = 0;
    while i < list.len()
        invariant
            list@.map_values(|a: &str| a@) == archs,
            i <= list.len(),
            items@ == quoted_items(archs.subrange(0, i as int)),
        decreases list.len() - i,
    {
        let ghost before = items@;
        if i == 0 {
            items.append("\"");
        } else {
            items.append(", \"");
        }
        items.append(list[i]);
        items.append("\"");
        proof {
            reveal_strlit("\"");
            reveal_strlit(", \"");
            assert(list@[i as int]@ == archs[i as int]);
            assert("\""@ =~= seq!['"']);
            assert(", \""@ =~= seq![',', ' ', '"']);
            let front = archs.subrange(0, i as int + 1);
            assert(front.drop_last() =~= archs.subrange(0, i as int));
            if i == 0 {
                assert(items@ =~= quoted_items(front));
            } else {
                assert(items@ =~= quoted_items(front));
            }
        }
        i = i + 1;
    }
    assert(archs.subrange(0, list.len() as int) =~= archs);
    let mut m = String::from_str("warning: ");
    m.append(arch);
    m.append(" is an unusual architecture, I suggest one of [");
    m.append(items.as_str());
    m.append("]");
    Some(m)
}

impl OsPlat {
    /// Reads a platform name: `windows`, `darwin` or `linux`.
    pub fn from_name(s: &str) -> (r: Option<OsPlat>)
        ensures
            r == os_named(s@),
    {
        if same_text(s, "windows") {
            Some(OsPlat::Windows)
        } else if same_text(s, "darwin") {
            Some(OsPlat::Darwin)
        } else if same_text(s, "linux") {
            Some(OsPlat::Linux)
        } else {
            None
        }
    }

    fn infix(self) -> (r: &'static str)
        ensures
            r@ == platform_infix(self),
    {
        match self {
            OsPlat::Windows => "-win",
            OsPlat::Darwin => "-osx-",
            OsPlat::Linux => "-linux-",
        }
    }
}

/// The name of the artifact of `v` for a platform and architecture.
pub fn get_file_name(v: &SemVersion, os_plat: OsPlat, os_arch: &str) -> (r: String)
    ensures
        r@ == artifact_file_name(version_text(v@), os_plat, os_arch@),
{
    let version = v.to_text();
    let mut r = String::from_str("protoc-");
    r.append(version.as_str());
    r.append(os_plat.infix());
    r.append(os_arch);
    r.append(".zip");
    r
}

/// A resolved version with the name and download address of its artifact.
pub struct ArtifactReference {
    pub version: SemVersion,
    pub file_name: String,
    pub url: String,
}

/// Where the artifact of `version` for a platform and architecture is
/// published. Pure: nothing is fetched.
pub fn locate(version: SemVersion, os_plat: OsPlat, os_arch: &str) -> (r: ArtifactReference)
    ensures
        r.version == version,
        r.file_name@ == artifact_file_name(version_text(version@), os_plat, os_arch@),
        r.url@ == artifact_url(version_text(version@), os_plat, os_arch@),
{
    let file_name = get_file_name(&version, os_plat, os_arch);
    let text = version.to_text();
    let mut url = String::from_str("https://github.com/protocolbuffers/protobuf/releases/download/v");
    url.append(text.as_str());
    url.append("/");
    url.append(file_name.as_str());
    ArtifactReference { version, file_name, url }
}

/// The artifact's name and address depend on the version's content, the
/// platform and the architecture alone: equal inputs give equal results.
pub proof fn lemma_locate_deterministic(
    a: SemVersion,
    b: SemVersion,
    os: OsPlat,
    arch_a: Seq<char>,
    arch_b: Seq<char>,
)
    requires
        a@ == b@,
        arch_a == arch_b,
    ensures
        artifact_file_name(version_text(a@), os, arch_a) == artifact_file_name(
            version_text(b@),
            os,
            arch_b,
        ),
        artifact_url(version_text(a@), os, arch_a) == artifact_url(version_text(b@), os, arch_b),
{
}

} // verus!
