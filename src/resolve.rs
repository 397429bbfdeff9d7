use vstd::prelude::*;
use crate::constraint::{semver_req_admits, VersionConstraint};
use crate::catalog::{catalog_of, normalize_tags, ReleaseTag};
use crate::version::{precedes, SemVersion, VersionModel};

verus! {

/// No version of the catalog lies in the requested range.
#[derive(Debug)]
pub struct NoMatchError {
    /// The normalised requested range.
    pub constraint: String,
    /// Every version that was considered.
    pub candidates: Vec<SemVersion>,
}

/// Whether `v` is a version of `catalog` in the range `c` that no other
/// such version outranks on `(major, minor, patch)` and release status.
pub open spec fn is_best_match(c: Seq<char>, catalog: Seq<SemVersion>, v: SemVersion) -> bool {
    &&& exists|i: int| 0 <= i < catalog.len() && catalog[i] == v
    &&& semver_req_admits(c, v@)
    &&& forall|i: int|
        0 <= i < catalog.len() && semver_req_admits(c, #[trigger] catalog[i]@) ==> !precedes(
            v@,
            catalog[i]@,
        )
}

/// Whether no version of `catalog` lies in the range `c`.
pub open spec fn none_admitted(c: Seq<char>, catalog: Seq<SemVersion>) -> bool {
    forall|i: int| 0 <= i < catalog.len() ==> !semver_req_admits(c, #[trigger] catalog[i]@)
}

/// Picks the highest version of `catalog` that lies in the range `c`.
/// Among versions that tie on `(major, minor, patch)` and release status,
/// semver's full order (pre-release identifiers, then build metadata)
/// decides.
pub fn resolve(c: &VersionConstraint, catalog: Vec<SemVersion>) -> (r: Result<
    SemVersion,
    NoMatchError,
>)
    ensures
        r is Err <==> none_admitted(c@, catalog@),
        r matches Ok(v) ==> is_best_match(c@, catalog@, v),
        r matches Err(e) ==> e.constraint@ == c@ && e.candidates@ == catalog@,
{
    let n = catalog.len();
    let mut best: Option<usize> = None;
    let mut i: usize = 0;
    while i < n
        invariant
            n == catalog.len(),
            i <= n,
            best matches Some(b) ==> {
                &&& b < i
                &&& semver_req_admits(c@, catalog@[b as int]@)
                &&& forall|j: int|
                    0 <= j < i && semver_req_admits(c@, #[trigger] catalog@[j]@) ==> !precedes(
                        catalog@[b as int]@,
                        catalog@[j]@,
                    )
            },
            best is None ==> forall|j: int|
                0 <= j < i ==> !semver_req_admits(c@, #[trigger] catalog@[j]@),
        decreases n - i,
    {
        let x = &catalog[i];
        if c.matches(x) {
            match best {
                None => {
                    best = Some(i);
                },
                Some(b) => {
                    let current = &catalog[b];
                    if current.precedes(x) {
                        best = Some(i);
                    } else if !x.precedes(current) && x.outranks(current) {
                        best = Some(i);
                    }
                },
            }
        }
        i = i + 1;
    }
    match best {
        Some(b) => {
            let ghost before = catalog@;
            let mut catalog = catalog;
            let v = catalog.remove(b);
            assert(before[b as int] == v);
            Ok(v)
        },
        None => Err(NoMatchError { constraint: String::from_str(c.text()), candidates: catalog }),
    }
}

/// Whether `v` is a version of the catalog in the range `c` that no other
/// such version outranks on `(major, minor, patch)` and release status.
pub open spec fn is_best_in(c: Seq<char>, catalog: Seq<VersionModel>, v: VersionModel) -> bool {
    &&& catalog.contains(v)
    &&& semver_req_admits(c, v)
    &&& forall|i: int|
        0 <= i < catalog.len() && semver_req_admits(c, #[trigger] catalog[i]) ==> !precedes(
            v,
            catalog[i],
        )
}

/// Builds the catalog from the listing entries and picks the highest version
/// in the range `requested`.
pub fn compute_version(
    requested: &VersionConstraint,
    include_pre_releases: bool,
    tags: &Vec<ReleaseTag>,
) -> (r: Result<SemVersion, NoMatchError>)
    ensures
        r is Err <==> forall|i: int|
            0 <= i < catalog_of(tags@, include_pre_releases).len() ==> !semver_req_admits(
                requested@,
                #[trigger] catalog_of(tags@, include_pre_releases)[i],
            ),
        r matches Ok(v) ==> is_best_in(requested@, catalog_of(tags@, include_pre_releases), v@),
        r matches Err(e) ==> e.candidates@.map_values(|x: SemVersion| x@) == catalog_of(
            tags@,
            include_pre_releases,
        ),
{
    let all = normalize_tags(tags, include_pre_releases);
    let ghost cat = catalog_of(tags@, include_pre_releases);
    let ghost before = all@;
    let r = resolve(requested, all);
    proof {
        assert(cat.len() == before.len());
        assert forall|i: int| 0 <= i < before.len() implies #[trigger] before[i]@ == cat[i] by {}
        if r is Ok {
            let v = r->Ok_0;
            let k = choose|k: int| 0 <= k < before.len() && before[k] == v;
            assert(cat[k] == v@);
            assert forall|i: int|
                0 <= i < cat.len() && semver_req_admits(requested@, #[trigger] cat[i]) implies !precedes(
                v@,
                cat[i],
            ) by {
                assert(before[i]@ == cat[i]);
            }
        }
        if r is Err {
            assert forall|i: int| 0 <= i < cat.len() implies !semver_req_admits(requested@, #[trigger] cat[i]) by {
                assert(before[i]@ == cat[i]);
            }
        } else {
            if forall|i: int| 0 <= i < cat.len() ==> !semver_req_admits(requested@, #[trigger] cat[i]) {
                assert forall|i: int| 0 <= i < before.len() implies !semver_req_admits(requested@, #[trigger] before[i]@) by {
                    assert(before[i]@ == cat[i]);
                }
            }
        }
    }
    r
}

} // verus!
