//! Command-line arguments of the packaging tool.
use vstd::prelude::*;

use crate::deb::starts_with;
use crate::text::{chars_of, string_of};

verus! {

/// What the packaging tool is asked to do.
#[derive(Clone, Debug)]
pub enum Action {
    /// Determine requirements and install dependencies.
    Dependencies,
    /// Build the hypervisor.
    BuildXen(BuildXenArgs),
    /// Build the fuzzer.
    BuildKFx(BuildKFxArgs),
}

/// Arguments of the packaging tool.
#[derive(Clone, Debug)]
pub struct Args {
    /// The command to run.
    pub action: Action,
}

/// Arguments of the hypervisor build.
#[derive(Clone, Debug)]
pub struct BuildXenArgs {
    /// Path of the hypervisor source directory.
    pub xen_path: String,
    /// Path where build artifacts go.
    pub output_path: String,
}

/// Arguments of the fuzzer build.
#[derive(Clone, Debug)]
pub struct BuildKFxArgs {
    /// Path of the fuzzer source directory.
    pub kfx_path: String,
    /// Path where build artifacts go.
    pub output_path: String,
    /// An existing hypervisor package to bundle with the build.
    pub xen_deb: Option<String>,
}

/// Whether `s` ends with `p`.
pub open spec fn ends_with(s: Seq<char>, p: Seq<char>) -> bool {
    p.len() <= s.len() && s.subrange(s.len() - p.len(), s.len() as int) == p
}

/// The version in a hypervisor image's file name `xen-VERSION.gz`.
pub open spec fn xen_version_of(name: Seq<char>) -> Option<Seq<char>> {
    if name.len() >= 7 && starts_with(name, "xen-"@) && ends_with(name, ".gz"@) {
        Some(name.subrange(4, name.len() - 3))
    } else {
        None
    }
}

fn version_in(name: &Vec<char>) -> (r: Option<Vec<char>>)
    ensures
        match xen_version_of(name@) {
            Some(v) => r matches Some(t) && t@ == v,
            None => r is None,
        },
{
    proof {
        reveal_strlit("xen-");
        reveal_strlit(".gz");
    }
    let n = name.len();
    if n < 7 || name[0] != 'x' || name[1] != 'e' || name[2] != 'n' || name[3] != '-' || name[n
        - 3] != '.' || name[n - 2] != 'g' || name[n - 1] != 'z' {
        proof {
            if n >= 7 && starts_with(name@, "xen-"@) && ends_with(name@, ".gz"@) {
                assert(name@.subrange(0, 4)[0] == 'x');
                assert(name@.subrange(0, 4)[3] == '-');
                assert(name@.subrange(0, 4)[1] == 'e');
                assert(name@.subrange(0, 4)[2] == 'n');
                assert(name@.subrange(n - 3, n as int)[0] == '.');
                assert(name@.subrange(n - 3, n as int)[1] == 'g');
                assert(name@.subrange(n - 3, n as int)[2] == 'z');
            }
        }
        return None;
    }
    assert(name@.subrange(0, 4) =~= "xen-"@);
    assert(name@.subrange(n - 3, n as int) =~= ".gz"@);
    let mut t: Vec<char> = Vec::new();
    let mut i: usize = 4;
    while i < n - 3
        invariant
            7 <= n == name@.len(),
            4 <= i <= n - 3,
            t@ == name@.subrange(4, i as int),
        decreases n - 3 - i,
    {
        t.push(name[i]);
        assert(name@.subrange(4, i + 1) =~= name@.subrange(4, i as int).push(name@[i as int]));
        i = i + 1;
    }
    Some(t)
}

/// The first hypervisor version among the file names of a build's boot directory, by
/// the pattern `xen-VERSION.gz`.
pub fn xen_version(file_names: &Vec<String>) -> (r: Option<String>)
    ensures
        r is None <==> forall|i: int|
            0 <= i < file_names@.len() ==> xen_version_of(#[trigger] file_names@[i]@) is None,
        r matches Some(v) ==> exists|i: int|
            0 <= i < file_names@.len() && xen_version_of(#[trigger] file_names@[i]@) == Some(v@)
                && forall|j: int| 0 <= j < i ==> xen_version_of(#[trigger] file_names@[j]@) is None,
{
    let mut i: usize = 0;
    while i < file_names.len()
        invariant
            i <= file_names@.len(),
            forall|j: int| 0 <= j < i ==> xen_version_of(#[trigger] file_names@[j]@) is None,
        decreases file_names@.len() - i,
    {
        let name = chars_of(file_names[i].as_str());
        match version_in(&name) {
            Some(t) => {
                let v = string_of(&t);
                assert(xen_version_of(file_names@[i as int]@) == Some(v@));
                return Some(v);
            },
            None => {},
        }
        i = i + 1;
    }
    None
}

} // verus!
