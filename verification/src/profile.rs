//! Installing packages into a Nix profile: which packages may be installed
//! together, which installed elements must make way for a package, and which
//! tool manages a profile.

use vstd::prelude::*;
use crate::text::{join_path, owned, path_join, strs};

verus! {

/// Why packages cannot be installed into a profile.
#[derive(Debug)]
pub enum Error {
    /// The package's files clash with files of a package listed before it;
    /// the clashing paths, relative to each package, are given.
    PathConflict(String, Vec<String>),
    /// No home directory is known for the user running the installer.
    NoRootHome,
}

/// Whether a profile is to be written to the default location or to a given one.
#[derive(Debug, Clone, Copy, PartialEq, Eq, Structural)]
pub enum WriteToDefaultProfile {
    WriteToDefault,
    Specific,
}

/// The tool that manages a profile.
#[derive(Debug, Clone, Copy, PartialEq, Eq, Structural)]
pub enum BackendType {
    NixEnv,
    NixProfile,
}

/// Which tool manages a profile: `nix profile` when the profile holds the
/// JSON list of its elements that `nix profile` keeps, `nix-env` when it
/// holds only the Nix-expression list that `nix-env` keeps, and none when it
/// holds neither.
pub fn get_profile_backend_type(has_json_list: bool, has_nix_list: bool) -> (r: Option<BackendType>)
    ensures
        has_json_list ==> r == Some(BackendType::NixProfile),
        !has_json_list && has_nix_list ==> r == Some(BackendType::NixEnv),
        !has_json_list && !has_nix_list ==> r is None,
{
    if has_json_list {
        Some(BackendType::NixProfile)
    } else if has_nix_list {
        Some(BackendType::NixEnv)
    } else {
        None
    }
}

/// A package to install and the files it holds, relative to its root.
#[derive(Debug)]
pub struct PackageContents {
    pub path: String,
    pub children: Vec<String>,
}

/// An element already installed in a profile and the files it holds.
#[derive(Debug)]
pub struct InstalledElement {
    pub name: String,
    pub children: Vec<String>,
}

pub open spec fn child_sets(pkgs: Seq<PackageContents>) -> Seq<Seq<Seq<char>>> {
    pkgs.map_values(|p: PackageContents| strs(p.children@))
}

/// All the files of the packages, package by package.
pub open spec fn all_children(cs: Seq<Seq<Seq<char>>>) -> Seq<Seq<char>>
    decreases cs.len(),
{
    if cs.len() == 0 {
        Seq::empty()
    } else {
        all_children(cs.drop_last()) + cs.last()
    }
}

/// Whether a package listed before position `i` holds `p`.
pub open spec fn in_earlier(cs: Seq<Seq<Seq<char>>>, i: int, p: Seq<char>) -> bool {
    exists|j: int| 0 <= j < i && cs[j].contains(p)
}

/// Whether the package at `i` shares a file with a package listed before it.
pub open spec fn clashes(cs: Seq<Seq<Seq<char>>>, i: int) -> bool {
    exists|p: Seq<char>| cs[i].contains(p) && in_earlier(cs, i, p)
}

/// The files of the package at `i` that a package listed before it also holds,
/// in the package's own order.
pub open spec fn clashing_files(cs: Seq<Seq<Seq<char>>>, i: int) -> Seq<Seq<char>> {
    cs[i].filter(|p: Seq<char>| in_earlier(cs, i, p))
}

proof fn lemma_all_children_contains(cs: Seq<Seq<Seq<char>>>, n: int, p: Seq<char>)
    requires
        0 <= n <= cs.len(),
    ensures
        all_children(cs.take(n)).contains(p) <==> in_earlier(cs, n, p),
    decreases n,
{
    if n > 0 {
        let prev = cs.take(n - 1);
        assert(cs.take(n).drop_last() =~= prev);
        lemma_all_children_contains(cs, n - 1, p);
        let whole = all_children(cs.take(n));
        assert(whole =~= all_children(prev) + cs[n - 1]);
        if whole.contains(p) {
            let k = choose|k: int| 0 <= k < whole.len() && whole[k] == p;
            if k < all_children(prev).len() {
                assert(all_children(prev)[k] == p);
                assert(all_children(prev).contains(p));
                let j = choose|j: int| 0 <= j < n - 1 && cs[j].contains(p);
                assert(in_earlier(cs, n, p));
            } else {
                assert(cs[n - 1][k - all_children(prev).len()] == p);
                assert(cs[n - 1].contains(p));
            }
        }
        if in_earlier(cs, n, p) {
            let j = choose|j: int| 0 <= j < n && cs[j].contains(p);
            if j < n - 1 {
                assert(in_earlier(cs, n - 1, p));
                let k = choose|k: int| 0 <= k < all_children(prev).len() && all_children(prev)[k] == p;
                assert(whole[k] == p);
            } else {
                let last = cs[n - 1];
                let k = choose|k: int| 0 <= k < last.len() && last[k] == p;
                assert(whole[all_children(prev).len() + k] == p);
            }
        }
    } else {
        assert(cs.take(0) =~= Seq::<Seq<Seq<char>>>::empty());
    }
}

/// When no package clashes with one listed before it, no two packages hold
/// the same file.
pub proof fn lemma_cohabiting_packages_are_disjoint(cs: Seq<Seq<Seq<char>>>, i: int, j: int, p: Seq<char>)
    requires
        forall|k: int| 0 <= k < cs.len() ==> !clashes(cs, k),
        0 <= i < j < cs.len(),
    ensures
        !(cs[i].contains(p) && cs[j].contains(p)),
{
    if cs[i].contains(p) && cs[j].contains(p) {
        assert(in_earlier(cs, j, p));
        assert(clashes(cs, j));
    }
}

fn contains_string(v: &Vec<String>, s: &String) -> (r: bool)
    ensures
        r == strs(v@).contains(s@),
{
    let mut i: usize = 0;
    while i < v.len()
        invariant
            i <= v.len(),
            forall|j: int| 0 <= j < i ==> strs(v@)[j] != s@,
        decreases v.len() - i,
    {
        if v[i] == *s {
            proof {
                assert(strs(v@)[i as int] == s@);
            }
            return true;
        }
        i = i + 1;
    }
    false
}

/// Collects the files of all the packages to install, after making sure no
/// two of them hold the same file.
///
/// On success the result lists the files package by package; otherwise the
/// first package that clashes with one listed before it is reported, with
/// the files it shares with those earlier packages.
pub fn validate_paths_can_cohabitate(pkgs: &Vec<PackageContents>) -> (r: Result<Vec<String>, Error>)
    ensures
        match r {
            Ok(all) => {
                &&& forall|i: int| 0 <= i < pkgs@.len() ==> !clashes(child_sets(pkgs@), i)
                &&& strs(all@) == all_children(child_sets(pkgs@))
            },
            Err(Error::PathConflict(pkg, shared)) => exists|i: int|
                0 <= i < pkgs@.len() && (forall|j: int| 0 <= j < i ==> !clashes(child_sets(pkgs@), j))
                    && clashes(child_sets(pkgs@), i) && pkg@ == pkgs@[i].path@ && strs(shared@)
                    == clashing_files(child_sets(pkgs@), i),
            Err(Error::NoRootHome) => false,
        },
{
    let ghost cs = child_sets(pkgs@);
    let mut all_new_paths: Vec<String> = Vec::new();
    let mut i: usize = 0;
    proof {
        assert(cs.take(0) =~= Seq::<Seq<Seq<char>>>::empty());
        assert(strs(all_new_paths@) =~= all_children(cs.take(0)));
    }
    while i < pkgs.len()
        invariant
            cs == child_sets(pkgs@),
            i <= pkgs.len(),
            strs(all_new_paths@) == all_children(cs.take(i as int)),
            forall|j: int| 0 <= j < i ==> !clashes(cs, j),
        decreases pkgs.len() - i,
    {
        let candidates = &pkgs[i].children;
        let ghost ci = strs(candidates@);
        proof {
            assert(cs[i as int] == ci);
        }
        let mut intersection: Vec<String> = Vec::new();
        let mut k: usize = 0;
        proof {
            reveal(Seq::filter);
            assert(ci.take(0) =~= Seq::<Seq<char>>::empty());
            assert(strs(intersection@) =~= ci.take(0).filter(|p: Seq<char>| in_earlier(cs, i as int, p)));
        }
        while k < candidates.len()
            invariant
                cs == child_sets(pkgs@),
                i < pkgs.len(),
                ci == strs(candidates@),
                cs[i as int] == ci,
                k <= candidates.len(),
                strs(all_new_paths@) == all_children(cs.take(i as int)),
                strs(intersection@) == ci.take(k as int).filter(|p: Seq<char>| in_earlier(cs, i as int, p)),
            decreases candidates.len() - k,
        {
            let c = &candidates[k];
            let found = contains_string(&all_new_paths, c);
            proof {
                reveal(Seq::filter);
                lemma_all_children_contains(cs, i as int, c@);
                assert(ci.take(k + 1).drop_last() =~= ci.take(k as int));
                assert(ci.take(k + 1).last() == c@);
                assert(strs(intersection@.push(*c)) =~= strs(intersection@).push(c@));
            }
            if found {
                intersection.push(c.clone());
            }
            k = k + 1;
        }
        proof {
            assert(ci.take(candidates.len() as int) =~= ci);
            assert(strs(intersection@) == clashing_files(cs, i as int));
        }
        if intersection.len() > 0 {
            proof {
                let f = clashing_files(cs, i as int);
                assert(f.len() > 0);
                let pred = |p: Seq<char>| in_earlier(cs, i as int, p);
                let p = f[0];
                assert(f.contains(p));
                ci.lemma_filter_pred(pred, 0);
                ci.lemma_filter_contains_rev(pred, p);
                assert(clashes(cs, i as int));
            }
            return Err(Error::PathConflict(pkgs[i].path.clone(), intersection));
        }
        proof {
            if clashes(cs, i as int) {
                let pred = |p: Seq<char>| in_earlier(cs, i as int, p);
                let p = choose|p: Seq<char>| cs[i as int].contains(p) && in_earlier(cs, i as int, p);
                let idx = choose|idx: int| 0 <= idx < ci.len() && ci[idx] == p;
                ci.lemma_filter_contains(pred, idx);
                assert(clashing_files(cs, i as int).contains(p));
                assert(false);
            }
        }
        let mut k2: usize = 0;
        let ghost base = strs(all_new_paths@);
        while k2 < candidates.len()
            invariant
                i < pkgs.len(),
                ci == strs(candidates@),
                k2 <= candidates.len(),
                strs(all_new_paths@) == base + ci.take(k2 as int),
            decreases candidates.len() - k2,
        {
            proof {
                assert(ci.take(k2 + 1) =~= ci.take(k2 as int).push(candidates@[k2 as int]@));
                assert(strs(all_new_paths@.push(candidates@[k2 as int])) =~= strs(all_new_paths@).push(candidates@[k2 as int]@));
            }
            all_new_paths.push(candidates[k2].clone());
            k2 = k2 + 1;
        }
        proof {
            assert(ci.take(candidates.len() as int) =~= ci);
            assert(cs.take(i + 1).drop_last() =~= cs.take(i as int));
            assert(cs.take(i + 1).last() == ci);
        }
        i = i + 1;
    }
    proof {
        assert(cs.take(pkgs.len() as int) =~= cs);
    }
    Ok(all_new_paths)
}

/// Whether two file lists share a file.
pub open spec fn overlaps(a: Seq<Seq<char>>, b: Seq<Seq<char>>) -> bool {
    exists|p: Seq<char>| a.contains(p) && b.contains(p)
}

/// The names of the installed elements that share a file with the package,
/// in the order they are installed.
pub open spec fn conflicting_names(installed: Seq<InstalledElement>, pkg: Seq<Seq<char>>) -> Seq<Seq<char>>
    decreases installed.len(),
{
    if installed.len() == 0 {
        Seq::empty()
    } else {
        let rest = conflicting_names(installed.drop_last(), pkg);
        if overlaps(strs(installed.last().children@), pkg) {
            rest.push(installed.last().name@)
        } else {
            rest
        }
    }
}

fn overlaps_exec(a: &Vec<String>, b: &Vec<String>) -> (r: bool)
    ensures
        r == overlaps(strs(a@), strs(b@)),
{
    let mut i: usize = 0;
    while i < a.len()
        invariant
            i <= a.len(),
            forall|j: int| 0 <= j < i ==> !strs(b@).contains(#[trigger] strs(a@)[j]),
        decreases a.len() - i,
    {
        if contains_string(b, &a[i]) {
            proof {
                assert(strs(a@)[i as int] == a@[i as int]@);
                assert(strs(a@).contains(a@[i as int]@));
            }
            return true;
        }
        i = i + 1;
    }
    proof {
        if overlaps(strs(a@), strs(b@)) {
            let p = choose|p: Seq<char>| strs(a@).contains(p) && strs(b@).contains(p);
            let j = choose|j: int| 0 <= j < strs(a@).len() && strs(a@)[j] == p;
            assert(!strs(b@).contains(strs(a@)[j]));
        }
    }
    false
}

/// The installed elements that must be removed from the profile before the
/// package can be installed: those that hold a file the package also holds.
pub fn conflicting_elements(installed: &Vec<InstalledElement>, pkg_children: &Vec<String>) -> (r: Vec<String>)
    ensures
        strs(r@) == conflicting_names(installed@, strs(pkg_children@)),
{
    let mut out: Vec<String> = Vec::new();
    let mut i: usize = 0;
    proof {
        assert(installed@.take(0) =~= Seq::<InstalledElement>::empty());
        assert(strs(out@) =~= Seq::<Seq<char>>::empty());
    }
    while i < installed.len()
        invariant
            i <= installed.len(),
            strs(out@) == conflicting_names(installed@.take(i as int), strs(pkg_children@)),
        decreases installed.len() - i,
    {
        proof {
            assert(installed@.take(i + 1).drop_last() =~= installed@.take(i as int));
            assert(installed@.take(i + 1).last() == installed@[i as int]);
        }
        if overlaps_exec(&installed[i].children, pkg_children) {
            proof {
                assert(strs(out@.push(installed@[i as int].name)) =~= strs(out@).push(installed@[i as int].name@));
            }
            out.push(installed[i].name.clone());
        }
        i = i + 1;
    }
    proof {
        assert(installed@.take(installed.len() as int) =~= installed@);
    }
    out
}

/// A step of replacing a profile with one that holds new packages, run on a
/// scratch copy of the profile.
#[derive(Debug)]
pub enum ProfileStep {
    /// Remove an installed element from the scratch profile.
    Uninstall(String),
    /// Install a package into the scratch profile.
    Install(String),
    /// Point the profile (the given one, or the default one when `None`)
    /// at the scratch profile.
    SetProfile(Option<String>),
}

/// A step, by its text.
pub enum StepView {
    Uninstall(Seq<char>),
    Install(Seq<char>),
    SetProfile(Option<Seq<char>>),
}

pub open spec fn step_view(s: ProfileStep) -> StepView {
    match s {
        ProfileStep::Uninstall(n) => StepView::Uninstall(n@),
        ProfileStep::Install(p) => StepView::Install(p@),
        ProfileStep::SetProfile(t) => StepView::SetProfile(
            match t {
                Some(p) => Some(p@),
                None => None,
            },
        ),
    }
}

pub open spec fn steps_view(v: Seq<ProfileStep>) -> Seq<StepView> {
    v.map_values(|s: ProfileStep| step_view(s))
}

/// For each package in turn: remove every installed element that shares a
/// file with it, then install it when installing was asked for. The
/// installed elements are those of the profile before any step.
pub open spec fn package_steps(pkgs: Seq<PackageContents>, installed: Seq<InstalledElement>, install: bool) -> Seq<StepView>
    decreases pkgs.len(),
{
    if pkgs.len() == 0 {
        Seq::empty()
    } else {
        package_steps(pkgs.drop_last(), installed, install)
            + conflicting_names(installed, strs(pkgs.last().children@)).map_values(|n: Seq<char>| StepView::Uninstall(n))
            + if install {
            seq![StepView::Install(pkgs.last().path@)]
        } else {
            Seq::empty()
        }
    }
}

/// The steps that make a profile hold the packages (or, when `install` is
/// off, only clear the way for them), ending by pointing the profile at the
/// result: the given profile, or the default one.
pub fn nix_env_steps(
    pkgs: &Vec<PackageContents>,
    installed: &Vec<InstalledElement>,
    to_default: WriteToDefaultProfile,
    profile: &String,
    install: bool,
) -> (r: Vec<ProfileStep>)
    ensures
        steps_view(r@) == package_steps(pkgs@, installed@, install) + seq![
            StepView::SetProfile(
                match to_default {
                    WriteToDefaultProfile::Specific => Some(profile@),
                    WriteToDefaultProfile::WriteToDefault => None,
                },
            ),
        ],
{
    let mut out: Vec<ProfileStep> = Vec::new();
    let mut i: usize = 0;
    proof {
        assert(pkgs@.take(0) =~= Seq::<PackageContents>::empty());
        assert(steps_view(out@) =~= Seq::<StepView>::empty());
    }
    while i < pkgs.len()
        invariant
            i <= pkgs.len(),
            steps_view(out@) == package_steps(pkgs@.take(i as int), installed@, install),
        decreases pkgs.len() - i,
    {
        let names = conflicting_elements(installed, &pkgs[i].children);
        let ghost before = steps_view(out@);
        let mut k: usize = 0;
        while k < names.len()
            invariant
                k <= names.len(),
                steps_view(out@) == before + strs(names@).take(k as int).map_values(|n: Seq<char>| StepView::Uninstall(n)),
            decreases names.len() - k,
        {
            let step = ProfileStep::Uninstall(names[k].clone());
            proof {
                assert(strs(names@).take(k + 1).map_values(|n: Seq<char>| StepView::Uninstall(n))
                    =~= strs(names@).take(k as int).map_values(|n: Seq<char>| StepView::Uninstall(n)).push(StepView::Uninstall(names@[k as int]@)));
                assert(steps_view(out@.push(step)) =~= steps_view(out@).push(step_view(step)));
            }
            out.push(step);
            k = k + 1;
        }
        proof {
            assert(strs(names@).take(names@.len() as int) =~= strs(names@));
        }
        if install {
            let step = ProfileStep::Install(pkgs[i].path.clone());
            proof {
                assert(steps_view(out@.push(step)) =~= steps_view(out@).push(step_view(step)));
            }
            out.push(step);
        }
        proof {
            assert(pkgs@.take(i + 1).drop_last() =~= pkgs@.take(i as int));
            assert(pkgs@.take(i + 1).last() == pkgs@[i as int]);
            let conflicts = conflicting_names(installed@, strs(pkgs@[i as int].children@)).map_values(|n: Seq<char>| StepView::Uninstall(n));
            if install {
                assert(steps_view(out@) =~= before + conflicts + seq![StepView::Install(pkgs@[i as int].path@)]);
            } else {
                assert(steps_view(out@) =~= before + conflicts + Seq::<StepView>::empty());
            }
        }
        i = i + 1;
    }
    let target = match to_default {
        WriteToDefaultProfile::Specific => Some(profile.clone()),
        WriteToDefaultProfile::WriteToDefault => None,
    };
    let step = ProfileStep::SetProfile(target);
    proof {
        assert(pkgs@.take(pkgs@.len() as int) =~= pkgs@);
        assert(steps_view(out@.push(step)) =~= steps_view(out@).push(step_view(step)));
    }
    out.push(step);
    out
}

/// The tool that manages a profile whose kind is known or not: `nix
/// profile` only when the profile is known to be one of its own.
pub fn backend_for(kind: Option<BackendType>) -> (r: BackendType)
    ensures
        r == (if kind == Some(BackendType::NixProfile) { BackendType::NixProfile } else { BackendType::NixEnv }),
{
    match kind {
        Some(BackendType::NixProfile) => BackendType::NixProfile,
        _ => BackendType::NixEnv,
    }
}

/// How Nix commands on profiles are run: without substitutes or a
/// post-build hook, with the given home directory, and with the
/// certificate bundle of the given certificate package.
#[derive(Debug)]
pub struct NixOptions {
    pub args: Vec<String>,
    pub home: String,
    pub ssl_cert_file: String,
}

pub open spec fn nix_option_args() -> Seq<Seq<char>> {
    seq!["--option"@, "substitute"@, "false"@, "--option"@, "post-build-hook"@, ""@]
}

/// The options, given the home directory of the user, if one is known.
pub fn nix_options(home: Option<String>, nss_ca_cert_pkg: &String) -> (r: Result<NixOptions, Error>)
    ensures
        home is None ==> r matches Err(Error::NoRootHome),
        home matches Some(h) ==> (r matches Ok(o) && strs(o.args@) == nix_option_args() && o.home == h
            && o.ssl_cert_file@ == path_join(nss_ca_cert_pkg@, "etc/ssl/certs/ca-bundle.crt"@)),
{
    let h = match home {
        Some(h) => h,
        None => return Err(Error::NoRootHome),
    };
    let mut args: Vec<String> = Vec::new();
    args.push(owned("--option"));
    args.push(owned("substitute"));
    args.push(owned("false"));
    args.push(owned("--option"));
    args.push(owned("post-build-hook"));
    args.push(owned(""));
    proof {
        assert(strs(args@) =~= nix_option_args());
    }
    let ssl_cert_file = join_path(nss_ca_cert_pkg, "etc/ssl/certs/ca-bundle.crt");
    Ok(NixOptions { args, home: h, ssl_cert_file })
}

/// Every element named for removal is installed and shares a file with
/// the package, and every installed element that does is named.
pub proof fn lemma_conflicts_are_exactly_the_overlapping(installed: Seq<InstalledElement>, pkg: Seq<Seq<char>>)
    ensures
        forall|n: Seq<char>| #[trigger] conflicting_names(installed, pkg).contains(n) <==> exists|i: int|
            0 <= i < installed.len() && installed[i].name@ == n && overlaps(strs(installed[i].children@), pkg),
    decreases installed.len(),
{
    if installed.len() > 0 {
        let init = installed.drop_last();
        lemma_conflicts_are_exactly_the_overlapping(init, pkg);
        let rest = conflicting_names(init, pkg);
        let last = installed.last();
        assert forall|n: Seq<char>| #[trigger] conflicting_names(installed, pkg).contains(n) <==> exists|i: int|
            0 <= i < installed.len() && installed[i].name@ == n && overlaps(strs(installed[i].children@), pkg) by {
            if conflicting_names(installed, pkg).contains(n) {
                if overlaps(strs(last.children@), pkg) && n == last.name@ {
                    assert(installed[installed.len() - 1] == last);
                } else {
                    if overlaps(strs(last.children@), pkg) {
                        let k = choose|k: int| 0 <= k < rest.push(last.name@).len() && rest.push(last.name@)[k] == n;
                        assert(k < rest.len());
                        assert(rest[k] == n);
                        assert(rest.contains(n));
                    }
                    let i = choose|i: int| 0 <= i < init.len() && init[i].name@ == n && overlaps(strs(init[i].children@), pkg);
                    assert(installed[i] == init[i]);
                }
            }
            if exists|i: int| 0 <= i < installed.len() && installed[i].name@ == n && overlaps(strs(installed[i].children@), pkg) {
                let i = choose|i: int| 0 <= i < installed.len() && installed[i].name@ == n && overlaps(strs(installed[i].children@), pkg);
                if i == installed.len() - 1 {
                    assert(rest.push(last.name@)[rest.len() as int] == n);
                } else {
                    assert(init[i] == installed[i]);
                    assert(rest.contains(n));
                    if overlaps(strs(last.children@), pkg) {
                        let k = choose|k: int| 0 <= k < rest.len() && rest[k] == n;
                        assert(rest.push(last.name@)[k] == n);
                    }
                }
            }
        }
    }
}

/// An element of a profile as the law below sees it: its name and its files.
pub open spec fn element_view(e: InstalledElement) -> (Seq<char>, Seq<Seq<char>>) {
    (e.name@, strs(e.children@))
}

/// A package as an element of a profile: its store path and its files.
pub open spec fn package_view(p: PackageContents) -> (Seq<char>, Seq<Seq<char>>) {
    (p.path@, strs(p.children@))
}

/// A profile holding the installed elements.
pub open spec fn profile_of(installed: Seq<InstalledElement>) -> Set<(Seq<char>, Seq<Seq<char>>)> {
    Set::new(|x: (Seq<char>, Seq<Seq<char>>)| exists|i: int| 0 <= i < installed.len() && x == element_view(installed[i]))
}

/// The package installed by an `Install` step for a store path.
pub open spec fn package_named(pkgs: Seq<PackageContents>, path: Seq<char>) -> (Seq<char>, Seq<Seq<char>>) {
    if exists|j: int| 0 <= j < pkgs.len() && pkgs[j].path@ == path {
        package_view(pkgs[choose|j: int| 0 <= j < pkgs.len() && pkgs[j].path@ == path])
    } else {
        (path, Seq::empty())
    }
}

/// What a step does to a profile: removing drops the elements of that name,
/// installing adds the package of that store path, and pointing the profile
/// at the scratch copy leaves the copy's contents as they are.
pub open spec fn apply_step(
    prof: Set<(Seq<char>, Seq<Seq<char>>)>,
    step: StepView,
    pkgs: Seq<PackageContents>,
) -> Set<(Seq<char>, Seq<Seq<char>>)> {
    match step {
        StepView::Uninstall(n) => prof.filter(|e: (Seq<char>, Seq<Seq<char>>)| e.0 != n),
        StepView::Install(path) => prof.insert(package_named(pkgs, path)),
        StepView::SetProfile(_) => prof,
    }
}

/// What the steps do to a profile, one after the other.
pub open spec fn apply_steps(
    prof: Set<(Seq<char>, Seq<Seq<char>>)>,
    steps: Seq<StepView>,
    pkgs: Seq<PackageContents>,
) -> Set<(Seq<char>, Seq<Seq<char>>)>
    decreases steps.len(),
{
    if steps.len() == 0 {
        prof
    } else {
        apply_step(apply_steps(prof, steps.drop_last(), pkgs), steps.last(), pkgs)
    }
}

/// What a call of the profile install may assume of its inputs: element
/// names are unique in the profile, store paths are unique among the
/// packages, the packages passed the cohabitation check, and an element
/// named by a package's store path holds that package's files (a store path
/// names its contents).
pub open spec fn install_inputs_ok(installed: Seq<InstalledElement>, pkgs: Seq<PackageContents>) -> bool {
    &&& forall|i: int, j: int| 0 <= i < j < installed.len() ==> installed[i].name@ != installed[j].name@
    &&& forall|i: int, j: int| 0 <= i < j < pkgs.len() ==> pkgs[i].path@ != pkgs[j].path@
    &&& forall|k: int| 0 <= k < pkgs.len() ==> !clashes(child_sets(pkgs), k)
    &&& forall|i: int, j: int|
        0 <= i < installed.len() && 0 <= j < pkgs.len() && installed[i].name@ == pkgs[j].path@ ==> strs(
            installed[i].children@,
        ) == strs(pkgs[j].children@)
}

/// The profile after a call installs the packages: the steps the call
/// plans, applied to the profile it found.
pub open spec fn profile_after(
    installed: Seq<InstalledElement>,
    pkgs: Seq<PackageContents>,
    target: Option<Seq<char>>,
) -> Set<(Seq<char>, Seq<Seq<char>>)> {
    apply_steps(profile_of(installed), package_steps(pkgs, installed, true) + seq![StepView::SetProfile(target)], pkgs)
}

proof fn lemma_apply_concat(
    prof: Set<(Seq<char>, Seq<Seq<char>>)>,
    a: Seq<StepView>,
    b: Seq<StepView>,
    pkgs: Seq<PackageContents>,
)
    ensures
        apply_steps(prof, a + b, pkgs) == apply_steps(apply_steps(prof, a, pkgs), b, pkgs),
    decreases b.len(),
{
    if b.len() == 0 {
        assert(a + b =~= a);
    } else {
        assert((a + b).drop_last() =~= a + b.drop_last());
        assert((a + b).last() == b.last());
        lemma_apply_concat(prof, a, b.drop_last(), pkgs);
    }
}

proof fn lemma_apply_uninstalls(prof: Set<(Seq<char>, Seq<Seq<char>>)>, names: Seq<Seq<char>>, pkgs: Seq<PackageContents>)
    ensures
        apply_steps(prof, names.map_values(|n: Seq<char>| StepView::Uninstall(n)), pkgs) == prof.filter(
            |e: (Seq<char>, Seq<Seq<char>>)| !names.contains(e.0),
        ),
    decreases names.len(),
{
    let steps = names.map_values(|n: Seq<char>| StepView::Uninstall(n));
    if names.len() == 0 {
        assert(prof.filter(|e: (Seq<char>, Seq<Seq<char>>)| !names.contains(e.0)) =~= prof);
    } else {
        let init = names.drop_last();
        assert(steps.drop_last() =~= init.map_values(|n: Seq<char>| StepView::Uninstall(n)));
        lemma_apply_uninstalls(prof, init, pkgs);
        let last = names.last();
        assert forall|e: (Seq<char>, Seq<Seq<char>>)| #[trigger] names.contains(e.0) <==> (init.contains(e.0) || e.0 == last) by {
            if names.contains(e.0) {
                let k = choose|k: int| 0 <= k < names.len() && names[k] == e.0;
                if k < names.len() - 1 {
                    assert(init[k] == e.0);
                }
            }
            if init.contains(e.0) {
                let k = choose|k: int| 0 <= k < init.len() && init[k] == e.0;
                assert(names[k] == e.0);
            }
            if e.0 == last {
                assert(names[names.len() - 1] == e.0);
            }
        }
        assert(apply_steps(prof, steps, pkgs) =~= prof.filter(|e: (Seq<char>, Seq<Seq<char>>)| !names.contains(e.0)));
    }
}

proof fn lemma_packages_disjoint(pkgs: Seq<PackageContents>, j: int, k: int)
    requires
        forall|m: int| 0 <= m < pkgs.len() ==> !clashes(child_sets(pkgs), m),
        0 <= j < pkgs.len(),
        0 <= k < pkgs.len(),
        j != k,
    ensures
        !overlaps(strs(pkgs[j].children@), strs(pkgs[k].children@)),
{
    let cs = child_sets(pkgs);
    assert(cs[j] == strs(pkgs[j].children@));
    assert(cs[k] == strs(pkgs[k].children@));
    if overlaps(strs(pkgs[j].children@), strs(pkgs[k].children@)) {
        let p = choose|p: Seq<char>| strs(pkgs[j].children@).contains(p) && strs(pkgs[k].children@).contains(p);
        if j < k {
            lemma_cohabiting_packages_are_disjoint(cs, j, k, p);
        } else {
            lemma_cohabiting_packages_are_disjoint(cs, k, j, p);
        }
    }
}

/// Whether installed element `i` shares a file with package `j`.
pub open spec fn element_overlaps(installed: Seq<InstalledElement>, pkgs: Seq<PackageContents>, i: int, j: int) -> bool {
    overlaps(strs(installed[i].children@), strs(pkgs[j].children@))
}

proof fn lemma_profile_after_prefix(installed: Seq<InstalledElement>, pkgs: Seq<PackageContents>, k: int)
    requires
        install_inputs_ok(installed, pkgs),
        0 <= k <= pkgs.len(),
    ensures
        ({
            let res = apply_steps(profile_of(installed), package_steps(pkgs.take(k), installed, true), pkgs);
            &&& forall|i: int| #![trigger element_view(installed[i])]
                0 <= i < installed.len() && (forall|j: int| 0 <= j < k ==> !element_overlaps(installed, pkgs, i, j))
                    ==> res.contains(element_view(installed[i]))
            &&& forall|i: int| #![trigger element_view(installed[i])]
                0 <= i < installed.len() && (exists|j: int| 0 <= j < k && element_overlaps(installed, pkgs, i, j))
                    && (forall|j: int| 0 <= j < pkgs.len() ==> installed[i].name@ != pkgs[j].path@)
                    ==> !res.contains(element_view(installed[i]))
            &&& forall|j: int| 0 <= j < k ==> res.contains(#[trigger] package_view(pkgs[j]))
            &&& forall|x: (Seq<char>, Seq<Seq<char>>)| #[trigger] res.contains(x) ==> (exists|i: int|
                0 <= i < installed.len() && x == element_view(installed[i]) && forall|j: int|
                    0 <= j < k ==> !element_overlaps(installed, pkgs, i, j)) || (exists|j: int|
                0 <= j < k && x == package_view(pkgs[j]))
        }),
    decreases k,
{
    let init = profile_of(installed);
    if k == 0 {
        assert(pkgs.take(0).len() == 0);
        assert(package_steps(pkgs.take(0), installed, true) =~= Seq::<StepView>::empty());
    } else {
        lemma_profile_after_prefix(installed, pkgs, k - 1);
        let pk = pkgs[k - 1];
        let prev_steps = package_steps(pkgs.take(k - 1), installed, true);
        let prev = apply_steps(init, prev_steps, pkgs);
        let files = strs(pk.children@);
        let names = conflicting_names(installed, files);
        let us = names.map_values(|n: Seq<char>| StepView::Uninstall(n));
        let ins = seq![StepView::Install(pk.path@)];
        assert(pkgs.take(k).drop_last() =~= pkgs.take(k - 1));
        assert(pkgs.take(k).last() == pk);
        assert(package_steps(pkgs.take(k), installed, true) == prev_steps + us + ins);
        lemma_apply_concat(init, prev_steps + us, ins, pkgs);
        lemma_apply_concat(init, prev_steps, us, pkgs);
        lemma_apply_uninstalls(prev, names, pkgs);
        let mid = prev.filter(|e: (Seq<char>, Seq<Seq<char>>)| !names.contains(e.0));
        assert(ins.drop_last() =~= Seq::<StepView>::empty());
        assert(package_named(pkgs, pk.path@) == package_view(pk)) by {
            assert(pkgs[k - 1].path@ == pk.path@);
            let j = choose|j: int| 0 <= j < pkgs.len() && pkgs[j].path@ == pk.path@;
            if j != k - 1 {
                if j < k - 1 {
                    assert(pkgs[j].path@ != pkgs[k - 1].path@);
                } else {
                    assert(pkgs[k - 1].path@ != pkgs[j].path@);
                }
            }
        }
        let res = mid.insert(package_view(pk));
        let before_ins = apply_steps(init, prev_steps + us, pkgs);
        assert(before_ins == apply_steps(prev, us, pkgs));
        assert(before_ins == mid);
        assert(apply_steps(before_ins, ins.drop_last(), pkgs) == before_ins);
        assert(apply_steps(before_ins, ins, pkgs) == apply_step(before_ins, StepView::Install(pk.path@), pkgs));
        assert(apply_steps(before_ins, ins, pkgs) == res);
        assert(apply_steps(init, package_steps(pkgs.take(k), installed, true), pkgs) == res);
        lemma_conflicts_are_exactly_the_overlapping(installed, files);
        // An element is removed exactly when its own name is among the names.
        assert forall|i: int| 0 <= i < installed.len() implies (names.contains(installed[i].name@)
            <==> element_overlaps(installed, pkgs, i, k - 1)) by {
            if names.contains(installed[i].name@) {
                let i2 = choose|i2: int| 0 <= i2 < installed.len() && installed[i2].name@ == installed[i].name@
                    && overlaps(strs(installed[i2].children@), files);
                if i2 != i {
                    if i2 < i {
                        assert(installed[i2].name@ != installed[i].name@);
                    } else {
                        assert(installed[i].name@ != installed[i2].name@);
                    }
                }
            }
            if element_overlaps(installed, pkgs, i, k - 1) {
                assert(names.contains(installed[i].name@));
            }
        }
        // A package installed before is never named for removal.
        assert forall|j: int| 0 <= j < k - 1 implies !names.contains(#[trigger] pkgs[j].path@) by {
            if names.contains(pkgs[j].path@) {
                let i = choose|i: int| 0 <= i < installed.len() && installed[i].name@ == pkgs[j].path@
                    && overlaps(strs(installed[i].children@), files);
                assert(strs(installed[i].children@) == strs(pkgs[j].children@));
                lemma_packages_disjoint(pkgs, j, k - 1);
            }
        }
        assert forall|i: int| #![trigger element_view(installed[i])]
            0 <= i < installed.len() && (forall|j: int| 0 <= j < k ==> !element_overlaps(installed, pkgs, i, j))
                implies res.contains(element_view(installed[i])) by {
            assert(!element_overlaps(installed, pkgs, i, k - 1));
            assert(prev.contains(element_view(installed[i])));
        }
        assert forall|i: int| #![trigger element_view(installed[i])]
            0 <= i < installed.len() && (exists|j: int| 0 <= j < k && element_overlaps(installed, pkgs, i, j))
                && (forall|j: int| 0 <= j < pkgs.len() ==> installed[i].name@ != pkgs[j].path@)
                implies !res.contains(element_view(installed[i])) by {
            let j = choose|j: int| 0 <= j < k && element_overlaps(installed, pkgs, i, j);
            assert(installed[i].name@ != pkgs[k - 1].path@);
            if j < k - 1 {
                assert(!prev.contains(element_view(installed[i])));
            } else {
                assert(names.contains(installed[i].name@));
            }
        }
        assert forall|j: int| 0 <= j < k implies res.contains(#[trigger] package_view(pkgs[j])) by {
            if j < k - 1 {
                assert(prev.contains(package_view(pkgs[j])));
                assert(!names.contains(pkgs[j].path@));
            }
        }
        assert forall|x: (Seq<char>, Seq<Seq<char>>)| #[trigger] res.contains(x) implies (exists|i: int|
            0 <= i < installed.len() && x == element_view(installed[i]) && forall|j: int|
                0 <= j < k ==> !element_overlaps(installed, pkgs, i, j)) || (exists|j: int|
            0 <= j < k && x == package_view(pkgs[j])) by {
            if x == package_view(pk) {
                assert(x == package_view(pkgs[k - 1]));
            } else {
                assert(prev.contains(x));
                assert(!names.contains(x.0));
                if exists|j: int| 0 <= j < k - 1 && x == package_view(pkgs[j]) {
                    let j = choose|j: int| 0 <= j < k - 1 && x == package_view(pkgs[j]);
                    assert(0 <= j < k && x == package_view(pkgs[j]));
                } else {
                    let i = choose|i: int| 0 <= i < installed.len() && x == element_view(installed[i]) && forall|j: int|
                        0 <= j < k - 1 ==> !element_overlaps(installed, pkgs, i, j);
                    assert(!element_overlaps(installed, pkgs, i, k - 1));
                    assert forall|j: int| 0 <= j < k implies !element_overlaps(installed, pkgs, i, j) by {}
                }
            }
        }
    }
}

/// What one install of packages into a profile leaves in it: every package
/// is installed; an element already there that shares no file with any
/// package is kept; one that shares a file with a package is replaced
/// (unless it is that very store path, installed again); and the profile
/// holds nothing else.
pub proof fn lemma_install_replaces_overlapping(
    installed: Seq<InstalledElement>,
    pkgs: Seq<PackageContents>,
    target: Option<Seq<char>>,
)
    requires
        install_inputs_ok(installed, pkgs),
    ensures
        ({
            let res = profile_after(installed, pkgs, target);
            &&& forall|j: int| 0 <= j < pkgs.len() ==> res.contains(#[trigger] package_view(pkgs[j]))
            &&& forall|i: int| #![trigger element_view(installed[i])]
                0 <= i < installed.len() && (forall|j: int| 0 <= j < pkgs.len() ==> !element_overlaps(installed, pkgs, i, j))
                    ==> res.contains(element_view(installed[i]))
            &&& forall|i: int| #![trigger element_view(installed[i])]
                0 <= i < installed.len() && (exists|j: int| 0 <= j < pkgs.len() && element_overlaps(installed, pkgs, i, j))
                    && (forall|j: int| 0 <= j < pkgs.len() ==> installed[i].name@ != pkgs[j].path@)
                    ==> !res.contains(element_view(installed[i]))
            &&& forall|x: (Seq<char>, Seq<Seq<char>>)| #[trigger] res.contains(x) ==> (exists|i: int|
                0 <= i < installed.len() && x == element_view(installed[i]) && forall|j: int|
                    0 <= j < pkgs.len() ==> !element_overlaps(installed, pkgs, i, j)) || (exists|j: int|
                0 <= j < pkgs.len() && x == package_view(pkgs[j]))
        }),
{
    lemma_profile_after_prefix(installed, pkgs, pkgs.len() as int);
    assert(pkgs.take(pkgs.len() as int) =~= pkgs);
    let steps = package_steps(pkgs, installed, true);
    let last = seq![StepView::SetProfile(target)];
    lemma_apply_concat(profile_of(installed), steps, last, pkgs);
    assert(last.drop_last() =~= Seq::<StepView>::empty());
    let y = apply_steps(profile_of(installed), steps, pkgs);
    assert(apply_steps(y, last.drop_last(), pkgs) == y);
    assert(apply_steps(y, last, pkgs) == y);
    assert(profile_after(installed, pkgs, target) == y);
}

/// Two installs in a row into the same profile: the second finds what the
/// first left. Every package of the second is installed; a package of the
/// first that shares no file with the second's packages is kept; one that
/// does (and is not installed again under the same store path) is replaced.
pub proof fn lemma_successive_installs(
    installed: Seq<InstalledElement>,
    first: Seq<PackageContents>,
    between: Seq<InstalledElement>,
    second: Seq<PackageContents>,
    target: Option<Seq<char>>,
)
    requires
        install_inputs_ok(installed, first),
        install_inputs_ok(between, second),
        profile_of(between) == profile_after(installed, first, target),
    ensures
        forall|j: int| 0 <= j < second.len() ==> #[trigger] profile_after(between, second, target).contains(
            package_view(second[j]),
        ),
        forall|j: int| #![trigger package_view(first[j])]
            0 <= j < first.len() && (forall|m: int| 0 <= m < second.len() ==> !overlaps(
                strs(first[j].children@),
                strs(second[m].children@),
            )) ==> profile_after(between, second, target).contains(package_view(first[j])),
        forall|j: int| #![trigger package_view(first[j])]
            0 <= j < first.len() && (exists|m: int| 0 <= m < second.len() && overlaps(
                strs(first[j].children@),
                strs(second[m].children@),
            )) && (forall|m: int| 0 <= m < second.len() ==> first[j].path@ != second[m].path@)
                ==> !profile_after(between, second, target).contains(package_view(first[j])),
{
    lemma_install_replaces_overlapping(installed, first, target);
    lemma_install_replaces_overlapping(between, second, target);
    let res1 = profile_after(installed, first, target);
    assert forall|j: int| #![trigger package_view(first[j])] 0 <= j < first.len() implies exists|i: int|
        0 <= i < between.len() && package_view(first[j]) == element_view(between[i]) by {
        assert(res1.contains(package_view(first[j])));
        assert(profile_of(between).contains(package_view(first[j])));
    }
    assert forall|j: int| #![trigger package_view(first[j])]
        0 <= j < first.len() && (forall|m: int| 0 <= m < second.len() ==> !overlaps(
            strs(first[j].children@),
            strs(second[m].children@),
        )) implies profile_after(between, second, target).contains(package_view(first[j])) by {
        let i = choose|i: int| 0 <= i < between.len() && package_view(first[j]) == element_view(between[i]);
        assert forall|m: int| 0 <= m < second.len() implies !element_overlaps(between, second, i, m) by {}
    }
    assert forall|j: int| #![trigger package_view(first[j])]
        0 <= j < first.len() && (exists|m: int| 0 <= m < second.len() && overlaps(
            strs(first[j].children@),
            strs(second[m].children@),
        )) && (forall|m: int| 0 <= m < second.len() ==> first[j].path@ != second[m].path@)
            implies !profile_after(between, second, target).contains(package_view(first[j])) by {
        let i = choose|i: int| 0 <= i < between.len() && package_view(first[j]) == element_view(between[i]);
        let m = choose|m: int| 0 <= m < second.len() && overlaps(strs(first[j].children@), strs(second[m].children@));
        assert(element_overlaps(between, second, i, m));
        assert forall|m2: int| 0 <= m2 < second.len() implies between[i].name@ != second[m2].path@ by {}
    }
}

} // verus!
