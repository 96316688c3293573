//! The environment variables that make an installed Nix usable from a shell,
//! and the two text formats in which they are emitted.

use vstd::prelude::*;
use vstd::string::*;
use crate::text::{
    lemma_join_then_split,
    contains_char, has_char, join_on_char, join_path, join_with, opt_text, owned, path_join,
    split_on, split_on_char, strs,
};

verus! {

/// The profile every user shares.
pub open spec fn default_profile() -> Seq<char> {
    "/nix/var/nix/profiles/default"@
}

/// Why the environment could not be computed.
#[derive(Debug)]
pub enum Error {
    /// `HOME` is unset or empty.
    HomeNotSet,
    /// `__ETC_PROFILE_NIX_SOURCED` is `1`: the variables were already set.
    AlreadyRun,
    /// A directory for `XDG_DATA_DIRS` holds a `:`.
    InvalidXdgDataDirs(Vec<String>),
    /// A directory for `PATH` holds a `:`.
    InvalidPathDirs(Vec<String>),
    /// A directory for `MANPATH` holds a `:`.
    InvalidManPathDirs(Vec<String>),
}

/// The meaning of an [`Error`], with its directory lists as text.
pub enum ErrorView {
    HomeNotSet,
    AlreadyRun,
    InvalidXdgDataDirs(Seq<Seq<char>>),
    InvalidPathDirs(Seq<Seq<char>>),
    InvalidManPathDirs(Seq<Seq<char>>),
}

impl View for Error {
    type V = ErrorView;

    open spec fn view(&self) -> ErrorView {
        match self {
            Error::HomeNotSet => ErrorView::HomeNotSet,
            Error::AlreadyRun => ErrorView::AlreadyRun,
            Error::InvalidXdgDataDirs(v) => ErrorView::InvalidXdgDataDirs(strs(v@)),
            Error::InvalidPathDirs(v) => ErrorView::InvalidPathDirs(strs(v@)),
            Error::InvalidManPathDirs(v) => ErrorView::InvalidManPathDirs(strs(v@)),
        }
    }
}

/// The environment variables the computation reads, `None` where unset.
#[derive(Debug)]
pub struct EnvironmentInputs {
    pub etc_profile_nix_sourced: Option<String>,
    pub home: Option<String>,
    pub xdg_state_home: Option<String>,
    pub xdg_data_dirs: Option<String>,
    pub nix_ssl_cert_file: Option<String>,
    pub path: Option<String>,
    pub manpath: Option<String>,
}

/// A variable's value if it is set and not empty.
pub open spec fn nonempty(v: Option<Seq<char>>) -> Option<Seq<char>> {
    match v {
        Some(s) => if s.len() > 0 {
            Some(s)
        } else {
            None
        },
        None => None,
    }
}

/// A list variable split into directories: `None` when unset, no directory
/// when empty.
pub open spec fn env_path_list(v: Option<Seq<char>>) -> Option<Seq<Seq<char>>> {
    match v {
        None => None,
        Some(s) => if s.len() == 0 {
            Some(Seq::empty())
        } else {
            Some(split_on(s, ':'))
        },
    }
}

/// The profile location under the XDG state directory.
pub open spec fn xdg_profile(inputs: EnvironmentInputs, home: Seq<char>) -> Seq<char> {
    let state = match nonempty(opt_text(inputs.xdg_state_home)) {
        Some(s) => s,
        None => path_join(home, ".local/state"@),
    };
    path_join(state, "nix/profile"@)
}

/// The user's profile: the XDG location when it is a symlink, else `~/.nix-profile`.
pub open spec fn nix_link(inputs: EnvironmentInputs, home: Seq<char>, xdg_is_symlink: bool) -> Seq<char> {
    if xdg_is_symlink {
        xdg_profile(inputs, home)
    } else {
        path_join(home, ".nix-profile"@)
    }
}

/// Where a CA certificate bundle is looked for, in order of preference.
pub open spec fn ssl_cert_candidates(link: Seq<char>) -> Seq<Seq<char>> {
    seq![
        "/etc/ssl/certs/ca-certificates.crt"@,
        "/etc/ssl/ca-bundle.pem"@,
        "/etc/ssl/certs/ca-bundle.crt"@,
        "/etc/pki/tls/certs/ca-bundle.crt"@,
        path_join(link, "etc/ssl/certs/ca-bundle.crt"@),
        path_join(link, "etc/ca-bundle.crt"@),
        link,
        default_profile(),
    ]
}

/// The first candidate marked as an existing file; a missing mark counts as no.
pub open spec fn first_existing(cands: Seq<Seq<char>>, is_file: Seq<bool>) -> Option<Seq<char>>
    decreases cands.len(),
{
    if cands.len() == 0 {
        None
    } else if is_file.len() > 0 && is_file[0] {
        Some(cands[0])
    } else {
        first_existing(cands.drop_first(), if is_file.len() > 0 { is_file.drop_first() } else { is_file })
    }
}

pub open spec fn any_has_colon(dirs: Seq<Seq<char>>) -> bool {
    exists|k: int| 0 <= k < dirs.len() && has_char(dirs[k], ':')
}

/// The directories for `XDG_DATA_DIRS`.
pub open spec fn xdg_data_dirs_list(inputs: EnvironmentInputs, link: Seq<char>) -> Seq<Seq<char>> {
    let base = match env_path_list(opt_text(inputs.xdg_data_dirs)) {
        Some(dirs) => dirs,
        None => seq!["/usr/local/share"@, "/usr/share"@],
    };
    base + seq![path_join(link, "share"@), "/nix/var/nix/profiles/default/share"@]
}

/// The directories for a search path: the profiles' `sub` directories first,
/// then what the variable held.
pub open spec fn search_path_list(old: Option<Seq<char>>, link: Seq<char>, sub: Seq<char>) -> Seq<Seq<char>> {
    let front = seq![path_join(link, sub), path_join(default_profile(), sub)];
    match env_path_list(old) {
        Some(dirs) => front + dirs,
        None => front,
    }
}

/// The variables to export, in the order they are computed.
pub open spec fn environment_entries(
    inputs: EnvironmentInputs,
    link: Seq<char>,
    cert_is_file: Seq<bool>,
) -> Seq<(Seq<char>, Seq<char>)> {
    let head = seq![
        ("__ETC_PROFILE_NIX_SOURCED"@, "1"@),
        ("NIX_PROFILES"@, default_profile() + " "@ + link),
        ("XDG_DATA_DIRS"@, join_with(xdg_data_dirs_list(inputs, link), ":"@)),
    ];
    let cert: Seq<(Seq<char>, Seq<char>)> = if nonempty(opt_text(inputs.nix_ssl_cert_file)) is None {
        match first_existing(ssl_cert_candidates(link), cert_is_file) {
            Some(c) => seq![("NIX_SSL_CERT_FILE"@, c)],
            None => Seq::empty(),
        }
    } else {
        Seq::empty()
    };
    head + cert + seq![
        ("PATH"@, join_with(search_path_list(opt_text(inputs.path), link, "bin"@), ":"@)),
        ("MANPATH"@, join_with(search_path_list(opt_text(inputs.manpath), link, "share/man"@), ":"@)),
    ]
}

/// What computing the environment yields.
pub open spec fn environment_outcome(
    inputs: EnvironmentInputs,
    xdg_is_symlink: bool,
    cert_is_file: Seq<bool>,
) -> Result<Seq<(Seq<char>, Seq<char>)>, ErrorView> {
    if nonempty(opt_text(inputs.etc_profile_nix_sourced)) == Some("1"@) {
        Err(ErrorView::AlreadyRun)
    } else {
        match nonempty(opt_text(inputs.home)) {
            None => Err(ErrorView::HomeNotSet),
            Some(home) => {
                let link = nix_link(inputs, home, xdg_is_symlink);
                let xdg = xdg_data_dirs_list(inputs, link);
                let path = search_path_list(opt_text(inputs.path), link, "bin"@);
                let manpath = search_path_list(opt_text(inputs.manpath), link, "share/man"@);
                if any_has_colon(xdg) {
                    Err(ErrorView::InvalidXdgDataDirs(xdg))
                } else if any_has_colon(path) {
                    Err(ErrorView::InvalidPathDirs(path))
                } else if any_has_colon(manpath) {
                    Err(ErrorView::InvalidManPathDirs(manpath))
                } else {
                    Ok(environment_entries(inputs, link, cert_is_file))
                }
            },
        }
    }
}

pub open spec fn entries_text(v: Seq<(String, String)>) -> Seq<(Seq<char>, Seq<char>)> {
    v.map_values(|p: (String, String)| (p.0@, p.1@))
}

pub open spec fn environment_result_view(r: Result<Vec<(String, String)>, Error>) -> Result<
    Seq<(Seq<char>, Seq<char>)>,
    ErrorView,
> {
    match r {
        Ok(v) => Ok(entries_text(v@)),
        Err(e) => Err(e@),
    }
}

fn clone_opt(o: &Option<String>) -> (r: Option<String>)
    ensures
        opt_text(r) == opt_text(*o),
{
    match o {
        Some(s) => Some(s.clone()),
        None => None,
    }
}

/// The variable's value if it is set and not empty.
pub fn nonempty_var_os(v: &Option<String>) -> (r: Option<String>)
    ensures
        opt_text(r) == nonempty(opt_text(*v)),
{
    match v {
        Some(s) => if s.unicode_len() > 0 {
            Some(s.clone())
        } else {
            None
        },
        None => None,
    }
}

/// A list variable split into directories.
pub fn env_path(v: &Option<String>) -> (r: Option<Vec<String>>)
    ensures
        match r {
            Some(dirs) => env_path_list(opt_text(*v)) == Some(strs(dirs@)),
            None => env_path_list(opt_text(*v)) is None,
        },
{
    match v {
        None => None,
        Some(s) => if s.unicode_len() == 0 {
            let empty: Vec<String> = Vec::new();
            proof {
                assert(strs(empty@) =~= Seq::<Seq<char>>::empty());
            }
            Some(empty)
        } else {
            Some(split_on_char(s, ':'))
        },
    }
}

/// The directories joined with `:`, or `None` when one of them holds a `:`.
pub fn join_paths(dirs: &Vec<String>) -> (r: Option<String>)
    ensures
        match r {
            Some(joined) => !any_has_colon(strs(dirs@)) && joined@ == join_with(strs(dirs@), ":"@),
            None => any_has_colon(strs(dirs@)),
        },
{
    let mut i: usize = 0;
    while i < dirs.len()
        invariant
            i <= dirs.len(),
            forall|k: int| 0 <= k < i ==> !has_char(strs(dirs@)[k], ':'),
        decreases dirs.len() - i,
    {
        if contains_char(&dirs[i], ':') {
            proof {
                assert(strs(dirs@)[i as int] == dirs@[i as int]@);
            }
            return None;
        }
        i = i + 1;
    }
    Some(join_on_char(dirs, ":"))
}

fn push_str(v: &mut Vec<String>, s: String)
    ensures
        strs(final(v)@) == strs(old(v)@).push(s@),
{
    proof {
        assert(strs(old(v)@.push(s)) =~= strs(old(v)@).push(s@));
    }
    v.push(s);
}

/// Where the profile lives under the XDG state directory, once `HOME` is known.
pub fn xdg_profile_location(inputs: &EnvironmentInputs) -> (r: Option<String>)
    ensures
        match nonempty(opt_text(inputs.home)) {
            Some(home) => r matches Some(loc) && loc@ == xdg_profile(*inputs, home),
            None => r is None,
        },
{
    match nonempty_var_os(&inputs.home) {
        None => None,
        Some(home) => {
            let state = match nonempty_var_os(&inputs.xdg_state_home) {
                Some(s) => s,
                None => join_path(&home, ".local/state"),
            };
            Some(join_path(&state, "nix/profile"))
        },
    }
}

/// The user's profile, given whether its XDG location is a symlink.
pub fn user_profile_link(inputs: &EnvironmentInputs, xdg_is_symlink: bool) -> (r: Option<String>)
    ensures
        match nonempty(opt_text(inputs.home)) {
            Some(home) => r matches Some(link) && link@ == nix_link(*inputs, home, xdg_is_symlink),
            None => r is None,
        },
{
    match nonempty_var_os(&inputs.home) {
        None => None,
        Some(home) => if xdg_is_symlink {
            xdg_profile_location(inputs)
        } else {
            Some(join_path(&home, ".nix-profile"))
        },
    }
}

/// The places a CA certificate bundle is looked for, most preferred first.
pub fn ssl_cert_file_candidates(link: &String) -> (r: Vec<String>)
    ensures
        strs(r@) == ssl_cert_candidates(link@),
{
    let mut v: Vec<String> = Vec::new();
    proof {
        assert(strs(v@) =~= Seq::<Seq<char>>::empty());
    }
    push_str(&mut v, owned("/etc/ssl/certs/ca-certificates.crt"));
    push_str(&mut v, owned("/etc/ssl/ca-bundle.pem"));
    push_str(&mut v, owned("/etc/ssl/certs/ca-bundle.crt"));
    push_str(&mut v, owned("/etc/pki/tls/certs/ca-bundle.crt"));
    push_str(&mut v, join_path(link, "etc/ssl/certs/ca-bundle.crt"));
    push_str(&mut v, join_path(link, "etc/ca-bundle.crt"));
    push_str(&mut v, link.clone());
    push_str(&mut v, owned("/nix/var/nix/profiles/default"));
    proof {
        assert(strs(v@) =~= ssl_cert_candidates(link@));
    }
    v
}

fn pick_first_existing(cands: &Vec<String>, is_file: &Vec<bool>) -> (r: Option<String>)
    ensures
        opt_text(r) == first_existing(strs(cands@), is_file@),
{
    let mut i: usize = 0;
    proof {
        assert(strs(cands@).skip(0) =~= strs(cands@));
        assert(is_file@.len() == 0 ==> is_file@ =~= Seq::<bool>::empty());
        assert(is_file@.skip(0) =~= is_file@);
    }
    while i < cands.len()
        invariant
            i <= cands.len(),
            first_existing(strs(cands@), is_file@) == first_existing(
                strs(cands@).skip(i as int),
                flags_from(is_file@, i as int),
            ),
        decreases cands.len() - i,
    {
        let ghost rest_c = strs(cands@).skip(i as int);
        let ghost rest_f = flags_from(is_file@, i as int);
        proof {
            assert(rest_c.drop_first() =~= strs(cands@).skip(i + 1));
            assert(rest_c[0] == cands@[i as int]@);
            if i < is_file@.len() {
                assert(rest_f[0] == is_file@[i as int]);
                if i + 1 < is_file@.len() {
                    assert(rest_f.drop_first() =~= is_file@.skip(i + 1));
                } else {
                    assert(rest_f.drop_first() =~= Seq::<bool>::empty());
                }
            }
        }
        if i < is_file.len() && is_file[i] {
            return Some(cands[i].clone());
        }
        i = i + 1;
    }
    proof {
        assert(strs(cands@).skip(i as int) =~= Seq::<Seq<char>>::empty());
    }
    None
}

/// The marks from position `i` on.
pub open spec fn flags_from(f: Seq<bool>, i: int) -> Seq<bool> {
    if i < f.len() {
        f.skip(i)
    } else {
        Seq::empty()
    }
}

fn search_path(old: &Option<String>, link: &String, sub: &str) -> (r: Vec<String>)
    ensures
        strs(r@) == search_path_list(opt_text(*old), link@, sub@),
{
    let mut v: Vec<String> = Vec::new();
    proof {
        assert(strs(v@) =~= Seq::<Seq<char>>::empty());
    }
    push_str(&mut v, join_path(link, sub));
    let default = owned("/nix/var/nix/profiles/default");
    push_str(&mut v, join_path(&default, sub));
    match env_path(old) {
        Some(dirs) => {
            let mut i: usize = 0;
            let ghost front = strs(v@);
            while i < dirs.len()
                invariant
                    i <= dirs.len(),
                    strs(v@) == front + strs(dirs@).take(i as int),
                decreases dirs.len() - i,
            {
                proof {
                    assert(strs(dirs@).take(i + 1) =~= strs(dirs@).take(i as int).push(dirs@[i as int]@));
                }
                push_str(&mut v, dirs[i].clone());
                i = i + 1;
            }
            proof {
                assert(strs(dirs@).take(dirs.len() as int) =~= strs(dirs@));
            }
        },
        None => {},
    }
    proof {
        assert(strs(v@) =~= search_path_list(opt_text(*old), link@, sub@));
    }
    v
}

fn push_entry(v: &mut Vec<(String, String)>, k: &str, val: String)
    ensures
        entries_text(final(v)@) == entries_text(old(v)@).push((k@, val@)),
{
    let key = owned(k);
    proof {
        assert(entries_text(old(v)@.push((key, val))) =~= entries_text(old(v)@).push((k@, val@)));
    }
    v.push((key, val));
}

/// Computes the variables that enable Nix in a shell.
///
/// `xdg_is_symlink` tells whether the location given by
/// [`xdg_profile_location`] is a symlink; `cert_is_file` tells, for each
/// location given by [`ssl_cert_file_candidates`], whether it is a file.
pub fn calculate_environment(
    inputs: &EnvironmentInputs,
    xdg_is_symlink: bool,
    cert_is_file: &Vec<bool>,
) -> (r: Result<Vec<(String, String)>, Error>)
    ensures
        environment_result_view(r) == environment_outcome(*inputs, xdg_is_symlink, cert_is_file@),
{
    if let Some(sourced) = nonempty_var_os(&inputs.etc_profile_nix_sourced) {
        if sourced == owned("1") {
            return Err(Error::AlreadyRun);
        }
    }
    let home = match nonempty_var_os(&inputs.home) {
        Some(h) => h,
        None => return Err(Error::HomeNotSet),
    };
    let link = match user_profile_link(inputs, xdg_is_symlink) {
        Some(l) => l,
        None => return Err(Error::HomeNotSet),
    };
    let ghost link_text = link@;
    let mut envs: Vec<(String, String)> = Vec::new();
    proof {
        assert(entries_text(envs@) =~= Seq::<(Seq<char>, Seq<char>)>::empty());
    }
    push_entry(&mut envs, "__ETC_PROFILE_NIX_SOURCED", owned("1"));
    let mut profiles = owned("/nix/var/nix/profiles/default");
    profiles.append(" ");
    profiles.append(link.as_str());
    push_entry(&mut envs, "NIX_PROFILES", profiles);

    let mut xdg_dirs: Vec<String> = match env_path(&inputs.xdg_data_dirs) {
        Some(dirs) => dirs,
        None => {
            let mut d: Vec<String> = Vec::new();
            proof {
                assert(strs(d@) =~= Seq::<Seq<char>>::empty());
            }
            push_str(&mut d, owned("/usr/local/share"));
            push_str(&mut d, owned("/usr/share"));
            d
        },
    };
    push_str(&mut xdg_dirs, join_path(&link, "share"));
    push_str(&mut xdg_dirs, owned("/nix/var/nix/profiles/default/share"));
    proof {
        assert(strs(xdg_dirs@) =~= xdg_data_dirs_list(*inputs, link_text));
    }
    match join_paths(&xdg_dirs) {
        Some(joined) => push_entry(&mut envs, "XDG_DATA_DIRS", joined),
        None => return Err(Error::InvalidXdgDataDirs(xdg_dirs)),
    }

    let ghost before_cert = entries_text(envs@);
    if nonempty_var_os(&inputs.nix_ssl_cert_file).is_none() {
        let candidates = ssl_cert_file_candidates(&link);
        match pick_first_existing(&candidates, cert_is_file) {
            Some(cert) => push_entry(&mut envs, "NIX_SSL_CERT_FILE", cert),
            None => {},
        }
    }
    let ghost after_cert = entries_text(envs@);

    let path = search_path(&inputs.path, &link, "bin");
    let path_joined = match join_paths(&path) {
        Some(joined) => joined,
        None => return Err(Error::InvalidPathDirs(path)),
    };
    let manpath = search_path(&inputs.manpath, &link, "share/man");
    let manpath_joined = match join_paths(&manpath) {
        Some(joined) => joined,
        None => return Err(Error::InvalidManPathDirs(manpath)),
    };
    push_entry(&mut envs, "PATH", path_joined);
    push_entry(&mut envs, "MANPATH", manpath_joined);
    proof {
        assert(entries_text(envs@) =~= environment_entries(*inputs, link_text, cert_is_file@));
    }
    Ok(envs)
}

/// The two formats in which the variables are emitted.
#[derive(Debug, Clone, Copy, PartialEq, Eq, Structural)]
pub enum ExportFormat {
    /// `KEY\0VALUE\0` for each variable.
    NullSeparated,
    /// `KEY VALUE\n` for each variable; refused when a key or value could
    /// be misread in that form.
    SpaceNewlineSeparated,
}

/// Emit all the environment variables that should be set to use Nix.
#[derive(Debug)]
pub struct Export {
    pub format: ExportFormat,
}

/// The characters a key may hold in the space/newline format.
pub open spec fn is_key_char(c: char) -> bool {
    ('a' <= c && c <= 'z') || ('A' <= c && c <= 'Z') || ('0' <= c && c <= '9') || c == '_'
}

pub open spec fn is_safe_key(k: Seq<char>) -> bool {
    forall|i: int| 0 <= i < k.len() ==> is_key_char(#[trigger] k[i])
}

/// The emitted text for some variables, or `None` when the format refuses them.
pub open spec fn rendered(entries: Seq<(Seq<char>, Seq<char>)>, format: ExportFormat) -> Option<Seq<char>>
    decreases entries.len(),
{
    if entries.len() == 0 {
        Some(Seq::empty())
    } else {
        let (k, v) = entries.last();
        match rendered(entries.drop_last(), format) {
            None => None,
            Some(prefix) => match format {
                ExportFormat::NullSeparated => Some(prefix + k + seq!['\0'] + v + seq!['\0']),
                ExportFormat::SpaceNewlineSeparated => if is_safe_key(k) && !has_char(v, '\n') {
                    Some(prefix + k + seq![' '] + v + seq!['\n'])
                } else {
                    None
                },
            },
        }
    }
}

fn is_safe_key_exec(k: &String) -> (r: bool)
    ensures
        r == is_safe_key(k@),
{
    let n = k.unicode_len();
    let mut i: usize = 0;
    while i < n
        invariant
            n == k@.len(),
            i <= n,
            forall|j: int| 0 <= j < i ==> is_key_char(#[trigger] k@[j]),
        decreases n - i,
    {
        let c = k.get_char(i);
        if !(('a' <= c && c <= 'z') || ('A' <= c && c <= 'Z') || ('0' <= c && c <= '9') || c == '_') {
            return false;
        }
        i = i + 1;
    }
    true
}

impl Export {
    /// The text to print for the variables, or `None` when the chosen format
    /// refuses them (a key with a character outside `a-zA-Z0-9_`, or a value
    /// with a newline, in the space/newline format).
    pub fn render(&self, env: &Vec<(String, String)>) -> (r: Option<String>)
        ensures
            opt_text(r) == rendered(entries_text(env@), self.format),
    {
        let mut out = String::new();
        let mut i: usize = 0;
        while i < env.len()
            invariant
                i <= env.len(),
                rendered(entries_text(env@).take(i as int), self.format) == Some(out@),
            decreases env.len() - i,
        {
            proof {
                assert(entries_text(env@).take(i + 1).drop_last() =~= entries_text(env@).take(i as int));
                assert(entries_text(env@).take(i + 1).last() == (env@[i as int].0@, env@[i as int].1@));
            }
            let (k, v) = &env[i];
            match self.format {
                ExportFormat::NullSeparated => {
                    let nul = "\0";
                    proof {
                        reveal_strlit("\0");
                    }
                    out.append(k.as_str());
                    out.append(nul);
                    out.append(v.as_str());
                    out.append(nul);
                },
                ExportFormat::SpaceNewlineSeparated => {
                    if !is_safe_key_exec(k) || contains_char(v, '\n') {
                        proof {
                            assert(entries_text(env@).take(i + 1).len() == i + 1);
                            lemma_rendered_none_extends(entries_text(env@), (i + 1) as int, self.format);
                        }
                        return None;
                    }
                    let space = " ";
                    let newline = "\n";
                    proof {
                        reveal_strlit(" ");
                        reveal_strlit("\n");
                    }
                    out.append(k.as_str());
                    out.append(space);
                    out.append(v.as_str());
                    out.append(newline);
                },
            }
            i = i + 1;
        }
        proof {
            assert(entries_text(env@).take(env.len() as int) =~= entries_text(env@));
        }
        Some(out)
    }
}

/// How `export` ends.
#[derive(Debug)]
pub enum ExportOutcome {
    /// Print the text and succeed.
    Print(String),
    /// The variables were already set: print nothing and succeed.
    AlreadyRun,
    /// The chosen format refuses the variables: print nothing and fail.
    Refused,
    /// Computing the variables failed with this error.
    Failed(Error),
}

impl Export {
    /// How `export` ends, given what computing the variables gave.
    pub fn outcome(&self, env: Result<Vec<(String, String)>, Error>) -> (r: ExportOutcome)
        ensures
            match env {
                Err(Error::AlreadyRun) => r is AlreadyRun,
                Err(e) => r matches ExportOutcome::Failed(f) && f@ == e@,
                Ok(v) => match rendered(entries_text(v@), self.format) {
                    Some(t) => r matches ExportOutcome::Print(p) && p@ == t,
                    None => r is Refused,
                },
            },
    {
        match env {
            Err(Error::AlreadyRun) => ExportOutcome::AlreadyRun,
            Err(e) => ExportOutcome::Failed(e),
            Ok(v) => match self.render(&v) {
                Some(t) => ExportOutcome::Print(t),
                None => ExportOutcome::Refused,
            },
        }
    }
}

proof fn lemma_rendered_none_extends(entries: Seq<(Seq<char>, Seq<char>)>, n: int, format: ExportFormat)
    requires
        0 <= n <= entries.len(),
        rendered(entries.take(n), format) is None,
    ensures
        rendered(entries, format) is None,
    decreases entries.len() - n,
{
    if n < entries.len() {
        assert(entries.take(n + 1).drop_last() =~= entries.take(n));
        lemma_rendered_none_extends(entries, n + 1, format);
    } else {
        assert(entries.take(n) =~= entries);
    }
}

/// When the environment is computed, the exported `PATH` names the user's
/// profile's `bin`, then the default profile's `bin`, then each directory
/// the old `PATH` held, in order: splitting it on `:` gives exactly these.
pub proof fn lemma_exported_path(inputs: EnvironmentInputs, xdg_is_symlink: bool, cert_is_file: Seq<bool>)
    requires
        environment_outcome(inputs, xdg_is_symlink, cert_is_file) is Ok,
    ensures
        ({
            let entries = environment_outcome(inputs, xdg_is_symlink, cert_is_file)->Ok_0;
            let link = nix_link(inputs, nonempty(opt_text(inputs.home))->0, xdg_is_symlink);
            let path = entries[entries.len() - 2];
            &&& entries.len() >= 2
            &&& path.0 == "PATH"@
            &&& split_on(path.1, ':') == seq![path_join(link, "bin"@), path_join(default_profile(), "bin"@)] + match env_path_list(
                opt_text(inputs.path),
            ) {
                Some(dirs) => dirs,
                None => Seq::empty(),
            }
        }),
{
    let home = nonempty(opt_text(inputs.home))->0;
    let link = nix_link(inputs, home, xdg_is_symlink);
    let dirs = search_path_list(opt_text(inputs.path), link, "bin"@);
    let entries = environment_entries(inputs, link, cert_is_file);
    assert(!any_has_colon(dirs));
    assert forall|k: int| 0 <= k < dirs.len() implies !has_char(#[trigger] dirs[k], ':') by {}
    lemma_join_then_split(dirs, ':');
    reveal_strlit(":");
    assert(":"@ =~= seq![':']);
    let outcome = environment_outcome(inputs, xdg_is_symlink, cert_is_file);
    assert(outcome == Ok::<Seq<(Seq<char>, Seq<char>)>, ErrorView>(entries));
    let n = entries.len();
    assert(entries[n - 2] == ("PATH"@, join_with(dirs, ":"@)));
    let front = seq![path_join(link, "bin"@), path_join(default_profile(), "bin"@)];
    match env_path_list(opt_text(inputs.path)) {
        Some(old) => {},
        None => {
            assert(front + Seq::<Seq<char>>::empty() =~= front);
        },
    }
}

/// When the environment is computed, the exported `XDG_DATA_DIRS` names the
/// directories the old `XDG_DATA_DIRS` held (or `/usr/local/share` then
/// `/usr/share` when it is unset), then the user's profile's `share`, then
/// the default profile's `share`: splitting it on `:` gives exactly these.
pub proof fn lemma_exported_xdg_data_dirs(inputs: EnvironmentInputs, xdg_is_symlink: bool, cert_is_file: Seq<bool>)
    requires
        environment_outcome(inputs, xdg_is_symlink, cert_is_file) is Ok,
    ensures
        ({
            let entries = environment_outcome(inputs, xdg_is_symlink, cert_is_file)->Ok_0;
            let link = nix_link(inputs, nonempty(opt_text(inputs.home))->0, xdg_is_symlink);
            let xdg = entries[2];
            &&& entries.len() >= 3
            &&& xdg.0 == "XDG_DATA_DIRS"@
            &&& split_on(xdg.1, ':') == match opt_text(inputs.xdg_data_dirs) {
                None => seq!["/usr/local/share"@, "/usr/share"@],
                Some(old) => if old.len() == 0 {
                    Seq::empty()
                } else {
                    split_on(old, ':')
                },
            } + seq![path_join(link, "share"@), "/nix/var/nix/profiles/default/share"@]
        }),
{
    let home = nonempty(opt_text(inputs.home))->0;
    let link = nix_link(inputs, home, xdg_is_symlink);
    let dirs = xdg_data_dirs_list(inputs, link);
    let entries = environment_entries(inputs, link, cert_is_file);
    assert(!any_has_colon(dirs));
    assert forall|k: int| 0 <= k < dirs.len() implies !has_char(#[trigger] dirs[k], ':') by {}
    lemma_join_then_split(dirs, ':');
    reveal_strlit(":");
    assert(":"@ =~= seq![':']);
    let outcome = environment_outcome(inputs, xdg_is_symlink, cert_is_file);
    assert(outcome == Ok::<Seq<(Seq<char>, Seq<char>)>, ErrorView>(entries));
    assert(entries[2] == ("XDG_DATA_DIRS"@, join_with(dirs, ":"@)));
}

} // verus!
