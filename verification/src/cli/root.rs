//! Running as `root`: when the installer escalates through `sudo`, and the
//! command line it then runs.

use vstd::prelude::*;
use crate::text::{join_on_char, join_with, owned, starts_with_text, strs, text_starts_with};

verus! {

/// Whether an environment variable is handed on to the escalated process:
/// the logging and backtrace switches, the CI path file, and the
/// installer's own `HARMONIC*` variables.
pub open spec fn preserved_env(key: Seq<char>) -> bool {
    key == "RUST_LOG"@ || key == "RUST_BACKTRACE"@ || key == "GITHUB_PATH"@ || text_starts_with(key, "HARMONIC"@)
}

/// The names of the variables to hand on, in the order given.
pub fn preserved_env_keys(keys: &Vec<String>) -> (r: Vec<String>)
    ensures
        strs(r@) == strs(keys@).filter(|k: Seq<char>| preserved_env(k)),
{
    let mut out: Vec<String> = Vec::new();
    let mut i: usize = 0;
    while i < keys.len()
        invariant
            i <= keys.len(),
            strs(out@) == strs(keys@.take(i as int)).filter(|k: Seq<char>| preserved_env(k)),
        decreases keys.len() - i,
    {
        let k = &keys[i];
        let keep = *k == owned("RUST_LOG") || *k == owned("RUST_BACKTRACE") || *k == owned("GITHUB_PATH")
            || starts_with_text(k, "HARMONIC");
        proof {
            let pre = strs(keys@.take(i as int));
            assert(strs(keys@.take(i + 1)) =~= pre.push(k@));
            reveal(Seq::filter);
            assert(pre.push(k@).drop_last() =~= pre);
        }
        if keep {
            let kc = k.clone();
            proof {
                assert(strs(out@.push(kc)) =~= strs(out@).push(k@));
            }
            out.push(kc);
        }
        i = i + 1;
    }
    proof {
        assert(keys@.take(keys@.len() as int) =~= keys@);
    }
    out
}

/// The command line that reruns the installer through `sudo`: `sudo`, then
/// `--preserve-env=` with the kept variable names joined by commas when
/// there are any, then the original arguments.
pub open spec fn sudo_command(env_keys: Seq<Seq<char>>, args: Seq<Seq<char>>) -> Seq<Seq<char>> {
    let kept = env_keys.filter(|k: Seq<char>| preserved_env(k));
    let head = if kept.len() == 0 {
        seq!["sudo"@]
    } else {
        seq!["sudo"@, "--preserve-env="@ + join_with(kept, ","@)]
    };
    head + args
}

/// The command line to run when the effective user is not `root` (user id
/// 0), and `None` when no escalation is needed.
pub fn escalation_command(euid: u32, env_keys: &Vec<String>, args: &Vec<String>) -> (r: Option<Vec<String>>)
    ensures
        euid == 0 ==> r is None,
        euid != 0 ==> (r matches Some(v) && strs(v@) == sudo_command(strs(env_keys@), strs(args@))),
{
    if euid == 0 {
        return None;
    }
    let kept = preserved_env_keys(env_keys);
    let mut out: Vec<String> = Vec::new();
    out.push(owned("sudo"));
    if kept.len() > 0 {
        let mut flag = owned("--preserve-env=");
        let joined = join_on_char(&kept, ",");
        flag.append(joined.as_str());
        out.push(flag);
    }
    let ghost head = strs(out@);
    let mut i: usize = 0;
    while i < args.len()
        invariant
            i <= args.len(),
            strs(out@) == head + strs(args@.take(i as int)),
        decreases args.len() - i,
    {
        let a = args[i].clone();
        proof {
            assert(strs(args@.take(i + 1)) =~= strs(args@.take(i as int)).push(args@[i as int]@));
            assert(strs(out@.push(a)) =~= strs(out@).push(args@[i as int]@));
        }
        out.push(a);
        i = i + 1;
    }
    proof {
        assert(args@.take(args@.len() as int) =~= args@);
        let kept_spec = strs(env_keys@).filter(|k: Seq<char>| preserved_env(k));
        if kept.len() == 0 {
            assert(head =~= seq!["sudo"@]);
        } else {
            assert(head =~= seq!["sudo"@, "--preserve-env="@ + join_with(kept_spec, ","@)]);
        }
    }
    Some(out)
}

} // verus!
