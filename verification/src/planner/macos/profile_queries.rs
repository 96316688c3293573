//! Finding the configuration profiles that keep the Nix Store volume from
//! being mounted, and describing them to the user.

use vstd::prelude::*;
use vstd::string::*;
use crate::planner::macos::profiles::{
    describes, HardDiskInternalOpts, Policies, Profile, ProfileItem, ProfileMetadata, Target,
};
use crate::text::{decimal, decimal_text, join_on_char, join_with, owned, strs};

verus! {

/// A profile whose `MountControls` policy interferes with internal disks.
#[derive(Debug)]
pub struct TargetProfileHardDiskInternalOpts {
    pub target: Target,
    pub profile: ProfileMetadata,
    pub opts: Vec<HardDiskInternalOpts>,
}

/// Whether an option keeps a volume from being mounted read-write.
pub open spec fn is_blocking(o: HardDiskInternalOpts) -> bool {
    o == HardDiskInternalOpts::ReadOnly || o == HardDiskInternalOpts::Deny || o == HardDiskInternalOpts::Eject
}

pub open spec fn any_blocking(opts: Seq<HardDiskInternalOpts>) -> bool {
    exists|i: int| 0 <= i < opts.len() && is_blocking(opts[i])
}

/// The internal-disk options of a payload, when it is a `SystemUIServer`
/// payload with mount controls.
pub open spec fn internal_disk_opts(item: ProfileItem) -> Option<Seq<HardDiskInternalOpts>> {
    match item {
        ProfileItem::SystemUIServer(s) => match s.mount_controls {
            Some(mc) => Some(mc.harddisk_internal@),
            None => None,
        },
        ProfileItem::Unknown(_) => None,
    }
}

/// A blocking entry: the target, the profile and the options of the payload.
pub type Blocking = (Target, Profile, Seq<HardDiskInternalOpts>);

pub open spec fn item_blocks(t: Target, p: Profile, items: Seq<ProfileItem>) -> Seq<Blocking>
    decreases items.len(),
{
    if items.len() == 0 {
        Seq::empty()
    } else {
        let rest = item_blocks(t, p, items.drop_last());
        match internal_disk_opts(items.last()) {
            Some(opts) => if any_blocking(opts) {
                rest.push((t, p, opts))
            } else {
                rest
            },
            None => rest,
        }
    }
}

pub open spec fn profile_blocks(t: Target, ps: Seq<Profile>) -> Seq<Blocking>
    decreases ps.len(),
{
    if ps.len() == 0 {
        Seq::empty()
    } else {
        profile_blocks(t, ps.drop_last()) + item_blocks(t, ps.last(), ps.last().profile_items@)
    }
}

/// Every payload that blocks internal mounting, target by target, profile
/// by profile, payload by payload.
pub open spec fn policy_blocks(ps: Seq<(Target, Vec<Profile>)>) -> Seq<Blocking>
    decreases ps.len(),
{
    if ps.len() == 0 {
        Seq::empty()
    } else {
        policy_blocks(ps.drop_last()) + profile_blocks(ps.last().0, ps.last().1@)
    }
}

/// Whether a found entry reports the blocking payload.
pub open spec fn reports(b: TargetProfileHardDiskInternalOpts, e: Blocking) -> bool {
    &&& b.target == e.0
    &&& describes(b.profile, e.1)
    &&& b.opts@ == e.2
}

pub open spec fn reports_all(r: Seq<TargetProfileHardDiskInternalOpts>, es: Seq<Blocking>) -> bool {
    r.len() == es.len() && forall|i: int| 0 <= i < r.len() ==> reports(#[trigger] r[i], es[i])
}

fn copy_opts(v: &Vec<HardDiskInternalOpts>) -> (r: Vec<HardDiskInternalOpts>)
    ensures
        r@ == v@,
{
    let mut out: Vec<HardDiskInternalOpts> = Vec::new();
    let mut i: usize = 0;
    while i < v.len()
        invariant
            i <= v.len(),
            out@ == v@.take(i as int),
        decreases v.len() - i,
    {
        proof {
            assert(v@.take(i + 1) =~= v@.take(i as int).push(v@[i as int]));
        }
        out.push(v[i]);
        i = i + 1;
    }
    proof {
        assert(v@.take(v.len() as int) =~= v@);
    }
    out
}

fn has_blocking(opts: &Vec<HardDiskInternalOpts>) -> (r: bool)
    ensures
        r == any_blocking(opts@),
{
    let mut i: usize = 0;
    while i < opts.len()
        invariant
            i <= opts.len(),
            forall|j: int| 0 <= j < i ==> !is_blocking(opts@[j]),
        decreases opts.len() - i,
    {
        let o = opts[i];
        if o == HardDiskInternalOpts::ReadOnly || o == HardDiskInternalOpts::Deny || o == HardDiskInternalOpts::Eject {
            return true;
        }
        i = i + 1;
    }
    false
}

proof fn lemma_reports_push(
    r: Seq<TargetProfileHardDiskInternalOpts>,
    es: Seq<Blocking>,
    b: TargetProfileHardDiskInternalOpts,
    e: Blocking,
)
    requires
        reports_all(r, es),
        reports(b, e),
    ensures
        reports_all(r.push(b), es.push(e)),
{
    assert forall|i: int| 0 <= i < r.push(b).len() implies reports(#[trigger] r.push(b)[i], es.push(e)[i]) by {
        if i < r.len() {
            assert(r.push(b)[i] == r[i]);
            assert(es.push(e)[i] == es[i]);
        }
    }
}

/// The payloads whose `MountControls` policy makes internal disks read-only,
/// denies mounting them or ejects them.
pub fn blocks_internal_mounting(policies: &Policies) -> (r: Vec<TargetProfileHardDiskInternalOpts>)
    ensures
        reports_all(r@, policy_blocks(policies@)),
{
    let mut out: Vec<TargetProfileHardDiskInternalOpts> = Vec::new();
    let mut i: usize = 0;
    proof {
        assert(policies@.take(0) =~= Seq::<(Target, Vec<Profile>)>::empty());
    }
    while i < policies.len()
        invariant
            i <= policies.len(),
            reports_all(out@, policy_blocks(policies@.take(i as int))),
        decreases policies.len() - i,
    {
        let target = &policies[i].0;
        let profiles = &policies[i].1;
        let ghost base = policy_blocks(policies@.take(i as int));
        let mut j: usize = 0;
        proof {
            assert(profiles@.take(0) =~= Seq::<Profile>::empty());
            assert(base + profile_blocks(*target, profiles@.take(0)) =~= base);
        }
        while j < profiles.len()
            invariant
                i < policies.len(),
                target == &policies@[i as int].0,
                profiles == &policies@[i as int].1,
                j <= profiles.len(),
                reports_all(out@, base + profile_blocks(*target, profiles@.take(j as int))),
            decreases profiles.len() - j,
        {
            let profile = &profiles[j];
            let items = &profile.profile_items;
            let ghost base2 = base + profile_blocks(*target, profiles@.take(j as int));
            let mut k: usize = 0;
            proof {
                assert(items@.take(0) =~= Seq::<ProfileItem>::empty());
                assert(base2 + item_blocks(*target, *profile, items@.take(0)) =~= base2);
            }
            while k < items.len()
                invariant
                    j < profiles.len(),
                    profile == &profiles@[j as int],
                    items == &profile.profile_items,
                    k <= items.len(),
                    reports_all(out@, base2 + item_blocks(*target, *profile, items@.take(k as int))),
                decreases items.len() - k,
            {
                proof {
                    assert(items@.take(k + 1).drop_last() =~= items@.take(k as int));
                    assert(items@.take(k + 1).last() == items@[k as int]);
                }
                let ghost prev = base2 + item_blocks(*target, *profile, items@.take(k as int));
                match &items[k] {
                    ProfileItem::SystemUIServer(s) => match &s.mount_controls {
                        Some(mc) => {
                            if has_blocking(&mc.harddisk_internal) {
                                let b = TargetProfileHardDiskInternalOpts {
                                    target: target.clone(),
                                    profile: profile.metadata(),
                                    opts: copy_opts(&mc.harddisk_internal),
                                };
                                proof {
                                    lemma_reports_push(out@, prev, b, (*target, *profile, mc.harddisk_internal@));
                                    assert(prev.push((*target, *profile, mc.harddisk_internal@)) =~= base2
                                        + item_blocks(*target, *profile, items@.take(k + 1)));
                                }
                                out.push(b);
                            }
                        },
                        None => {},
                    },
                    ProfileItem::Unknown(_) => {},
                }
                k = k + 1;
            }
            proof {
                assert(items@.take(items.len() as int) =~= items@);
                assert(profiles@.take(j + 1).drop_last() =~= profiles@.take(j as int));
                assert(profiles@.take(j + 1).last() == *profile);
                assert(base2 + item_blocks(*target, *profile, items@) =~= base + profile_blocks(
                    *target,
                    profiles@.take(j + 1),
                ));
            }
            j = j + 1;
        }
        proof {
            assert(profiles@.take(profiles.len() as int) =~= profiles@);
            assert(policies@.take(i + 1).drop_last() =~= policies@.take(i as int));
            assert(policies@.take(i + 1).last() == policies@[i as int]);
            assert(base + profile_blocks(*target, profiles@) =~= policy_blocks(policies@.take(i + 1)));
        }
        i = i + 1;
    }
    proof {
        assert(policies@.take(policies.len() as int) =~= policies@);
    }
    out
}

/// Who owns a profile, as the description opens.
pub open spec fn owner_text(t: Target) -> Seq<char> {
    match t {
        Target::Computer => "A computer-wide profile"@,
        Target::User(u) => "A profile owned by "@ + u@,
    }
}

/// The line for a field that is present.
pub open spec fn field_line(key: Seq<char>, value: Option<Seq<char>>) -> Seq<Seq<char>> {
    match value {
        Some(v) => seq![" * "@ + key + ": "@ + v],
        None => Seq::empty(),
    }
}

/// One line per present field, in a fixed order.
pub open spec fn metadata_lines(m: ProfileMetadata) -> Seq<Seq<char>> {
    field_line("Name"@, crate::text::opt_text(m.profile_display_name)) + field_line(
        "Version"@,
        match m.profile_version {
            Some(v) => Some(decimal_text(v as nat)),
            None => None,
        },
    ) + field_line("Description"@, crate::text::opt_text(m.profile_description)) + field_line(
        "ID"@,
        crate::text::opt_text(m.profile_identifier),
    ) + field_line("UUID"@, crate::text::opt_text(m.profile_uuid)) + field_line(
        "Installation Date"@,
        crate::text::opt_text(m.profile_install_date),
    )
}

/// The description shown for a blocking profile.
pub open spec fn display_text(b: TargetProfileHardDiskInternalOpts) -> Seq<char> {
    owner_text(b.target) + ":\n"@ + join_with(metadata_lines(b.profile), "\n"@) + "\n"@
}

fn push_field(lines: &mut Vec<String>, key: &str, value: &Option<String>)
    ensures
        strs(final(lines)@) == strs(old(lines)@) + field_line(key@, crate::text::opt_text(*value)),
{
    match value {
        Some(v) => {
            let mut line = owned(" * ");
            line.append(key);
            line.append(": ");
            line.append(v.as_str());
            proof {
                assert(strs(old(lines)@.push(line)) =~= strs(old(lines)@) + field_line(
                    key@,
                    crate::text::opt_text(*value),
                ));
            }
            lines.push(line);
        },
        None => {
            proof {
                assert(strs(lines@) =~= strs(lines@) + field_line(key@, crate::text::opt_text(*value)));
            }
        },
    }
}

impl TargetProfileHardDiskInternalOpts {
    /// Describes the profile: who owns it, then one line per known field.
    pub fn display(&self) -> (r: String)
        ensures
            r@ == display_text(*self),
    {
        let mut owner = match &self.target {
            Target::Computer => owned("A computer-wide profile"),
            Target::User(u) => {
                let mut s = owned("A profile owned by ");
                s.append(u.as_str());
                s
            },
        };
        let mut lines: Vec<String> = Vec::new();
        proof {
            assert(strs(lines@) =~= Seq::<Seq<char>>::empty());
        }
        let version = match self.profile.profile_version {
            Some(v) => Some(decimal(v as u64)),
            None => None,
        };
        push_field(&mut lines, "Name", &self.profile.profile_display_name);
        push_field(&mut lines, "Version", &version);
        push_field(&mut lines, "Description", &self.profile.profile_description);
        push_field(&mut lines, "ID", &self.profile.profile_identifier);
        push_field(&mut lines, "UUID", &self.profile.profile_uuid);
        push_field(&mut lines, "Installation Date", &self.profile.profile_install_date);
        proof {
            assert(strs(lines@) =~= metadata_lines(self.profile));
        }
        let desc = join_on_char(&lines, "\n");
        owner.append(":\n");
        owner.append(desc.as_str());
        owner.append("\n");
        owner
    }
}

} // verus!
