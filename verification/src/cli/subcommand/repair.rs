//! Repairing an install: the shell hooks, or the build users that the
//! macOS 15 Sequoia update takes over, which are moved to a new id range.

use vstd::prelude::*;
use crate::json::{
    arr_view, get_member, has_member, jv, lemma_jv_array, lemma_jv_object, lookup, member, obj_view, set_member, with_member,
    Json, JsonView,
};
use crate::receipt::{completed_entry, completed_view};
use crate::text::{decimal, decimal_text, owned, parse_u32_text, u32_text_value};

verus! {

/// The first user id to which build users are moved while they are migrated.
pub const TEMP_USER_ID_BASE: u32 = 31000;

/// What to repair.
#[derive(Debug)]
pub enum RepairKind {
    /// Update the shell profiles to make Nix usable after system upgrades.
    Hooks,
    /// Recover from the macOS 15 Sequoia update taking over the build users.
    Sequoia {
        /// The build user prefix (user numbers are appended).
        nix_build_user_prefix: String,
        /// The number of build users to ensure exist.
        nix_build_user_count: u32,
        /// The build group name.
        nix_build_group_name: String,
        /// Move the build users even when they all exist.
        move_existing_users: bool,
    },
}

impl Clone for RepairKind {
    fn clone(&self) -> (r: Self)
        ensures
            r == *self,
    {
        match self {
            RepairKind::Hooks => RepairKind::Hooks,
            RepairKind::Sequoia { nix_build_user_prefix, nix_build_user_count, nix_build_group_name, move_existing_users } => {
                RepairKind::Sequoia {
                    nix_build_user_prefix: nix_build_user_prefix.clone(),
                    nix_build_user_count: *nix_build_user_count,
                    nix_build_group_name: nix_build_group_name.clone(),
                    move_existing_users: *move_existing_users,
                }
            },
        }
    }
}

/// The arguments of `repair`.
#[derive(Debug)]
pub struct Repair {
    pub no_confirm: bool,
    pub command: Option<RepairKind>,
}

impl Repair {
    /// The repair to run: the one asked for, or the shell hooks.
    pub fn command(&self) -> (r: RepairKind)
        ensures
            r == match self.command {
                Some(k) => k,
                None => RepairKind::Hooks,
            },
    {
        match &self.command {
            Some(k) => k.clone(),
            None => RepairKind::Hooks,
        }
    }
}

/// The summary of a repair and whether to ask before running it: the hooks
/// are repaired without asking; the build users are moved after asking
/// unless confirmation is off, and the receipt is updated only when the
/// action that created the users was found in it.
pub open spec fn repair_summary_text(kind: RepairKind, user_base: u32, receipt_found: bool) -> Seq<char> {
    match kind {
        RepairKind::Hooks => "Will ensure the Nix shell profiles are still being sourced"@,
        RepairKind::Sequoia { nix_build_user_prefix, .. } => "Will move the "@ + nix_build_user_prefix@
            + " users to the Sequoia-compatible "@ + decimal_text(user_base as nat) + "+ UID range and "@
            + (if receipt_found { "WILL"@ } else { "WILL NOT"@ }) + " update the receipt"@,
    }
}

pub fn repair_summary(kind: &RepairKind, no_confirm: bool, user_base: u32, receipt_found: bool) -> (r: (bool, String))
    ensures
        r.0 == (kind is Sequoia && !no_confirm),
        r.1@ == repair_summary_text(*kind, user_base, receipt_found),
{
    match kind {
        RepairKind::Hooks => (false, owned("Will ensure the Nix shell profiles are still being sourced")),
        RepairKind::Sequoia { nix_build_user_prefix, .. } => {
            let mut m = owned("Will move the ");
            m.append(nix_build_user_prefix.as_str());
            m.append(" users to the Sequoia-compatible ");
            let base = decimal(user_base as u64);
            m.append(base.as_str());
            m.append("+ UID range and ");
            if receipt_found {
                m.append("WILL");
            } else {
                m.append("WILL NOT");
            }
            m.append(" update the receipt");
            (!no_confirm, m)
        },
    }
}

/// Why the Sequoia repair refuses to run.
#[derive(Debug, Clone, Copy, PartialEq, Eq, Structural)]
pub enum SequoiaRefusal {
    /// It only applies to macOS.
    NotMacos,
    /// It asks questions, so it wants a terminal unless confirmation is off.
    NotInteractive,
}

impl SequoiaRefusal {
    pub fn message(&self) -> (r: String)
        ensures
            *self == SequoiaRefusal::NotMacos ==> r@ == "The `sequoia` repair command is only available on macOS"@,
            *self == SequoiaRefusal::NotInteractive ==> r@
                == "The `sequoia` repair command should be run in an interactive terminal. If you accept the risks of an unattended repair, pass `--no-confirm`."@,
    {
        match self {
            SequoiaRefusal::NotMacos => owned("The `sequoia` repair command is only available on macOS"),
            SequoiaRefusal::NotInteractive => owned(
                "The `sequoia` repair command should be run in an interactive terminal. If you accept the risks of an unattended repair, pass `--no-confirm`.",
            ),
        }
    }
}

/// The Sequoia repair runs on macOS, in a terminal or with confirmation off.
pub fn sequoia_preflight(is_macos: bool, stdin_is_terminal: bool, no_confirm: bool) -> (r: Result<(), SequoiaRefusal>)
    ensures
        !is_macos ==> r == Err::<(), SequoiaRefusal>(SequoiaRefusal::NotMacos),
        is_macos && !stdin_is_terminal && !no_confirm ==> r == Err::<(), SequoiaRefusal>(SequoiaRefusal::NotInteractive),
        is_macos && (stdin_is_terminal || no_confirm) ==> r is Ok,
{
    if !is_macos {
        Err(SequoiaRefusal::NotMacos)
    } else if !stdin_is_terminal && !no_confirm {
        Err(SequoiaRefusal::NotInteractive)
    } else {
        Ok(())
    }
}

/// A build user to create in the new range.
#[derive(Debug)]
pub struct BuildUser {
    pub name: String,
    pub uid: u32,
    pub groupname: String,
    pub gid: u32,
    pub comment: String,
}

/// What the Sequoia repair does to the build users.
#[derive(Debug)]
pub enum SequoiaPlan {
    /// Every user is in place and moving was not asked for.
    NothingToDo,
    /// Move the users that exist to temporary ids, then create every user
    /// in the new range.
    Migrate { temporary_ids: Vec<(String, u32)>, create: Vec<BuildUser> },
}

/// The members of the build group, numbered from 1, that are moved to
/// temporary ids: those that exist, each to the temporary base plus its
/// number.
pub open spec fn temporary_ids_of(members: Seq<Seq<char>>, exists: Seq<bool>) -> Seq<(Seq<char>, int)>
    decreases members.len(),
{
    if members.len() == 0 {
        Seq::empty()
    } else {
        let rest = temporary_ids_of(members.drop_last(), exists.drop_last());
        let n = members.len() as int;
        if exists.last() {
            rest.push((members.last(), TEMP_USER_ID_BASE + n))
        } else {
            rest
        }
    }
}

/// The comment of build user number `n`.
pub open spec fn build_user_comment(n: nat) -> Seq<char> {
    "Nix build user "@ + decimal_text(n)
}

pub open spec fn temporary_view(v: Seq<(String, u32)>) -> Seq<(Seq<char>, int)> {
    v.map_values(|e: (String, u32)| (e.0@, e.1 as int))
}

/// Plans the Sequoia repair from the members of the build group (in the
/// group's order) and whether each can still be read: nothing when all
/// exist and moving was not asked for; otherwise the existing users move to
/// temporary ids, and member number `n` is created with id `user_base + n`,
/// in the group, with the group's id from the receipt if known, else the
/// id the group reports.
pub fn plan_sequoia(
    members: &Vec<String>,
    exists: &Vec<bool>,
    move_existing_users: bool,
    user_base: u32,
    group_name: &String,
    receipt_gid: Option<u32>,
    group_gid: u32,
) -> (r: SequoiaPlan)
    requires
        exists.len() == members.len(),
        TEMP_USER_ID_BASE + members.len() <= u32::MAX,
        user_base + members.len() <= u32::MAX,
        members.len() < usize::MAX,
    ensures
        (forall|i: int| 0 <= i < exists.len() ==> exists[i]) && !move_existing_users ==> r is NothingToDo,
        !((forall|i: int| 0 <= i < exists.len() ==> exists[i]) && !move_existing_users) ==> (r matches SequoiaPlan::Migrate {
            temporary_ids,
            create,
        } && {
            &&& temporary_view(temporary_ids@) == temporary_ids_of(
                members@.map_values(|m: String| m@),
                exists@,
            )
            &&& create.len() == members.len()
            &&& forall|i: int| #![trigger create[i]] 0 <= i < create.len() ==> {
                &&& create[i].name@ == members[i]@
                &&& create[i].uid == user_base + i + 1
                &&& create[i].groupname@ == group_name@
                &&& create[i].gid == match receipt_gid {
                    Some(g) => g,
                    None => group_gid,
                }
                &&& create[i].comment@ == build_user_comment((i + 1) as nat)
            }
        }),
{
    let mut all_exist = true;
    let mut k: usize = 0;
    while k < exists.len()
        invariant
            k <= exists.len(),
            all_exist == (forall|i: int| 0 <= i < k ==> exists[i]),
        decreases exists.len() - k,
    {
        if !exists[k] {
            all_exist = false;
        }
        k = k + 1;
    }
    if all_exist && !move_existing_users {
        return SequoiaPlan::NothingToDo;
    }
    let gid = match receipt_gid {
        Some(g) => g,
        None => group_gid,
    };
    let ghost names = members@.map_values(|m: String| m@);
    let mut temporary_ids: Vec<(String, u32)> = Vec::new();
    let mut create: Vec<BuildUser> = Vec::new();
    let mut i: usize = 0;
    while i < members.len()
        invariant
            i <= members.len(),
            exists.len() == members.len(),
            TEMP_USER_ID_BASE + members.len() <= u32::MAX,
            user_base + members.len() <= u32::MAX,
            members.len() < usize::MAX,
            names == members@.map_values(|m: String| m@),
            gid == match receipt_gid {
                Some(g) => g,
                None => group_gid,
            },
            temporary_view(temporary_ids@) == temporary_ids_of(names.take(i as int), exists@.take(i as int)),
            create.len() == i,
            forall|j: int| #![trigger create[j]] 0 <= j < i ==> {
                &&& create[j].name@ == members[j]@
                &&& create[j].uid == user_base + j + 1
                &&& create[j].groupname@ == group_name@
                &&& create[j].gid == gid
                &&& create[j].comment@ == build_user_comment((j + 1) as nat)
            },
        decreases members.len() - i,
    {
        let n: u32 = (i + 1) as u32;
        proof {
            assert(names.take(i + 1).drop_last() =~= names.take(i as int));
            assert(exists@.take(i + 1).drop_last() =~= exists@.take(i as int));
            assert(names.take(i + 1).last() == members@[i as int]@);
        }
        if exists[i] {
            let entry = (members[i].clone(), TEMP_USER_ID_BASE + n);
            proof {
                assert(temporary_view(temporary_ids@.push(entry)) =~= temporary_view(temporary_ids@).push(
                    (members@[i as int]@, TEMP_USER_ID_BASE + (i + 1)),
                ));
            }
            temporary_ids.push(entry);
        }
        let mut comment = owned("Nix build user ");
        let num = decimal(n as u64);
        comment.append(num.as_str());
        create.push(BuildUser {
            name: members[i].clone(),
            uid: user_base + n,
            groupname: group_name.clone(),
            gid,
            comment,
        });
        i = i + 1;
    }
    proof {
        assert(names.take(members@.len() as int) =~= names);
        assert(exists@.take(exists@.len() as int) =~= exists@);
    }
    SequoiaPlan::Migrate { temporary_ids, create }
}

/// The group id that `dscl` reports: the first entry of its list, read as a
/// `u32`; `None` when the list is empty or the entry is not a number.
pub fn gid_from_entries(entries: &Vec<String>) -> (r: Option<u32>)
    ensures
        entries.len() == 0 ==> r is None,
        entries.len() > 0 ==> r == u32_text_value(entries[0]@),
{
    if entries.len() == 0 {
        None
    } else {
        parse_u32_text(entries[0].as_str())
    }
}

/// The position of the first receipt entry whose action is
/// `create_users_and_groups`.
pub open spec fn is_users_and_groups(e: JsonView) -> bool {
    e matches JsonView::Object(eo) && member(eo, "action"@) matches JsonView::Object(ao) && member(ao, "action_name"@)
        == JsonView::String("create_users_and_groups"@)
}

/// The build users and group, from the receipt's `create_users_and_groups`
/// action when it has one, else as given on the command line.
#[derive(Debug)]
pub struct UsersAndGroups {
    pub user_prefix: String,
    pub user_count: u32,
    pub group_name: String,
    pub group_gid: Option<u32>,
    /// The position of the action in the receipt, when it was found.
    pub receipt_index: Option<usize>,
}

/// Why the receipt's action could not be read.
#[derive(Debug, Clone, Copy, PartialEq, Eq, Structural)]
pub enum ReceiptActionError {
    /// The action does not have the shape of `create_users_and_groups`.
    Roundtrip,
}

/// A string member of an object.
pub open spec fn string_member(o: Seq<(Seq<char>, JsonView)>, k: Seq<char>) -> Option<Seq<char>> {
    match member(o, k) {
        JsonView::String(s) => Some(s),
        _ => None,
    }
}

/// A `u32` member of an object.
pub open spec fn u32_member(o: Seq<(Seq<char>, JsonView)>, k: Seq<char>) -> Option<u32> {
    match member(o, k) {
        JsonView::Number(t) => u32_text_value(t),
        _ => None,
    }
}

fn string_member_exec(o: &Vec<(String, Json)>, k: &str) -> (r: Option<String>)
    ensures
        match r {
            Some(s) => string_member(crate::json::obj_view(o@), k@) == Some(s@),
            None => string_member(crate::json::obj_view(o@), k@) is None,
        },
{
    match get_member(o, k) {
        Json::String(s) => Some(s),
        _ => None,
    }
}

fn u32_member_exec(o: &Vec<(String, Json)>, k: &str) -> (r: Option<u32>)
    ensures
        r == u32_member(crate::json::obj_view(o@), k@),
{
    match get_member(o, k) {
        Json::Number(t) => parse_u32_text(t.as_str()),
        _ => None,
    }
}

/// The `action` object of a receipt entry, empty when there is none.
pub open spec fn action_object(e: JsonView) -> Seq<(Seq<char>, JsonView)> {
    match e {
        JsonView::Object(eo) => match member(eo, "action"@) {
            JsonView::Object(ao) => ao,
            _ => Seq::empty(),
        },
        _ => Seq::empty(),
    }
}

/// Whether the values read from the action are those of its fields.
pub open spec fn read_from_action(u: UsersAndGroups, ao: Seq<(Seq<char>, JsonView)>) -> bool {
    &&& string_member(ao, "nix_build_user_prefix"@) == Some(u.user_prefix@)
    &&& u32_member(ao, "nix_build_user_count"@) == Some(u.user_count)
    &&& u32_member(ao, "nix_build_group_id"@) == u.group_gid
    &&& u.group_gid is Some
    &&& string_member(ao, "nix_build_group_name"@) == Some(u.group_name@)
}

/// Whether all the fields the repair reads are present in the action.
pub open spec fn fields_present(ao: Seq<(Seq<char>, JsonView)>) -> bool {
    &&& string_member(ao, "nix_build_user_prefix"@) is Some
    &&& u32_member(ao, "nix_build_user_count"@) is Some
    &&& u32_member(ao, "nix_build_group_id"@) is Some
    &&& string_member(ao, "nix_build_group_name"@) is Some
}

/// Finds the receipt's first `create_users_and_groups` action and reads the
/// build users and group from it; without one, the given values are used
/// and no group id is known. An action that lacks a field (a prefix, a
/// count, a group id and name) is refused.
pub fn users_and_groups(
    receipt: Option<&Vec<Json>>,
    prefix: &String,
    count: u32,
    group_name: &String,
) -> (r: Result<UsersAndGroups, ReceiptActionError>)
    ensures
        match receipt {
            None => r matches Ok(u) && u.receipt_index is None && u.user_prefix@ == prefix@ && u.user_count == count
                && u.group_name@ == group_name@ && u.group_gid is None,
            Some(actions) => match r {
                Ok(u) => match u.receipt_index {
                    Some(i) => {
                        &&& i < actions.len()
                        &&& is_users_and_groups(jv(actions[i as int]))
                        &&& forall|j: int| 0 <= j < i ==> !is_users_and_groups(jv(#[trigger] actions[j]))
                        &&& read_from_action(u, action_object(jv(actions[i as int])))
                    },
                    None => {
                        &&& forall|j: int| 0 <= j < actions.len() ==> !is_users_and_groups(jv(#[trigger] actions[j]))
                        &&& u.user_prefix@ == prefix@ && u.user_count == count && u.group_name@ == group_name@
                        &&& u.group_gid is None
                    },
                },
                Err(_) => exists|i: int| {
                    &&& 0 <= i < actions.len()
                    &&& is_users_and_groups(jv(#[trigger] actions[i]))
                    &&& (forall|j: int| 0 <= j < i ==> !is_users_and_groups(jv(#[trigger] actions[j])))
                    &&& !fields_present(action_object(jv(actions[i])))
                },
            },
        },
{
    let none_found = UsersAndGroups {
        user_prefix: prefix.clone(),
        user_count: count,
        group_name: group_name.clone(),
        group_gid: None,
        receipt_index: None,
    };
    let actions = match receipt {
        None => return Ok(none_found),
        Some(a) => a,
    };
    let mut i: usize = 0;
    while i < actions.len()
        invariant
            i <= actions.len(),
            receipt == Some(actions),
            none_found.receipt_index is None,
            none_found.user_prefix@ == prefix@,
            none_found.user_count == count,
            none_found.group_name@ == group_name@,
            none_found.group_gid is None,
            forall|j: int| 0 <= j < i ==> !is_users_and_groups(jv(#[trigger] actions[j])),
        decreases actions.len() - i,
    {
        if let Json::Object(eo) = &actions[i] {
            proof {
                lemma_jv_object(*eo);
            }
            let action = get_member(eo, "action");
            if let Json::Object(ao) = &action {
                proof {
                    lemma_jv_object(*ao);
                }
                let name = get_member(ao, "action_name");
                let is_it = match &name {
                    Json::String(n) => *n == owned("create_users_and_groups"),
                    _ => false,
                };
                if is_it {
                    let p = string_member_exec(ao, "nix_build_user_prefix");
                    let c = u32_member_exec(ao, "nix_build_user_count");
                    let g = u32_member_exec(ao, "nix_build_group_id");
                    let gn = string_member_exec(ao, "nix_build_group_name");
                    match (p, c, g, gn) {
                        (Some(p), Some(c), Some(g), Some(gn)) => {
                            return Ok(UsersAndGroups {
                                user_prefix: p,
                                user_count: c,
                                group_name: gn,
                                group_gid: Some(g),
                                receipt_index: Some(i),
                            });
                        },
                        _ => return Err(ReceiptActionError::Roundtrip),
                    }
                }
            }
        }
        i = i + 1;
    }
    Ok(none_found)
}

/// Where the receipt is copied before the repair rewrites it: beside it,
/// with `pre-repair` and the time in milliseconds before its extension.
pub open spec fn pre_repair_backup_text(timestamp_millis: u64) -> Seq<char> {
    "/nix/receipt.pre-repair."@ + decimal_text(timestamp_millis as nat) + ".json"@
}

pub fn pre_repair_backup_location(timestamp_millis: u64) -> (r: String)
    ensures
        r@ == pre_repair_backup_text(timestamp_millis),
{
    let mut s = owned("/nix/receipt.pre-repair.");
    let t = decimal(timestamp_millis);
    s.append(t.as_str());
    s.append(".json");
    s
}

/// A number as the receipt writes it.
pub open spec fn number_view(n: u32) -> JsonView {
    JsonView::Number(decimal_text(n as nat))
}

fn number(n: u32) -> (r: Json)
    ensures
        jv(r) == number_view(n),
{
    Json::Number(decimal(n as u64))
}

fn string(s: &String) -> (r: Json)
    ensures
        jv(r) == JsonView::String(s@),
{
    Json::String(s.clone())
}

/// The `create_user` action that makes a build user.
pub open spec fn create_user_view(u: BuildUser) -> JsonView {
    JsonView::Object(
        seq![
            ("action_name"@, JsonView::String("create_user"@)),
            ("name"@, JsonView::String(u.name@)),
            ("uid"@, number_view(u.uid)),
            ("groupname"@, JsonView::String(u.groupname@)),
            ("gid"@, number_view(u.gid)),
            ("comment"@, JsonView::String(u.comment@)),
        ],
    )
}

/// The `add_user_to_group` action that puts a build user in its group.
pub open spec fn add_user_view(u: BuildUser) -> JsonView {
    JsonView::Object(
        seq![
            ("action_name"@, JsonView::String("add_user_to_group"@)),
            ("name"@, JsonView::String(u.name@)),
            ("uid"@, number_view(u.uid)),
            ("groupname"@, JsonView::String(u.groupname@)),
            ("gid"@, number_view(u.gid)),
        ],
    )
}

fn create_user_json(u: &BuildUser) -> (r: Json)
    ensures
        jv(r) == create_user_view(*u),
{
    let mut o: Vec<(String, Json)> = Vec::new();
    o.push((owned("action_name"), Json::String(owned("create_user"))));
    o.push((owned("name"), string(&u.name)));
    o.push((owned("uid"), number(u.uid)));
    o.push((owned("groupname"), string(&u.groupname)));
    o.push((owned("gid"), number(u.gid)));
    o.push((owned("comment"), string(&u.comment)));
    proof {
        lemma_jv_object(o);
        assert(obj_view(o@) =~= create_user_view(*u)->Object_0);
    }
    Json::Object(o)
}

fn add_user_json(u: &BuildUser) -> (r: Json)
    ensures
        jv(r) == add_user_view(*u),
{
    let mut o: Vec<(String, Json)> = Vec::new();
    o.push((owned("action_name"), Json::String(owned("add_user_to_group"))));
    o.push((owned("name"), string(&u.name)));
    o.push((owned("uid"), number(u.uid)));
    o.push((owned("groupname"), string(&u.groupname)));
    o.push((owned("gid"), number(u.gid)));
    proof {
        lemma_jv_object(o);
        assert(obj_view(o@) =~= add_user_view(*u)->Object_0);
    }
    Json::Object(o)
}

/// The `create_users_and_groups` action after the repair: the receipt's
/// action (its name and group creation kept) with the build users' group,
/// group id, count, prefix and id base set, each user created and added to
/// the group as a completed step, in the order given.
pub open spec fn repaired_action_view(
    old: Seq<(Seq<char>, JsonView)>,
    group_name: Seq<char>,
    group_gid: u32,
    user_count: u32,
    user_prefix: Seq<char>,
    user_base: u32,
    users: Seq<BuildUser>,
) -> Seq<(Seq<char>, JsonView)> {
    let a1 = set_member(old, "nix_build_group_name"@, JsonView::String(group_name));
    let a2 = set_member(a1, "nix_build_group_id"@, number_view(group_gid));
    let a3 = set_member(a2, "nix_build_user_count"@, number_view(user_count));
    let a4 = set_member(a3, "nix_build_user_prefix"@, JsonView::String(user_prefix));
    let a5 = set_member(a4, "nix_build_user_id_base"@, number_view(user_base));
    let a6 = set_member(
        a5,
        "create_users"@,
        JsonView::Array(users.map_values(|u: BuildUser| completed_view(create_user_view(u)))),
    );
    set_member(
        a6,
        "add_users_to_groups"@,
        JsonView::Array(users.map_values(|u: BuildUser| completed_view(add_user_view(u)))),
    )
}

/// The receipt entry that replaces the `create_users_and_groups` entry
/// once the build users were moved: the repaired action, completed.
pub fn repaired_users_and_groups_entry(
    old_action: &Vec<(String, Json)>,
    group_name: &String,
    group_gid: u32,
    user_count: u32,
    user_prefix: &String,
    user_base: u32,
    users: &Vec<BuildUser>,
) -> (r: Json)
    ensures
        jv(r) == completed_view(
            JsonView::Object(
                repaired_action_view(
                    obj_view(old_action@),
                    group_name@,
                    group_gid,
                    user_count,
                    user_prefix@,
                    user_base,
                    users@,
                ),
            ),
        ),
{
    let mut creates: Vec<Json> = Vec::new();
    let mut adds: Vec<Json> = Vec::new();
    let mut i: usize = 0;
    while i < users.len()
        invariant
            i <= users.len(),
            arr_view(creates@) == users@.take(i as int).map_values(|u: BuildUser| completed_view(create_user_view(u))),
            arr_view(adds@) == users@.take(i as int).map_values(|u: BuildUser| completed_view(add_user_view(u))),
        decreases users.len() - i,
    {
        let c = completed_entry(create_user_json(&users[i]));
        let a = completed_entry(add_user_json(&users[i]));
        proof {
            assert(users@.take(i + 1).map_values(|u: BuildUser| completed_view(create_user_view(u)))
                =~= users@.take(i as int).map_values(|u: BuildUser| completed_view(create_user_view(u))).push(jv(c)));
            assert(users@.take(i + 1).map_values(|u: BuildUser| completed_view(add_user_view(u)))
                =~= users@.take(i as int).map_values(|u: BuildUser| completed_view(add_user_view(u))).push(jv(a)));
            assert(arr_view(creates@.push(c)) =~= arr_view(creates@).push(jv(c)));
            assert(arr_view(adds@.push(a)) =~= arr_view(adds@).push(jv(a)));
        }
        creates.push(c);
        adds.push(a);
        i = i + 1;
    }
    proof {
        assert(users@.take(users.len() as int) =~= users@);
        lemma_jv_array(creates);
        lemma_jv_array(adds);
    }
    let a1 = with_member(old_action, "nix_build_group_name", string(group_name));
    let a2 = with_member(&a1, "nix_build_group_id", number(group_gid));
    let a3 = with_member(&a2, "nix_build_user_count", number(user_count));
    let a4 = with_member(&a3, "nix_build_user_prefix", string(user_prefix));
    let a5 = with_member(&a4, "nix_build_user_id_base", number(user_base));
    let a6 = with_member(&a5, "create_users", Json::Array(creates));
    let a7 = with_member(&a6, "add_users_to_groups", Json::Array(adds));
    proof {
        lemma_jv_object(a7);
    }
    completed_entry(Json::Object(a7))
}

/// What the repair does once its steps have run.
#[derive(Debug, PartialEq, Eq)]
pub enum RepairFinish {
    /// A step failed: the repair ends with failure, the receipt untouched.
    Failure,
    /// Every step succeeded and there is no receipt entry to update.
    Success,
    /// Every step succeeded: copy the receipt to this location, then write
    /// the updated receipt, and end with success.
    UpdateReceipt { backup: String },
}

/// The end of a repair, given whether every step succeeded, whether the
/// receipt has an entry to update, and the time in milliseconds.
pub fn repair_finish(all_succeeded: bool, receipt_updated: bool, timestamp_millis: u64) -> (r: RepairFinish)
    ensures
        !all_succeeded ==> r == RepairFinish::Failure,
        all_succeeded && !receipt_updated ==> r == RepairFinish::Success,
        all_succeeded && receipt_updated ==> (r matches RepairFinish::UpdateReceipt { backup } && backup@
            == pre_repair_backup_text(timestamp_millis)),
{
    if !all_succeeded {
        RepairFinish::Failure
    } else if !receipt_updated {
        RepairFinish::Success
    } else {
        RepairFinish::UpdateReceipt { backup: pre_repair_backup_location(timestamp_millis) }
    }
}

} // verus!
