//! Splitting an install receipt into two uninstall phases: phase 1 undoes
//! everything but the Nix store, phase 2 removes the store.
//!
//! A receipt lists stateful actions, each a JSON object whose `action` member
//! describes the action and whose `state` member records its progress. The
//! actions that build the store are marked `Skipped` in phase 1 and copied,
//! as they were, into phase 2.

use vstd::prelude::*;
use vstd::string::*;
use crate::json::{
    lemma_member_after_set,
    arr_view, lookup, clone_json, get_member, has_member, jv, lemma_jv_array, lemma_jv_object, member, obj_view, set_member, with_member,
    Json, JsonView,
};
use crate::text::{owned, path_starts_with, path_starts_with_exec, starts_with_text, text_starts_with};

verus! {

/// The progress of an action.
#[derive(Debug, Clone, Copy, PartialEq, Eq, Structural)]
pub enum ActionState {
    Completed,
    Progress,
    Uncompleted,
    Skipped,
}

/// The JSON form of a state: its name.
pub open spec fn state_json(s: ActionState) -> JsonView {
    JsonView::String(
        match s {
            ActionState::Completed => "Completed"@,
            ActionState::Progress => "Progress"@,
            ActionState::Uncompleted => "Uncompleted"@,
            ActionState::Skipped => "Skipped"@,
        },
    )
}

impl ActionState {
    pub fn to_json(&self) -> (r: Json)
        ensures
            jv(r) == state_json(*self),
    {
        Json::String(
            match self {
                ActionState::Completed => owned("Completed"),
                ActionState::Progress => owned("Progress"),
                ActionState::Uncompleted => owned("Uncompleted"),
                ActionState::Skipped => owned("Skipped"),
            },
        )
    }
}

/// The version of the installer that wrote a receipt.
#[derive(Debug, Clone, Copy)]
pub struct ReceiptVersion {
    pub major: u64,
    pub minor: u64,
    pub patch: u64,
    /// Whether the version has a pre-release part, which orders it before the
    /// release with the same numbers.
    pub pre_release: bool,
}

/// Whether the version is the release `major.minor.patch` or later.
pub open spec fn at_least(v: ReceiptVersion, major: u64, minor: u64, patch: u64) -> bool {
    ||| v.major > major
    ||| v.major == major && v.minor > minor
    ||| v.major == major && v.minor == minor && v.patch > patch
    ||| v.major == major && v.minor == minor && v.patch == patch && !v.pre_release
}

impl ReceiptVersion {
    /// Whether the version is the release `major.minor.patch` or later.
    pub fn at_least(&self, major: u64, minor: u64, patch: u64) -> (r: bool)
        ensures
            r == at_least(*self, major, minor, patch),
    {
        if self.major != major {
            return self.major > major;
        }
        if self.minor != minor {
            return self.minor > minor;
        }
        if self.patch != patch {
            return self.patch > patch;
        }
        !self.pre_release
    }
}

/// A receipt read without knowing its actions' types.
#[derive(Debug)]
pub struct OpaqueReceipt {
    pub version: ReceiptVersion,
    pub actions: Vec<Json>,
    pub planner: Json,
    pub diagnostic_data: Option<Json>,
}

/// Why a receipt could not be split.
#[derive(Debug, Clone, Copy, PartialEq, Eq, Structural)]
pub enum SplitError {
    /// An entry of `actions` is not an object.
    EntryNotObject,
    /// The `action` member of an entry is not an object.
    ActionNotObject,
    /// The name of an action is not a string.
    ActionNameNotString,
    /// The `path` of a `create_directory` action is not a string.
    PathNotString,
    /// An action does not have the shape of its type.
    Roundtrip,
}

/// What processing one entry gives: the entry for phase 1 and what it adds
/// to phase 2, or an error; `Panics` marks input the processing cannot take
/// (a member read with the indexing that requires it to exist is missing).
pub enum EntryOutcome {
    Done(JsonView, Seq<JsonView>),
    Fails(SplitError),
    Panics,
}

/// What splitting all the actions gives.
pub enum SplitOutcome {
    Split(Seq<JsonView>, Seq<JsonView>),
    Fails(SplitError),
    Panics,
}

/// Whether a `state` member can be set in the value: it is an object, or
/// `null` (which becomes an object).
pub open spec fn settable(v: JsonView) -> bool {
    v is Null || v is Object
}

/// The value with its `state` member set.
pub open spec fn with_state(v: JsonView, s: JsonView) -> JsonView {
    match v {
        JsonView::Object(o) => JsonView::Object(set_member(o, "state"@, s)),
        _ => JsonView::Object(seq![("state"@, s)]),
    }
}

/// The object with the `state` of its member `k` set.
pub open spec fn set_sub_state(o: Seq<(Seq<char>, JsonView)>, k: Seq<char>, s: JsonView) -> Seq<(Seq<char>, JsonView)> {
    set_member(o, k, with_state(member(o, k), s))
}

/// How the receipt-agnostic method treats one entry.
pub open spec fn naive_entry(e: JsonView, v: ReceiptVersion, sk: JsonView) -> EntryOutcome {
    match e {
        JsonView::Object(eo) => match lookup(eo, "action"@) {
            None => EntryOutcome::Panics,
            Some(JsonView::Object(ao)) => {
                let name_key = if at_least(v, 0, 21, 0) {
                    "action_name"@
                } else {
                    "action"@
                };
                match lookup(ao, name_key) {
                    None => EntryOutcome::Panics,
                    Some(JsonView::String(name)) => {
                        if name == "provision_nix"@ {
                            let f = member(ao, "fetch_nix"@);
                            let t = member(ao, "create_nix_tree"@);
                            let m = member(ao, "move_unpacked_nix"@);
                            if !settable(f) || !settable(t) || !settable(m) {
                                EntryOutcome::Panics
                            } else {
                                let ao2 = set_sub_state(
                                    set_sub_state(set_sub_state(ao, "fetch_nix"@, sk), "create_nix_tree"@, sk),
                                    "move_unpacked_nix"@,
                                    sk,
                                );
                                EntryOutcome::Done(
                                    JsonView::Object(set_member(eo, "action"@, JsonView::Object(ao2))),
                                    seq![f, t, m],
                                )
                            }
                        } else if name == "create_directory"@ {
                            match member(ao, "path"@) {
                                JsonView::String(p) => if text_starts_with(p, "/nix"@) {
                                    if lookup(eo, "state"@) is None {
                                        EntryOutcome::Panics
                                    } else {
                                        EntryOutcome::Done(
                                            JsonView::Object(set_member(eo, "state"@, sk)),
                                            seq![JsonView::Object(ao)],
                                        )
                                    }
                                } else {
                                    EntryOutcome::Done(e, Seq::empty())
                                },
                                _ => EntryOutcome::Fails(SplitError::PathNotString),
                            }
                        } else if (name == "create_nix_volume"@ && at_least(v, 0, 28, 0)) || (name
                            == "create_apfs_volume"@ && !at_least(v, 0, 28, 0)) {
                            let c = member(ao, "create_volume"@);
                            let en = member(ao, "encrypt_volume"@);
                            let u = member(ao, "unmount_volume"@);
                            if !settable(c) || !settable(en) || !settable(u) {
                                EntryOutcome::Panics
                            } else {
                                let moved = if en is Null {
                                    seq![c, u]
                                } else {
                                    seq![c, en, u]
                                };
                                let a1 = set_sub_state(ao, "create_volume"@, sk);
                                let a2 = if en is Null {
                                    a1
                                } else {
                                    set_sub_state(a1, "encrypt_volume"@, sk)
                                };
                                let a3 = set_sub_state(a2, "unmount_volume"@, sk);
                                EntryOutcome::Done(JsonView::Object(set_member(eo, "action"@, JsonView::Object(a3))), moved)
                            }
                        } else if name == "create_determinate_nix_volume"@ {
                            let c = member(ao, "create_volume"@);
                            let en = member(ao, "encrypt_volume"@);
                            let u = member(ao, "unmount_volume"@);
                            if !settable(c) || !settable(en) || !settable(u) {
                                EntryOutcome::Panics
                            } else {
                                let a3 = set_sub_state(
                                    set_sub_state(set_sub_state(ao, "create_volume"@, sk), "encrypt_volume"@, sk),
                                    "unmount_volume"@,
                                    sk,
                                );
                                EntryOutcome::Done(
                                    JsonView::Object(set_member(eo, "action"@, JsonView::Object(a3))),
                                    seq![c, en, u],
                                )
                            }
                        } else {
                            EntryOutcome::Done(e, Seq::empty())
                        }
                    },
                    Some(_) => EntryOutcome::Fails(SplitError::ActionNameNotString),
                }
            },
            Some(_) => EntryOutcome::Fails(SplitError::ActionNotObject),
        },
        _ => EntryOutcome::Fails(SplitError::EntryNotObject),
    }
}

/// Splitting the actions entry by entry, stopping at the first error.
pub open spec fn split_with(
    actions: Seq<JsonView>,
    entry: spec_fn(JsonView) -> EntryOutcome,
) -> SplitOutcome
    decreases actions.len(),
{
    if actions.len() == 0 {
        SplitOutcome::Split(Seq::empty(), Seq::empty())
    } else {
        match split_with(actions.drop_last(), entry) {
            SplitOutcome::Split(p1, p2) => match entry(actions.last()) {
                EntryOutcome::Done(e, m) => SplitOutcome::Split(p1.push(e), p2 + m),
                EntryOutcome::Fails(err) => SplitOutcome::Fails(err),
                EntryOutcome::Panics => SplitOutcome::Panics,
            },
            other => other,
        }
    }
}

/// How the receipt-agnostic method treats each entry of a receipt of version `v`.
pub open spec fn naive_entry_of(v: ReceiptVersion) -> spec_fn(JsonView) -> EntryOutcome {
    |e: JsonView| naive_entry(e, v, state_json(ActionState::Skipped))
}

/// The receipt-agnostic split of a receipt's actions.
pub open spec fn naive_split(actions: Seq<JsonView>, v: ReceiptVersion) -> SplitOutcome {
    split_with(actions, naive_entry_of(v))
}

/// Once the split of a prefix of the actions fails or stops, the split of
/// all of them ends the same way.
proof fn lemma_split_with_stops(actions: Seq<JsonView>, entry: spec_fn(JsonView) -> EntryOutcome, n: int)
    requires
        0 <= n <= actions.len(),
        !(split_with(actions.take(n), entry) is Split),
    ensures
        split_with(actions, entry) == split_with(actions.take(n), entry),
    decreases actions.len(),
{
    if n == actions.len() {
        assert(actions.take(n) =~= actions);
    } else {
        assert(actions.drop_last().take(n) =~= actions.take(n));
        lemma_split_with_stops(actions.drop_last(), entry, n);
    }
}

fn with_state_exec(v: &Json, s: &Json) -> (r: Json)
    requires
        settable(jv(*v)),
    ensures
        jv(r) == with_state(jv(*v), jv(*s)),
{
    match v {
        Json::Object(o) => {
            let n = with_member(o, "state", clone_json(s));
            proof {
                lemma_jv_object(*o);
                lemma_jv_object(n);
            }
            Json::Object(n)
        },
        _ => {
            let mut n: Vec<(String, Json)> = Vec::new();
            n.push((owned("state"), clone_json(s)));
            proof {
                lemma_jv_object(n);
                assert(obj_view(n@) =~= seq![("state"@, jv(*s))]);
            }
            Json::Object(n)
        },
    }
}

fn set_sub_state_exec(o: &Vec<(String, Json)>, k: &str, s: &Json) -> (r: Vec<(String, Json)>)
    requires
        settable(member(obj_view(o@), k@)),
    ensures
        obj_view(r@) == set_sub_state(obj_view(o@), k@, jv(*s)),
{
    let sub = get_member(o, k);
    let updated = with_state_exec(&sub, s);
    with_member(o, k, updated)
}

fn is_settable(v: &Json) -> (r: bool)
    ensures
        r == settable(jv(*v)),
{
    match v {
        Json::Null => true,
        Json::Object(_) => true,
        _ => false,
    }
}

fn one(j: Json) -> (r: Vec<Json>)
    ensures
        arr_view(r@) == seq![jv(j)],
{
    let mut v: Vec<Json> = Vec::new();
    v.push(j);
    proof {
        assert(arr_view(v@) =~= seq![jv(j)]);
    }
    v
}

fn push_json(v: &mut Vec<Json>, j: Json)
    ensures
        arr_view(final(v)@) == arr_view(old(v)@).push(jv(j)),
{
    proof {
        assert(arr_view(old(v)@.push(j)) =~= arr_view(old(v)@).push(jv(j)));
    }
    v.push(j);
}

/// What processing one entry gives, as values.
enum EntryStep {
    Done(Json, Vec<Json>),
    Fails(SplitError),
    Panics,
}

/// Whether the step is the outcome.
spec fn step_is(r: EntryStep, o: EntryOutcome) -> bool {
    match o {
        EntryOutcome::Done(ne, moved) => r matches EntryStep::Done(x, ms) && jv(x) == ne && arr_view(ms@) == moved,
        EntryOutcome::Fails(err) => r == EntryStep::Fails(err),
        EntryOutcome::Panics => r is Panics,
    }
}

/// Processes one entry the receipt-agnostic way.
fn naive_split_entry(e: &Json, version: &ReceiptVersion, sk: &Json) -> (r: EntryStep)
    ensures
        step_is(r, naive_entry(jv(*e), *version, jv(*sk))),
{
    let eo = match e {
        Json::Object(eo) => eo,
        _ => return EntryStep::Fails(SplitError::EntryNotObject),
    };
    proof {
        lemma_jv_object(*eo);
        lemma_sub_action_keys_distinct();
    }
    if !has_member(eo, "action") {
        return EntryStep::Panics;
    }
    let action = get_member(eo, "action");
    let ao = match &action {
        Json::Object(ao) => ao,
        _ => return EntryStep::Fails(SplitError::ActionNotObject),
    };
    proof {
        lemma_jv_object(*ao);
    }
    let name_key = if version.at_least(0, 21, 0) {
        "action_name"
    } else {
        "action"
    };
    if !has_member(ao, name_key) {
        return EntryStep::Panics;
    }
    let name_v = get_member(ao, name_key);
    let name = match &name_v {
        Json::String(n) => n,
        _ => return EntryStep::Fails(SplitError::ActionNameNotString),
    };
    let mut moved: Vec<Json> = Vec::new();
    proof {
        assert(arr_view(moved@) =~= Seq::<JsonView>::empty());
    }
    if *name == owned("provision_nix") {
        let f = get_member(ao, "fetch_nix");
        let t = get_member(ao, "create_nix_tree");
        let m = get_member(ao, "move_unpacked_nix");
        if !is_settable(&f) || !is_settable(&t) || !is_settable(&m) {
            return EntryStep::Panics;
        }
        push_json(&mut moved, f);
        push_json(&mut moved, t);
        push_json(&mut moved, m);
        let a1 = set_sub_state_exec(ao, "fetch_nix", sk);
        proof {
            lemma_member_set_other(obj_view(ao@), "fetch_nix"@, "create_nix_tree"@, with_state(member(obj_view(ao@), "fetch_nix"@), jv(*sk)));
            lemma_member_set_other(obj_view(ao@), "fetch_nix"@, "move_unpacked_nix"@, with_state(member(obj_view(ao@), "fetch_nix"@), jv(*sk)));
        }
        let a2 = set_sub_state_exec(&a1, "create_nix_tree", sk);
        proof {
            lemma_member_set_other(obj_view(a1@), "create_nix_tree"@, "move_unpacked_nix"@, with_state(member(obj_view(a1@), "create_nix_tree"@), jv(*sk)));
        }
        let a3 = set_sub_state_exec(&a2, "move_unpacked_nix", sk);
        let new_entry = with_member(eo, "action", Json::Object(a3));
        proof {
            lemma_jv_object(a3);
            lemma_jv_object(new_entry);
            assert(arr_view(moved@) =~= seq![
                member(obj_view(ao@), "fetch_nix"@),
                member(obj_view(ao@), "create_nix_tree"@),
                member(obj_view(ao@), "move_unpacked_nix"@),
            ]);
        }
        return EntryStep::Done(Json::Object(new_entry), moved);
    } else if *name == owned("create_directory") {
        let path_v = get_member(ao, "path");
        match &path_v {
            Json::String(p) => {
                if starts_with_text(p, "/nix") {
                    if !has_member(eo, "state") {
                        return EntryStep::Panics;
                    }
                    let new_entry = with_member(eo, "state", clone_json(sk));
                    proof {
                        lemma_jv_object(new_entry);
                    }
                    return EntryStep::Done(Json::Object(new_entry), one(clone_json(&action)));
                } else {
                    return EntryStep::Done(clone_json(e), moved);
                }
            },
            _ => return EntryStep::Fails(SplitError::PathNotString),
        }
    } else if (*name == owned("create_nix_volume") && version.at_least(0, 28, 0)) || (*name == owned(
        "create_apfs_volume",
    ) && !version.at_least(0, 28, 0)) {
        let c = get_member(ao, "create_volume");
        let en = get_member(ao, "encrypt_volume");
        let u = get_member(ao, "unmount_volume");
        if !is_settable(&c) || !is_settable(&en) || !is_settable(&u) {
            return EntryStep::Panics;
        }
        let enc_null = match &en {
            Json::Null => true,
            _ => false,
        };
        let ghost (cv, ev, uv) = (jv(c), jv(en), jv(u));
        push_json(&mut moved, c);
        if !enc_null {
            push_json(&mut moved, en);
        }
        push_json(&mut moved, u);
        proof {
            if enc_null {
                assert(arr_view(moved@) =~= seq![cv, uv]);
            } else {
                assert(arr_view(moved@) =~= seq![cv, ev, uv]);
            }
        }
        let a1 = set_sub_state_exec(ao, "create_volume", sk);
        let ghost cv_state = with_state(member(obj_view(ao@), "create_volume"@), jv(*sk));
        proof {
            lemma_member_set_other(obj_view(ao@), "create_volume"@, "encrypt_volume"@, cv_state);
            lemma_member_set_other(obj_view(ao@), "create_volume"@, "unmount_volume"@, cv_state);
        }
        let a2 = if enc_null {
            a1
        } else {
            let a2 = set_sub_state_exec(&a1, "encrypt_volume", sk);
            proof {
                lemma_member_set_other(obj_view(a1@), "encrypt_volume"@, "unmount_volume"@, with_state(member(obj_view(a1@), "encrypt_volume"@), jv(*sk)));
            }
            a2
        };
        let a3 = set_sub_state_exec(&a2, "unmount_volume", sk);
        let new_entry = with_member(eo, "action", Json::Object(a3));
        proof {
            lemma_jv_object(a3);
            lemma_jv_object(new_entry);
        }
        return EntryStep::Done(Json::Object(new_entry), moved);
    } else if *name == owned("create_determinate_nix_volume") {
        let c = get_member(ao, "create_volume");
        let en = get_member(ao, "encrypt_volume");
        let u = get_member(ao, "unmount_volume");
        if !is_settable(&c) || !is_settable(&en) || !is_settable(&u) {
            return EntryStep::Panics;
        }
        let ghost (cv, ev, uv) = (jv(c), jv(en), jv(u));
        push_json(&mut moved, c);
        push_json(&mut moved, en);
        push_json(&mut moved, u);
        proof {
            assert(arr_view(moved@) =~= seq![cv, ev, uv]);
        }
        let a1 = set_sub_state_exec(ao, "create_volume", sk);
        let ghost cv_state = with_state(member(obj_view(ao@), "create_volume"@), jv(*sk));
        proof {
            lemma_member_set_other(obj_view(ao@), "create_volume"@, "encrypt_volume"@, cv_state);
            lemma_member_set_other(obj_view(ao@), "create_volume"@, "unmount_volume"@, cv_state);
        }
        let a2 = set_sub_state_exec(&a1, "encrypt_volume", sk);
        proof {
            lemma_member_set_other(obj_view(a1@), "encrypt_volume"@, "unmount_volume"@, with_state(member(obj_view(a1@), "encrypt_volume"@), jv(*sk)));
        }
        let a3 = set_sub_state_exec(&a2, "unmount_volume", sk);
        let new_entry = with_member(eo, "action", Json::Object(a3));
        proof {
            lemma_jv_object(a3);
            lemma_jv_object(new_entry);
        }
        return EntryStep::Done(Json::Object(new_entry), moved);
    }
    EntryStep::Done(clone_json(e), moved)
}

/// The sub-action keys that the split sets are distinct.
proof fn lemma_sub_action_keys_distinct()
    ensures
        "fetch_nix"@ != "create_nix_tree"@,
        "fetch_nix"@ != "move_unpacked_nix"@,
        "create_nix_tree"@ != "move_unpacked_nix"@,
        "create_volume"@ != "encrypt_volume"@,
        "create_volume"@ != "unmount_volume"@,
        "encrypt_volume"@ != "unmount_volume"@,
        "provision_nix"@ != "create_directory"@,
{
    reveal_strlit("provision_nix");
    reveal_strlit("create_directory");
    assert("provision_nix"@.len() != "create_directory"@.len());
    reveal_strlit("fetch_nix");
    reveal_strlit("create_nix_tree");
    reveal_strlit("move_unpacked_nix");
    reveal_strlit("create_volume");
    reveal_strlit("encrypt_volume");
    reveal_strlit("unmount_volume");
    assert("fetch_nix"@.len() != "create_nix_tree"@.len());
    assert("fetch_nix"@.len() != "move_unpacked_nix"@.len());
    assert("create_nix_tree"@.len() != "move_unpacked_nix"@.len());
    assert("create_volume"@.len() != "encrypt_volume"@.len());
    assert("create_volume"@.len() != "unmount_volume"@.len());
    assert("encrypt_volume"@[0] != "unmount_volume"@[0]);
}

/// Setting one member leaves the lookup of the others as it was.
proof fn lemma_lookup_set_other(o: Seq<(Seq<char>, JsonView)>, k: Seq<char>, other: Seq<char>, v: JsonView)
    requires
        k != other,
    ensures
        lookup(set_member(o, k, v), other) == lookup(o, other),
    decreases o.len(),
{
    let s = set_member(o, k, v);
    if o.len() == 0 {
        assert(s.drop_first() =~= Seq::<(Seq<char>, JsonView)>::empty());
        assert(lookup(s.drop_first(), other) == None::<JsonView>);
        assert(lookup(s, other) == lookup(s.drop_first(), other));
    } else if o[0].0 == k {
        assert(s.drop_first() =~= o.drop_first());
        assert(lookup(s, other) == lookup(s.drop_first(), other));
        assert(lookup(o, other) == lookup(o.drop_first(), other));
    } else {
        lemma_lookup_set_other(o.drop_first(), k, other, v);
        assert(s[0] == o[0]);
        assert(s.drop_first() =~= set_member(o.drop_first(), k, v));
        if o[0].0 != other {
            assert(lookup(s, other) == lookup(s.drop_first(), other));
            assert(lookup(o, other) == lookup(o.drop_first(), other));
        }
    }
}

/// Setting one member leaves the others as they were.
pub proof fn lemma_member_set_other(o: Seq<(Seq<char>, JsonView)>, k: Seq<char>, other: Seq<char>, v: JsonView)
    requires
        k != other,
    ensures
        member(set_member(o, k, v), other) == member(o, other),
{
    lemma_lookup_set_other(o, k, other, v);
}

/// Appends the values of `more` to `v`.
fn append_json(v: &mut Vec<Json>, more: Vec<Json>)
    ensures
        arr_view(final(v)@) == arr_view(old(v)@) + arr_view(more@),
{
    let mut more = more;
    let ghost before = v@;
    let ghost added = more@;
    v.append(&mut more);
    proof {
        assert(v@ == before + added);
        assert(arr_view(before + added) =~= arr_view(before) + arr_view(added));
    }
}

/// Whether the receipt-agnostic split of these actions reaches an entry it
/// cannot take (a member that must exist is missing, or a sub-action whose
/// state must be set is neither an object nor `null`) before any error.
pub fn naive_split_would_panic(actions: &Vec<Json>, version: &ReceiptVersion) -> (r: bool)
    ensures
        r == naive_split(arr_view(actions@), *version) is Panics,
{
    let sk = ActionState::Skipped.to_json();
    let ghost f = naive_entry_of(*version);
    let ghost av = arr_view(actions@);
    let mut i: usize = 0;
    while i < actions.len()
        invariant
            i <= actions.len(),
            av == arr_view(actions@),
            jv(sk) == state_json(ActionState::Skipped),
            f == naive_entry_of(*version),
            split_with(av.take(i as int), f) is Split,
        decreases actions.len() - i,
    {
        let step = naive_split_entry(&actions[i], version, &sk);
        proof {
            assert(av.take(i + 1).drop_last() =~= av.take(i as int));
            assert(av.take(i + 1).last() == jv(actions@[i as int]));
        }
        match step {
            EntryStep::Panics => {
                proof {
                    lemma_split_with_stops(av, f, i + 1);
                }
                return true;
            },
            EntryStep::Fails(_) => {
                proof {
                    lemma_split_with_stops(av, f, i + 1);
                }
                return false;
            },
            EntryStep::Done(_, _) => {},
        }
        i = i + 1;
    }
    proof {
        assert(av.take(i as int) =~= av);
    }
    false
}

/// Splits the actions of a receipt the receipt-agnostic way: the actions
/// for phase 1, with the steps that build the store marked `Skipped`, and
/// the actions for phase 2, the store-building steps as they were.
pub fn naive_split_actions(actions: &Vec<Json>, version: &ReceiptVersion) -> (r: Result<(Vec<Json>, Vec<Json>), SplitError>)
    requires
        !(naive_split(arr_view(actions@), *version) is Panics),
    ensures
        match naive_split(arr_view(actions@), *version) {
            SplitOutcome::Split(p1, p2) => r matches Ok((a, b)) && arr_view(a@) == p1 && arr_view(b@) == p2,
            SplitOutcome::Fails(err) => r == Err::<(Vec<Json>, Vec<Json>), SplitError>(err),
            SplitOutcome::Panics => false,
        },
{
    let sk = ActionState::Skipped.to_json();
    let ghost f = naive_entry_of(*version);
    let ghost av = arr_view(actions@);
    let mut phase1: Vec<Json> = Vec::new();
    let mut phase2: Vec<Json> = Vec::new();
    let mut i: usize = 0;
    proof {
        assert(av.take(0) =~= Seq::<JsonView>::empty());
        assert(arr_view(phase1@) =~= Seq::<JsonView>::empty());
        assert(arr_view(phase2@) =~= Seq::<JsonView>::empty());
    }
    while i < actions.len()
        invariant
            i <= actions.len(),
            av == arr_view(actions@),
            jv(sk) == state_json(ActionState::Skipped),
            f == naive_entry_of(*version),
            !(split_with(av, f) is Panics),
            split_with(av.take(i as int), f) == SplitOutcome::Split(arr_view(phase1@), arr_view(phase2@)),
        decreases actions.len() - i,
    {
        let step = naive_split_entry(&actions[i], version, &sk);
        proof {
            assert(av.take(i + 1).drop_last() =~= av.take(i as int));
            assert(av.take(i + 1).last() == jv(actions@[i as int]));
        }
        match step {
            EntryStep::Panics => {
                proof {
                    lemma_split_with_stops(av, f, i + 1);
                }
                return Err(SplitError::Roundtrip);
            },
            EntryStep::Fails(err) => {
                proof {
                    lemma_split_with_stops(av, f, i + 1);
                }
                return Err(err);
            },
            EntryStep::Done(entry, moved) => {
                push_json(&mut phase1, entry);
                append_json(&mut phase2, moved);
            },
        }
        i = i + 1;
    }
    proof {
        assert(av.take(i as int) =~= av);
    }
    Ok((phase1, phase2))
}

/// Splits a receipt the receipt-agnostic way into the receipts of the two
/// uninstall phases; both keep the version, planner and diagnostic data.
pub fn naive_split_receipt(receipt: &OpaqueReceipt) -> (r: Result<(OpaqueReceipt, OpaqueReceipt), SplitError>)
    requires
        !(naive_split(arr_view(receipt.actions@), receipt.version) is Panics),
    ensures
        match naive_split(arr_view(receipt.actions@), receipt.version) {
            SplitOutcome::Split(p1, p2) => r matches Ok((a, b)) && {
                &&& arr_view(a.actions@) == p1
                &&& arr_view(b.actions@) == p2
                &&& a.version == receipt.version && b.version == receipt.version
                &&& jv(a.planner) == jv(receipt.planner) && jv(b.planner) == jv(receipt.planner)
                &&& same_diagnostics(a.diagnostic_data, receipt.diagnostic_data)
                &&& same_diagnostics(b.diagnostic_data, receipt.diagnostic_data)
            },
            SplitOutcome::Fails(err) => r matches Err(e) && e == err,
            SplitOutcome::Panics => false,
        },
{
    let (p1, p2) = naive_split_actions(&receipt.actions, &receipt.version)?;
    let phase1 = OpaqueReceipt {
        version: receipt.version,
        actions: p1,
        planner: clone_json(&receipt.planner),
        diagnostic_data: clone_opt_json(&receipt.diagnostic_data),
    };
    let phase2 = OpaqueReceipt {
        version: receipt.version,
        actions: p2,
        planner: clone_json(&receipt.planner),
        diagnostic_data: clone_opt_json(&receipt.diagnostic_data),
    };
    Ok((phase1, phase2))
}

/// Whether two optional values are both absent or both present and equal.
pub open spec fn same_diagnostics(a: Option<Json>, b: Option<Json>) -> bool {
    match (a, b) {
        (Some(x), Some(y)) => jv(x) == jv(y),
        (None, None) => true,
        _ => false,
    }
}

fn clone_opt_json(o: &Option<Json>) -> (r: Option<Json>)
    ensures
        same_diagnostics(r, *o),
{
    match o {
        Some(j) => Some(clone_json(j)),
        None => None,
    }
}

/// How the method that knows the receipt's action types treats one entry,
/// given whether the path of a `create_directory` action lies under `/nix`
/// (path components compared whole). Each moved item is a stateful action
/// as it stands in the receipt; an entry that does not have the shape the
/// split reads is refused as `Roundtrip`.
pub open spec fn typed_entry(e: JsonView, sk: JsonView, under_nix: bool) -> EntryOutcome {
    match e {
        JsonView::Object(eo) => match lookup(eo, "action"@) {
            Some(JsonView::Object(ao)) => match lookup(ao, "action_name"@) {
                Some(JsonView::String(name)) => {
                    if name == "provision_nix"@ {
                        EntryOutcome::Done(JsonView::Object(set_member(eo, "state"@, sk)), seq![e])
                    } else if name == "create_directory"@ {
                        match lookup(ao, "path"@) {
                            Some(JsonView::String(_)) => if under_nix {
                                EntryOutcome::Done(JsonView::Object(set_member(eo, "state"@, sk)), seq![e])
                            } else {
                                EntryOutcome::Done(e, Seq::empty())
                            },
                            _ => EntryOutcome::Fails(SplitError::Roundtrip),
                        }
                    } else if name == "create_nix_volume"@ {
                        let c = member(ao, "create_volume"@);
                        let en = member(ao, "encrypt_volume"@);
                        let u = member(ao, "unmount_volume"@);
                        if c is Object && u is Object && (en is Object || en is Null) {
                            let moved = if en is Null {
                                seq![c, u]
                            } else {
                                seq![c, u, en]
                            };
                            let a1 = set_sub_state(ao, "create_volume"@, sk);
                            let a2 = if en is Null {
                                a1
                            } else {
                                set_sub_state(a1, "encrypt_volume"@, sk)
                            };
                            let a3 = set_sub_state(a2, "unmount_volume"@, sk);
                            EntryOutcome::Done(JsonView::Object(set_member(eo, "action"@, JsonView::Object(a3))), moved)
                        } else {
                            EntryOutcome::Fails(SplitError::Roundtrip)
                        }
                    } else if name == "create_determinate_nix_volume"@ {
                        let c = member(ao, "create_volume"@);
                        let en = member(ao, "encrypt_volume"@);
                        let u = member(ao, "unmount_volume"@);
                        if c is Object && u is Object && en is Object {
                            let a3 = set_sub_state(
                                set_sub_state(set_sub_state(ao, "create_volume"@, sk), "encrypt_volume"@, sk),
                                "unmount_volume"@,
                                sk,
                            );
                            EntryOutcome::Done(
                                JsonView::Object(set_member(eo, "action"@, JsonView::Object(a3))),
                                seq![c, u, en],
                            )
                        } else {
                            EntryOutcome::Fails(SplitError::Roundtrip)
                        }
                    } else {
                        EntryOutcome::Done(e, Seq::empty())
                    }
                },
                _ => EntryOutcome::Fails(SplitError::Roundtrip),
            },
            _ => EntryOutcome::Fails(SplitError::Roundtrip),
        },
        _ => EntryOutcome::Fails(SplitError::Roundtrip),
    }
}

/// The path of an entry's action, empty when it has none.
pub open spec fn entry_path(e: JsonView) -> Seq<char> {
    match e {
        JsonView::Object(eo) => match member(eo, "action"@) {
            JsonView::Object(ao) => match member(ao, "path"@) {
                JsonView::String(p) => p,
                _ => Seq::empty(),
            },
            _ => Seq::empty(),
        },
        _ => Seq::empty(),
    }
}

/// How the typed method treats each entry.
pub open spec fn typed_entry_of() -> spec_fn(JsonView) -> EntryOutcome {
    |e: JsonView| typed_entry(e, state_json(ActionState::Skipped), path_starts_with(entry_path(e), "/nix"@))
}

/// The split of a receipt's actions by the method that knows their types.
pub open spec fn typed_split(actions: Seq<JsonView>) -> SplitOutcome {
    split_with(actions, typed_entry_of())
}

/// Processes one entry of a receipt whose actions have their types' shape:
/// the entry for phase 1 and the stateful actions it moves to phase 2.
/// `under_nix` tells whether the path of a `create_directory` action lies
/// under `/nix`.
pub fn typed_split_entry(e: &Json, under_nix: bool) -> (r: Result<(Json, Vec<Json>), SplitError>)
    ensures
        match typed_entry(jv(*e), state_json(ActionState::Skipped), under_nix) {
            EntryOutcome::Done(ne, moved) => r matches Ok((x, ms)) && jv(x) == ne && arr_view(ms@) == moved,
            EntryOutcome::Fails(err) => r == Err::<(Json, Vec<Json>), SplitError>(err),
            EntryOutcome::Panics => false,
        },
{
    let sk = ActionState::Skipped.to_json();
    let eo = match e {
        Json::Object(eo) => eo,
        _ => return Err(SplitError::Roundtrip),
    };
    proof {
        lemma_jv_object(*eo);
        lemma_sub_action_keys_distinct();
    }
    if !has_member(eo, "action") {
        return Err(SplitError::Roundtrip);
    }
    let action = get_member(eo, "action");
    let ao = match &action {
        Json::Object(ao) => ao,
        _ => return Err(SplitError::Roundtrip),
    };
    proof {
        lemma_jv_object(*ao);
    }
    if !has_member(ao, "action_name") {
        return Err(SplitError::Roundtrip);
    }
    let name_v = get_member(ao, "action_name");
    let name = match &name_v {
        Json::String(n) => n,
        _ => return Err(SplitError::Roundtrip),
    };
    let mut moved: Vec<Json> = Vec::new();
    proof {
        assert(arr_view(moved@) =~= Seq::<JsonView>::empty());
    }
    if *name == owned("provision_nix") || *name == owned("create_directory") {
        if *name == owned("create_directory") {
            if !has_member(ao, "path") {
                return Err(SplitError::Roundtrip);
            }
            let path_v = get_member(ao, "path");
            match &path_v {
                Json::String(_) => {},
                _ => return Err(SplitError::Roundtrip),
            }
            if !under_nix {
                return Ok((clone_json(e), moved));
            }
        }
        let new_entry = with_member(eo, "state", clone_json(&sk));
        proof {
            lemma_jv_object(new_entry);
        }
        return Ok((Json::Object(new_entry), one(clone_json(e))));
    }
    let is_volume = *name == owned("create_nix_volume");
    let is_determinate = *name == owned("create_determinate_nix_volume");
    if !is_volume && !is_determinate {
        return Ok((clone_json(e), moved));
    }
    let c = get_member(ao, "create_volume");
    let en = get_member(ao, "encrypt_volume");
    let u = get_member(ao, "unmount_volume");
    let c_obj = match &c {
        Json::Object(_) => true,
        _ => false,
    };
    let u_obj = match &u {
        Json::Object(_) => true,
        _ => false,
    };
    let (en_obj, en_null) = match &en {
        Json::Object(_) => (true, false),
        Json::Null => (false, true),
        _ => (false, false),
    };
    if !c_obj || !u_obj || !(en_obj || (is_volume && en_null)) {
        return Err(SplitError::Roundtrip);
    }
    let ghost (cv, ev, uv) = (jv(c), jv(en), jv(u));
    push_json(&mut moved, c);
    push_json(&mut moved, u);
    if !en_null {
        push_json(&mut moved, en);
    }
    proof {
        if en_null {
            assert(arr_view(moved@) =~= seq![cv, uv]);
        } else {
            assert(arr_view(moved@) =~= seq![cv, uv, ev]);
        }
    }
    let a1 = set_sub_state_exec(ao, "create_volume", &sk);
    let ghost cv_state = with_state(member(obj_view(ao@), "create_volume"@), jv(sk));
    proof {
        lemma_member_set_other(obj_view(ao@), "create_volume"@, "encrypt_volume"@, cv_state);
        lemma_member_set_other(obj_view(ao@), "create_volume"@, "unmount_volume"@, cv_state);
    }
    let a2 = if en_null {
        a1
    } else {
        let a2 = set_sub_state_exec(&a1, "encrypt_volume", &sk);
        proof {
            lemma_member_set_other(obj_view(a1@), "encrypt_volume"@, "unmount_volume"@, with_state(member(obj_view(a1@), "encrypt_volume"@), jv(sk)));
        }
        a2
    };
    let a3 = set_sub_state_exec(&a2, "unmount_volume", &sk);
    let new_entry = with_member(eo, "action", Json::Object(a3));
    proof {
        lemma_jv_object(a3);
        lemma_jv_object(new_entry);
    }
    Ok((Json::Object(new_entry), moved))
}

/// The path of an entry's action, empty when it has none.
fn entry_path_exec(e: &Json) -> (r: String)
    ensures
        r@ == entry_path(jv(*e)),
{
    match e {
        Json::Object(eo) => {
            proof {
                lemma_jv_object(*eo);
            }
            let action = get_member(eo, "action");
            match &action {
                Json::Object(ao) => {
                    proof {
                        lemma_jv_object(*ao);
                    }
                    let p = get_member(ao, "path");
                    match p {
                        Json::String(t) => t,
                        _ => String::new(),
                    }
                },
                _ => String::new(),
            }
        },
        _ => String::new(),
    }
}

/// Splits the actions of a receipt whose actions have their types' shape:
/// in phase 1 the store-building actions are marked `Skipped`, and phase 2
/// holds them as they were.
pub fn typed_split_actions(actions: &Vec<Json>) -> (r: Result<(Vec<Json>, Vec<Json>), SplitError>)
    ensures
        match typed_split(arr_view(actions@)) {
            SplitOutcome::Split(p1, p2) => r matches Ok((a, b)) && arr_view(a@) == p1 && arr_view(b@) == p2,
            SplitOutcome::Fails(err) => r == Err::<(Vec<Json>, Vec<Json>), SplitError>(err),
            SplitOutcome::Panics => false,
        },
{
    let ghost f = typed_entry_of();
    let ghost av = arr_view(actions@);
    let mut phase1: Vec<Json> = Vec::new();
    let mut phase2: Vec<Json> = Vec::new();
    let mut i: usize = 0;
    proof {
        assert(av.take(0) =~= Seq::<JsonView>::empty());
        assert(arr_view(phase1@) =~= Seq::<JsonView>::empty());
        assert(arr_view(phase2@) =~= Seq::<JsonView>::empty());
    }
    while i < actions.len()
        invariant
            i <= actions.len(),
            av == arr_view(actions@),
            f == typed_entry_of(),
            split_with(av.take(i as int), f) == SplitOutcome::Split(arr_view(phase1@), arr_view(phase2@)),
        decreases actions.len() - i,
    {
        let path = entry_path_exec(&actions[i]);
        let under_nix = path_starts_with_exec(path.as_str(), "/nix");
        let step = typed_split_entry(&actions[i], under_nix);
        proof {
            assert(av.take(i + 1).drop_last() =~= av.take(i as int));
            assert(av.take(i + 1).last() == jv(actions@[i as int]));
        }
        match step {
            Err(err) => {
                proof {
                    lemma_split_with_stops(av, f, i + 1);
                }
                return Err(err);
            },
            Ok((entry, moved)) => {
                push_json(&mut phase1, entry);
                append_json(&mut phase2, moved);
            },
        }
        i = i + 1;
    }
    proof {
        assert(av.take(i as int) =~= av);
    }
    Ok((phase1, phase2))
}

/// Splits a receipt whose actions have their types' shape into the receipts
/// of the two uninstall phases. Phase 1 is the receipt with its
/// store-building actions marked `Skipped`; phase 2 holds those actions as
/// they were. Both keep the receipt's version and planner. A plan read by
/// its types holds no diagnostic data, so neither phase carries any.
pub fn typed_split_receipt(receipt: &OpaqueReceipt) -> (r: Result<(OpaqueReceipt, OpaqueReceipt), SplitError>)
    ensures
        match typed_split(arr_view(receipt.actions@)) {
            SplitOutcome::Split(p1, p2) => r matches Ok((a, b)) && {
                &&& arr_view(a.actions@) == p1
                &&& arr_view(b.actions@) == p2
                &&& a.version == receipt.version && b.version == receipt.version
                &&& jv(a.planner) == jv(receipt.planner) && jv(b.planner) == jv(receipt.planner)
                &&& a.diagnostic_data is None
                &&& b.diagnostic_data is None
            },
            SplitOutcome::Fails(err) => r matches Err(e) && e == err,
            SplitOutcome::Panics => false,
        },
{
    let (p1, p2) = typed_split_actions(&receipt.actions)?;
    let phase1 = OpaqueReceipt {
        version: receipt.version,
        actions: p1,
        planner: clone_json(&receipt.planner),
        diagnostic_data: None,
    };
    let phase2 = OpaqueReceipt {
        version: receipt.version,
        actions: p2,
        planner: clone_json(&receipt.planner),
        diagnostic_data: None,
    };
    Ok((phase1, phase2))
}

/// A split that succeeds treats every action on its own: the phase-1 receipt
/// has one entry per action, the entry that processing the action alone
/// gives.
pub proof fn lemma_split_entrywise(
    actions: Seq<JsonView>,
    entry: spec_fn(JsonView) -> EntryOutcome,
    p1: Seq<JsonView>,
    p2: Seq<JsonView>,
)
    requires
        split_with(actions, entry) == SplitOutcome::Split(p1, p2),
    ensures
        p1.len() == actions.len(),
        forall|i: int| 0 <= i < actions.len() ==> ((#[trigger] entry(actions[i])) matches EntryOutcome::Done(x, _) && p1[i] == x),
    decreases actions.len(),
{
    if actions.len() > 0 {
        let rest = actions.drop_last();
        match split_with(rest, entry) {
            SplitOutcome::Split(q1, q2) => {
                lemma_split_entrywise(rest, entry, q1, q2);
                assert forall|i: int| 0 <= i < actions.len() implies ((#[trigger] entry(actions[i])) matches EntryOutcome::Done(x, _) && p1[i] == x) by {
                    if i < actions.len() - 1 {
                        assert(rest[i] == actions[i]);
                    }
                }
            },
            _ => {},
        }
    }
}

/// Which way a receipt is split.
#[derive(Debug, Clone, Copy, PartialEq, Eq, Structural)]
pub enum SplitMethod {
    /// By the action types this installer knows.
    Typed,
    /// By the receipt's JSON alone.
    Naive,
}

/// The typed method is used unless the naive one is forced, and only for a
/// receipt that parses as a plan of this installer and is compatible with it.
pub fn choose_split_method(force_naive: bool, parses_as_plan: bool, compatible: bool) -> (r: SplitMethod)
    ensures
        r == (if !force_naive && parses_as_plan && compatible {
            SplitMethod::Typed
        } else {
            SplitMethod::Naive
        }),
{
    if !force_naive && parses_as_plan && compatible {
        SplitMethod::Typed
    } else {
        SplitMethod::Naive
    }
}

/// Whether a stateful action is marked `Skipped`.
pub open spec fn is_skipped(v: JsonView) -> bool {
    v matches JsonView::Object(o) && member(o, "state"@) == state_json(ActionState::Skipped)
}

/// Setting the state of an object or of `null` marks it.
proof fn lemma_with_state_marks(v: JsonView)
    requires
        settable(v),
    ensures
        is_skipped(with_state(v, state_json(ActionState::Skipped))),
{
    let sk = state_json(ActionState::Skipped);
    match v {
        JsonView::Object(o) => {
            lemma_member_after_set(o, "state"@, sk);
        },
        _ => {
            lemma_member_after_set(Seq::empty(), "state"@, sk);
            assert(set_member(Seq::empty(), "state"@, sk) =~= seq![("state"@, sk)]);
        },
    }
}

/// The action of a receipt entry, as an object; empty when it is none.
pub open spec fn entry_action(e: JsonView) -> Seq<(Seq<char>, JsonView)> {
    match e {
        JsonView::Object(eo) => match member(eo, "action"@) {
            JsonView::Object(ao) => ao,
            _ => Seq::empty(),
        },
        _ => Seq::empty(),
    }
}

/// The name of a receipt entry's action, as the receipt-agnostic method
/// reads it for a receipt of version `v`.
pub open spec fn naive_action_name(e: JsonView, v: ReceiptVersion) -> Option<Seq<char>> {
    let key = if at_least(v, 0, 21, 0) { "action_name"@ } else { "action"@ };
    match member(entry_action(e), key) {
        JsonView::String(n) => Some(n),
        _ => None,
    }
}

/// After a receipt-agnostic split of a `provision_nix` entry, its three
/// store-building steps are marked `Skipped` in phase 1 and moved, as they
/// were, to phase 2.
pub proof fn lemma_naive_provision_nix_skipped(e: JsonView, v: ReceiptVersion)
    requires
        naive_entry(e, v, state_json(ActionState::Skipped)) is Done,
        naive_action_name(e, v) == Some("provision_nix"@),
    ensures
        ({
            let (ne, moved) = match naive_entry(e, v, state_json(ActionState::Skipped)) {
                EntryOutcome::Done(ne, moved) => (ne, moved),
                _ => (e, Seq::empty()),
            };
            let ao = entry_action(ne);
            &&& is_skipped(member(ao, "fetch_nix"@))
            &&& is_skipped(member(ao, "create_nix_tree"@))
            &&& is_skipped(member(ao, "move_unpacked_nix"@))
            &&& moved == seq![
                member(entry_action(e), "fetch_nix"@),
                member(entry_action(e), "create_nix_tree"@),
                member(entry_action(e), "move_unpacked_nix"@),
            ]
        }),
{
    let sk = state_json(ActionState::Skipped);
    lemma_sub_action_keys_distinct();
    let eo = e->Object_0;
    let ao = entry_action(e);
    let a1 = set_sub_state(ao, "fetch_nix"@, sk);
    let a2 = set_sub_state(a1, "create_nix_tree"@, sk);
    let a3 = set_sub_state(a2, "move_unpacked_nix"@, sk);
    lemma_member_after_set(eo, "action"@, JsonView::Object(a3));
    lemma_member_after_set(ao, "fetch_nix"@, with_state(member(ao, "fetch_nix"@), sk));
    lemma_member_after_set(a1, "create_nix_tree"@, with_state(member(a1, "create_nix_tree"@), sk));
    lemma_member_after_set(a2, "move_unpacked_nix"@, with_state(member(a2, "move_unpacked_nix"@), sk));
    lemma_member_set_other(ao, "fetch_nix"@, "create_nix_tree"@, with_state(member(ao, "fetch_nix"@), sk));
    lemma_member_set_other(ao, "fetch_nix"@, "move_unpacked_nix"@, with_state(member(ao, "fetch_nix"@), sk));
    lemma_member_set_other(a1, "create_nix_tree"@, "move_unpacked_nix"@, with_state(member(a1, "create_nix_tree"@), sk));
    lemma_member_set_other(a1, "create_nix_tree"@, "fetch_nix"@, with_state(member(a1, "create_nix_tree"@), sk));
    lemma_member_set_other(a2, "move_unpacked_nix"@, "fetch_nix"@, with_state(member(a2, "move_unpacked_nix"@), sk));
    lemma_member_set_other(a2, "move_unpacked_nix"@, "create_nix_tree"@, with_state(member(a2, "move_unpacked_nix"@), sk));
    lemma_with_state_marks(member(ao, "fetch_nix"@));
    lemma_with_state_marks(member(ao, "create_nix_tree"@));
    lemma_with_state_marks(member(ao, "move_unpacked_nix"@));
}

/// After a receipt-agnostic split of a `create_directory` entry for a path
/// under `/nix`, the entry is marked `Skipped` in phase 1 and its action is
/// moved to phase 2.
pub proof fn lemma_naive_nix_directory_skipped(e: JsonView, v: ReceiptVersion)
    requires
        naive_entry(e, v, state_json(ActionState::Skipped)) is Done,
        naive_action_name(e, v) == Some("create_directory"@),
        member(entry_action(e), "path"@) matches JsonView::String(p) && text_starts_with(p, "/nix"@),
    ensures
        ({
            let (ne, moved) = match naive_entry(e, v, state_json(ActionState::Skipped)) {
                EntryOutcome::Done(ne, moved) => (ne, moved),
                _ => (e, Seq::empty()),
            };
            &&& is_skipped(ne)
            &&& moved == seq![JsonView::Object(entry_action(e))]
        }),
{
    let sk = state_json(ActionState::Skipped);
    reveal_strlit("provision_nix");
    reveal_strlit("create_directory");
    assert("provision_nix"@.len() != "create_directory"@.len());
    lemma_member_after_set(e->Object_0, "state"@, sk);
}

/// After a receipt-agnostic split of a Determinate volume entry, the
/// volume's creation, encryption and unmounting are marked `Skipped` in
/// phase 1 and moved, as they were, to phase 2.
pub proof fn lemma_naive_determinate_volume_skipped(e: JsonView, v: ReceiptVersion)
    requires
        naive_entry(e, v, state_json(ActionState::Skipped)) is Done,
        naive_action_name(e, v) == Some("create_determinate_nix_volume"@),
    ensures
        ({
            let (ne, moved) = match naive_entry(e, v, state_json(ActionState::Skipped)) {
                EntryOutcome::Done(ne, moved) => (ne, moved),
                _ => (e, Seq::empty()),
            };
            let ao = entry_action(ne);
            &&& is_skipped(member(ao, "create_volume"@))
            &&& is_skipped(member(ao, "encrypt_volume"@))
            &&& is_skipped(member(ao, "unmount_volume"@))
            &&& moved == seq![
                member(entry_action(e), "create_volume"@),
                member(entry_action(e), "encrypt_volume"@),
                member(entry_action(e), "unmount_volume"@),
            ]
        }),
{
    let sk = state_json(ActionState::Skipped);
    lemma_sub_action_keys_distinct();
    reveal_strlit("provision_nix");
    reveal_strlit("create_directory");
    reveal_strlit("create_nix_volume");
    reveal_strlit("create_apfs_volume");
    reveal_strlit("create_determinate_nix_volume");
    assert("create_determinate_nix_volume"@.len() != "provision_nix"@.len());
    assert("create_determinate_nix_volume"@.len() != "create_directory"@.len());
    assert("create_determinate_nix_volume"@.len() != "create_nix_volume"@.len());
    assert("create_determinate_nix_volume"@.len() != "create_apfs_volume"@.len());
    let eo = e->Object_0;
    let ao = entry_action(e);
    let a1 = set_sub_state(ao, "create_volume"@, sk);
    let a2 = set_sub_state(a1, "encrypt_volume"@, sk);
    let a3 = set_sub_state(a2, "unmount_volume"@, sk);
    lemma_member_after_set(eo, "action"@, JsonView::Object(a3));
    lemma_member_after_set(ao, "create_volume"@, with_state(member(ao, "create_volume"@), sk));
    lemma_member_after_set(a1, "encrypt_volume"@, with_state(member(a1, "encrypt_volume"@), sk));
    lemma_member_after_set(a2, "unmount_volume"@, with_state(member(a2, "unmount_volume"@), sk));
    lemma_member_set_other(ao, "create_volume"@, "encrypt_volume"@, with_state(member(ao, "create_volume"@), sk));
    lemma_member_set_other(ao, "create_volume"@, "unmount_volume"@, with_state(member(ao, "create_volume"@), sk));
    lemma_member_set_other(a1, "encrypt_volume"@, "unmount_volume"@, with_state(member(a1, "encrypt_volume"@), sk));
    lemma_member_set_other(a1, "encrypt_volume"@, "create_volume"@, with_state(member(a1, "encrypt_volume"@), sk));
    lemma_member_set_other(a2, "unmount_volume"@, "create_volume"@, with_state(member(a2, "unmount_volume"@), sk));
    lemma_member_set_other(a2, "unmount_volume"@, "encrypt_volume"@, with_state(member(a2, "unmount_volume"@), sk));
    lemma_with_state_marks(member(ao, "create_volume"@));
    lemma_with_state_marks(member(ao, "encrypt_volume"@));
    lemma_with_state_marks(member(ao, "unmount_volume"@));
}

/// After a receipt-agnostic split of a volume entry (`create_nix_volume`
/// from version 0.28.0 on, `create_apfs_volume` before it), the volume's
/// creation and unmounting, and its encryption when there is one, are marked
/// `Skipped` in phase 1 and moved, as they were, to phase 2, in the order
/// creation, encryption, unmounting; an absent encryption stays absent.
pub proof fn lemma_naive_volume_skipped(e: JsonView, v: ReceiptVersion)
    requires
        naive_entry(e, v, state_json(ActionState::Skipped)) is Done,
        (naive_action_name(e, v) == Some("create_nix_volume"@) && at_least(v, 0, 28, 0)) || (naive_action_name(e, v)
            == Some("create_apfs_volume"@) && !at_least(v, 0, 28, 0)),
    ensures
        ({
            let (ne, moved) = match naive_entry(e, v, state_json(ActionState::Skipped)) {
                EntryOutcome::Done(ne, moved) => (ne, moved),
                _ => (e, Seq::empty()),
            };
            let old = entry_action(e);
            let ao = entry_action(ne);
            &&& is_skipped(member(ao, "create_volume"@))
            &&& is_skipped(member(ao, "unmount_volume"@))
            &&& member(old, "encrypt_volume"@) is Null ==> {
                &&& member(ao, "encrypt_volume"@) is Null
                &&& moved == seq![member(old, "create_volume"@), member(old, "unmount_volume"@)]
            }
            &&& !(member(old, "encrypt_volume"@) is Null) ==> {
                &&& is_skipped(member(ao, "encrypt_volume"@))
                &&& moved == seq![
                    member(old, "create_volume"@),
                    member(old, "encrypt_volume"@),
                    member(old, "unmount_volume"@),
                ]
            }
        }),
{
    let sk = state_json(ActionState::Skipped);
    lemma_sub_action_keys_distinct();
    reveal_strlit("provision_nix");
    reveal_strlit("create_directory");
    reveal_strlit("create_nix_volume");
    reveal_strlit("create_apfs_volume");
    assert("create_nix_volume"@.len() != "provision_nix"@.len());
    assert("create_nix_volume"@.len() != "create_directory"@.len());
    assert("create_apfs_volume"@.len() != "provision_nix"@.len());
    assert("create_apfs_volume"@.len() != "create_directory"@.len());
    let eo = e->Object_0;
    let ao = entry_action(e);
    let en = member(ao, "encrypt_volume"@);
    let a1 = set_sub_state(ao, "create_volume"@, sk);
    let a2 = if en is Null { a1 } else { set_sub_state(a1, "encrypt_volume"@, sk) };
    let a3 = set_sub_state(a2, "unmount_volume"@, sk);
    lemma_member_after_set(eo, "action"@, JsonView::Object(a3));
    lemma_member_after_set(ao, "create_volume"@, with_state(member(ao, "create_volume"@), sk));
    lemma_member_after_set(a2, "unmount_volume"@, with_state(member(a2, "unmount_volume"@), sk));
    lemma_member_set_other(ao, "create_volume"@, "encrypt_volume"@, with_state(member(ao, "create_volume"@), sk));
    lemma_member_set_other(ao, "create_volume"@, "unmount_volume"@, with_state(member(ao, "create_volume"@), sk));
    lemma_member_set_other(a2, "unmount_volume"@, "create_volume"@, with_state(member(a2, "unmount_volume"@), sk));
    lemma_member_set_other(a2, "unmount_volume"@, "encrypt_volume"@, with_state(member(a2, "unmount_volume"@), sk));
    if !(en is Null) {
        lemma_member_after_set(a1, "encrypt_volume"@, with_state(member(a1, "encrypt_volume"@), sk));
        lemma_member_set_other(a1, "encrypt_volume"@, "unmount_volume"@, with_state(member(a1, "encrypt_volume"@), sk));
        lemma_member_set_other(a1, "encrypt_volume"@, "create_volume"@, with_state(member(a1, "encrypt_volume"@), sk));
        lemma_with_state_marks(member(ao, "encrypt_volume"@));
    }
    lemma_with_state_marks(member(ao, "create_volume"@));
    lemma_with_state_marks(member(ao, "unmount_volume"@));
}

/// A split where every action stays as it is and moves nothing gives the
/// actions back unchanged for phase 1 and nothing for phase 2.
pub proof fn lemma_split_untouched(actions: Seq<JsonView>, entry: spec_fn(JsonView) -> EntryOutcome)
    requires
        forall|i: int| 0 <= i < actions.len() ==> #[trigger] entry(actions[i]) == EntryOutcome::Done(actions[i], Seq::empty()),
    ensures
        split_with(actions, entry) == SplitOutcome::Split(actions, Seq::empty()),
    decreases actions.len(),
{
    if actions.len() > 0 {
        let init = actions.drop_last();
        assert forall|i: int| 0 <= i < init.len() implies #[trigger] entry(init[i]) == EntryOutcome::Done(init[i], Seq::empty()) by {
            assert(init[i] == actions[i]);
        }
        lemma_split_untouched(init, entry);
        assert(entry(actions[actions.len() - 1]) == EntryOutcome::Done(actions.last(), Seq::empty()));
        assert(init.push(actions.last()) =~= actions);
        assert(Seq::<JsonView>::empty() + Seq::<JsonView>::empty() =~= Seq::<JsonView>::empty());
    } else {
        assert(actions =~= Seq::<JsonView>::empty());
    }
}

/// An entry whose action builds nothing of the store (its name is none of
/// the store-building steps) passes the receipt-agnostic split unchanged.
pub proof fn lemma_naive_other_action_untouched(e: JsonView, v: ReceiptVersion)
    requires
        e is Object,
        lookup(e->Object_0, "action"@) matches Some(JsonView::Object(_)),
        lookup(entry_action(e), if at_least(v, 0, 21, 0) { "action_name"@ } else { "action"@ }) matches Some(
            JsonView::String(n),
        ) && n != "provision_nix"@ && n != "create_directory"@ && n != "create_nix_volume"@ && n
            != "create_apfs_volume"@ && n != "create_determinate_nix_volume"@,
    ensures
        naive_entry(e, v, state_json(ActionState::Skipped)) == EntryOutcome::Done(e, Seq::empty()),
{
}

/// A receipt entry for an action that has been carried out: the action,
/// then the state `Completed`.
pub open spec fn completed_view(action: JsonView) -> JsonView {
    JsonView::Object(seq![("action"@, action), ("state"@, state_json(ActionState::Completed))])
}

/// The receipt entry for an action that has been carried out.
pub fn completed_entry(action: Json) -> (r: Json)
    ensures
        jv(r) == completed_view(jv(action)),
{
    let mut o: Vec<(String, Json)> = Vec::new();
    o.push((owned("action"), action));
    o.push((owned("state"), ActionState::Completed.to_json()));
    proof {
        lemma_jv_object(o);
        assert(obj_view(o@) =~= seq![("action"@, jv(action)), ("state"@, state_json(ActionState::Completed))]);
    }
    Json::Object(o)
}

fn clone_actions(v: &Vec<Json>) -> (r: Vec<Json>)
    ensures
        arr_view(r@) == arr_view(v@),
{
    let mut out: Vec<Json> = Vec::new();
    let mut i: usize = 0;
    while i < v.len()
        invariant
            i <= v.len(),
            arr_view(out@) == arr_view(v@.take(i as int)),
        decreases v.len() - i,
    {
        let c = clone_json(&v[i]);
        proof {
            assert(arr_view(v@.take(i + 1)) =~= arr_view(v@.take(i as int)).push(jv(v@[i as int])));
        }
        push_json(&mut out, c);
        i = i + 1;
    }
    proof {
        assert(v@.take(v.len() as int) =~= v@);
    }
    out
}

/// The receipt with the entry at `index` replaced and everything else
/// kept: the other entries, the version, the planner and the diagnostic
/// data.
pub fn replace_receipt_action(receipt: &OpaqueReceipt, index: usize, entry: Json) -> (r: OpaqueReceipt)
    requires
        index < receipt.actions.len(),
    ensures
        arr_view(r.actions@) == arr_view(receipt.actions@).update(index as int, jv(entry)),
        r.version == receipt.version,
        jv(r.planner) == jv(receipt.planner),
        same_diagnostics(r.diagnostic_data, receipt.diagnostic_data),
{
    let mut actions: Vec<Json> = Vec::new();
    let mut i: usize = 0;
    let mut entry = Some(entry);
    let ghost e = entry->0;
    while i < receipt.actions.len()
        invariant
            i <= receipt.actions.len(),
            index < receipt.actions.len(),
            i <= index ==> entry == Some(e),
            arr_view(actions@) == arr_view(receipt.actions@).update(index as int, jv(e)).take(i as int),
        decreases receipt.actions.len() - i,
    {
        let ghost target = arr_view(receipt.actions@).update(index as int, jv(e));
        proof {
            assert(target.take(i + 1) =~= target.take(i as int).push(target[i as int]));
        }
        if i == index {
            let taken = entry.take();
            match taken {
                Some(x) => push_json(&mut actions, x),
                None => {},
            }
        } else {
            let c = clone_json(&receipt.actions[i]);
            push_json(&mut actions, c);
        }
        i = i + 1;
    }
    proof {
        let target = arr_view(receipt.actions@).update(index as int, jv(e));
        assert(target.take(receipt.actions.len() as int) =~= target);
    }
    OpaqueReceipt {
        version: receipt.version,
        actions,
        planner: clone_json(&receipt.planner),
        diagnostic_data: clone_opt_json(&receipt.diagnostic_data),
    }
}

/// The receipt with the given actions added after its own, each as a
/// completed entry; the version, planner and diagnostic data are kept.
pub fn append_completed_actions(receipt: &OpaqueReceipt, added: &Vec<Json>) -> (r: OpaqueReceipt)
    ensures
        arr_view(r.actions@) == arr_view(receipt.actions@) + arr_view(added@).map_values(|a: JsonView| completed_view(a)),
        r.version == receipt.version,
        jv(r.planner) == jv(receipt.planner),
        same_diagnostics(r.diagnostic_data, receipt.diagnostic_data),
{
    let mut actions = clone_actions(&receipt.actions);
    let ghost before = arr_view(actions@);
    let ghost av = arr_view(added@);
    let mut i: usize = 0;
    while i < added.len()
        invariant
            i <= added.len(),
            av == arr_view(added@),
            arr_view(actions@) == before + av.take(i as int).map_values(|a: JsonView| completed_view(a)),
        decreases added.len() - i,
    {
        let c = completed_entry(clone_json(&added[i]));
        proof {
            assert(av.take(i + 1).map_values(|a: JsonView| completed_view(a))
                =~= av.take(i as int).map_values(|a: JsonView| completed_view(a)).push(completed_view(av[i as int])));
        }
        push_json(&mut actions, c);
        i = i + 1;
    }
    proof {
        assert(av.take(added.len() as int) =~= av);
    }
    OpaqueReceipt {
        version: receipt.version,
        actions,
        planner: clone_json(&receipt.planner),
        diagnostic_data: clone_opt_json(&receipt.diagnostic_data),
    }
}

} // verus!
