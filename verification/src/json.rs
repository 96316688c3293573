//! A JSON document, as receipts are read and written, with the few
//! operations the receipt logic needs: reading a member (missing members
//! read as `null`) and setting one.

use vstd::prelude::*;
use crate::text::owned;

verus! {

/// A JSON value. Numbers keep their text; an object keeps its entries in order.
#[derive(Debug)]
pub enum Json {
    Null,
    Bool(bool),
    Number(String),
    String(String),
    Array(Vec<Json>),
    Object(Vec<(String, Json)>),
}

/// The meaning of a JSON value, with its text as text.
pub enum JsonView {
    Null,
    Bool(bool),
    Number(Seq<char>),
    String(Seq<char>),
    Array(Seq<JsonView>),
    Object(Seq<(Seq<char>, JsonView)>),
}

/// The meaning of a JSON value.
pub open spec fn jv(j: Json) -> JsonView
    decreases j,
{
    match j {
        Json::Null => JsonView::Null,
        Json::Bool(b) => JsonView::Bool(b),
        Json::Number(n) => JsonView::Number(n@),
        Json::String(s) => JsonView::String(s@),
        Json::Array(a) => JsonView::Array(
            Seq::new(a@.len(), |i: int| if 0 <= i < a@.len() { jv(a@[i]) } else { JsonView::Null }),
        ),
        Json::Object(o) => JsonView::Object(
            Seq::new(
                o@.len(),
                |i: int| if 0 <= i < o@.len() { (o@[i].0@, jv(o@[i].1)) } else { (Seq::empty(), JsonView::Null) },
            ),
        ),
    }
}

/// The meaning of each element of an array.
pub open spec fn arr_view(a: Seq<Json>) -> Seq<JsonView> {
    a.map_values(|j: Json| jv(j))
}

/// The meaning of each entry of an object.
pub open spec fn obj_view(o: Seq<(String, Json)>) -> Seq<(Seq<char>, JsonView)> {
    o.map_values(|e: (String, Json)| (e.0@, jv(e.1)))
}

pub proof fn lemma_jv_array(a: Vec<Json>)
    ensures
        jv(Json::Array(a)) == JsonView::Array(arr_view(a@)),
{
    let t = jv(Json::Array(a))->Array_0;
    assert(jv(Json::Array(a)) == JsonView::Array(t));
    assert(t.len() == a@.len());
    assert forall|i: int| 0 <= i < t.len() implies t[i] == arr_view(a@)[i] by {}
    assert(t =~= arr_view(a@));
}

pub proof fn lemma_jv_object(o: Vec<(String, Json)>)
    ensures
        jv(Json::Object(o)) == JsonView::Object(obj_view(o@)),
{
    let t = jv(Json::Object(o))->Object_0;
    assert(jv(Json::Object(o)) == JsonView::Object(t));
    assert(t.len() == o@.len());
    assert forall|i: int| 0 <= i < t.len() implies t[i] == obj_view(o@)[i] by {}
    assert(t =~= obj_view(o@));
}

/// The value of the first entry with key `k`, if any.
pub open spec fn lookup(o: Seq<(Seq<char>, JsonView)>, k: Seq<char>) -> Option<JsonView>
    decreases o.len(),
{
    if o.len() == 0 {
        None
    } else if o[0].0 == k {
        Some(o[0].1)
    } else {
        lookup(o.drop_first(), k)
    }
}

/// The member `k` of an object, `null` when missing.
pub open spec fn member(o: Seq<(Seq<char>, JsonView)>, k: Seq<char>) -> JsonView {
    match lookup(o, k) {
        Some(v) => v,
        None => JsonView::Null,
    }
}

/// The object with member `k` set to `v`: the first entry with that key is
/// replaced, or the entry is added at the end.
pub open spec fn set_member(o: Seq<(Seq<char>, JsonView)>, k: Seq<char>, v: JsonView) -> Seq<(Seq<char>, JsonView)>
    decreases o.len(),
{
    if o.len() == 0 {
        seq![(k, v)]
    } else if o[0].0 == k {
        o.update(0, (k, v))
    } else {
        seq![o[0]] + set_member(o.drop_first(), k, v)
    }
}

/// A deep copy of a JSON value.
pub fn clone_json(j: &Json) -> (r: Json)
    ensures
        jv(r) == jv(*j),
    decreases j,
{
    match j {
        Json::Null => Json::Null,
        Json::Bool(b) => Json::Bool(*b),
        Json::Number(n) => Json::Number(n.clone()),
        Json::String(s) => Json::String(s.clone()),
        Json::Array(a) => {
            let mut out: Vec<Json> = Vec::new();
            let mut i: usize = 0;
            while i < a.len()
                invariant
                    *j == Json::Array(*a),
                    i <= a.len(),
                    arr_view(out@) == arr_view(a@).take(i as int),
                decreases a.len() - i,
            {
                proof {
                    assert(*j == Json::Array(*a));
                    assert((*j)->Array_0 == *a);
                    assert(decreases_to!(*j => (*j)->Array_0));
                    assert(decreases_to!(*a => a@));
                    assert(decreases_to!(a@ => a@[i as int]));
                }
                let c = clone_json(&a[i]);
                proof {
                    assert(arr_view(out@.push(c)) =~= arr_view(out@).push(jv(c)));
                    assert(arr_view(a@).take(i + 1) =~= arr_view(a@).take(i as int).push(jv(a@[i as int])));
                }
                out.push(c);
                i = i + 1;
            }
            proof {
                assert(arr_view(a@).take(a.len() as int) =~= arr_view(a@));
                lemma_jv_array(out);
                lemma_jv_array(*a);
            }
            Json::Array(out)
        },
        Json::Object(o) => {
            let mut out: Vec<(String, Json)> = Vec::new();
            let mut i: usize = 0;
            while i < o.len()
                invariant
                    *j == Json::Object(*o),
                    i <= o.len(),
                    obj_view(out@) == obj_view(o@).take(i as int),
                decreases o.len() - i,
            {
                let k = o[i].0.clone();
                proof {
                    assert(*j == Json::Object(*o));
                    assert((*j)->Object_0 == *o);
                    assert(decreases_to!(*j => (*j)->Object_0));
                    assert(decreases_to!(*o => o@));
                    assert(decreases_to!(o@ => o@[i as int]));
                    assert(decreases_to!(o@[i as int] => o@[i as int].1));
                }
                let c = clone_json(&o[i].1);
                proof {
                    assert(obj_view(out@.push((k, c))) =~= obj_view(out@).push((k@, jv(c))));
                    assert(obj_view(o@).take(i + 1) =~= obj_view(o@).take(i as int).push(
                        (o@[i as int].0@, jv(o@[i as int].1)),
                    ));
                }
                out.push((k, c));
                i = i + 1;
            }
            proof {
                assert(obj_view(o@).take(o.len() as int) =~= obj_view(o@));
                lemma_jv_object(out);
                lemma_jv_object(*o);
            }
            Json::Object(out)
        },
    }
}

impl Clone for Json {
    fn clone(&self) -> (r: Self)
        ensures
            jv(r) == jv(*self),
    {
        clone_json(self)
    }
}

impl PartialEq for Json {
    fn eq(&self, other: &Self) -> (r: bool) {
        json_equal(self, other)
    }
}

impl vstd::std_specs::cmp::PartialEqSpecImpl for Json {
    open spec fn obeys_eq_spec() -> bool {
        true
    }

    open spec fn eq_spec(&self, other: &Self) -> bool {
        jv(*self) == jv(*other)
    }
}

/// Whether two JSON values are the same, members compared in order.
pub fn json_equal(a: &Json, b: &Json) -> (r: bool)
    ensures
        r == (jv(*a) == jv(*b)),
    decreases a,
{
    match (a, b) {
        (Json::Null, Json::Null) => true,
        (Json::Bool(x), Json::Bool(y)) => *x == *y,
        (Json::Number(x), Json::Number(y)) => *x == *y,
        (Json::String(x), Json::String(y)) => *x == *y,
        (Json::Array(x), Json::Array(y)) => {
            proof {
                lemma_jv_array(*x);
                lemma_jv_array(*y);
            }
            if x.len() != y.len() {
                proof {
                    assert(arr_view(x@).len() != arr_view(y@).len());
                }
                return false;
            }
            let mut i: usize = 0;
            while i < x.len()
                invariant
                    *a == Json::Array(*x),
                    jv(*a) == JsonView::Array(arr_view(x@)),
                    jv(*b) == JsonView::Array(arr_view(y@)),
                    x.len() == y.len(),
                    i <= x.len(),
                    forall|k: int| 0 <= k < i ==> jv(x@[k]) == jv(y@[k]),
                decreases x.len() - i,
            {
                proof {
                    assert((*a)->Array_0 == *x);
                    assert(decreases_to!(*a => (*a)->Array_0));
                    assert(decreases_to!(*x => x@));
                    assert(decreases_to!(x@ => x@[i as int]));
                }
                if !json_equal(&x[i], &y[i]) {
                    proof {
                        assert(arr_view(x@)[i as int] != arr_view(y@)[i as int]);
                    }
                    return false;
                }
                i = i + 1;
            }
            proof {
                assert(arr_view(x@) =~= arr_view(y@));
            }
            true
        },
        (Json::Object(x), Json::Object(y)) => {
            proof {
                lemma_jv_object(*x);
                lemma_jv_object(*y);
            }
            if x.len() != y.len() {
                proof {
                    assert(obj_view(x@).len() != obj_view(y@).len());
                }
                return false;
            }
            let mut i: usize = 0;
            while i < x.len()
                invariant
                    *a == Json::Object(*x),
                    jv(*a) == JsonView::Object(obj_view(x@)),
                    jv(*b) == JsonView::Object(obj_view(y@)),
                    x.len() == y.len(),
                    i <= x.len(),
                    forall|k: int| 0 <= k < i ==> x@[k].0@ == y@[k].0@ && jv(x@[k].1) == jv(y@[k].1),
                decreases x.len() - i,
            {
                proof {
                    assert((*a)->Object_0 == *x);
                    assert(decreases_to!(*a => (*a)->Object_0));
                    assert(decreases_to!(*x => x@));
                    assert(decreases_to!(x@ => x@[i as int]));
                    assert(decreases_to!(x@[i as int] => x@[i as int].1));
                }
                if x[i].0 != y[i].0 || !json_equal(&x[i].1, &y[i].1) {
                    proof {
                        assert(obj_view(x@)[i as int] != obj_view(y@)[i as int]);
                    }
                    return false;
                }
                i = i + 1;
            }
            proof {
                assert(obj_view(x@) =~= obj_view(y@));
            }
            true
        },
        _ => false,
    }
}

/// Looking a key up skips a prefix of entries that do not hold it.
pub proof fn lemma_lookup_skip(o: Seq<(Seq<char>, JsonView)>, k: Seq<char>, i: int)
    requires
        0 <= i <= o.len(),
        forall|j: int| 0 <= j < i ==> o[j].0 != k,
    ensures
        lookup(o, k) == lookup(o.skip(i), k),
    decreases i,
{
    if i > 0 {
        assert(o[0].0 != k);
        lemma_lookup_skip(o.drop_first(), k, i - 1);
        assert(o.drop_first().skip(i - 1) =~= o.skip(i));
    } else {
        assert(o.skip(0) =~= o);
    }
}

proof fn lemma_set_member_at(o: Seq<(Seq<char>, JsonView)>, k: Seq<char>, v: JsonView, i: int)
    requires
        0 <= i <= o.len(),
        forall|j: int| 0 <= j < i ==> o[j].0 != k,
    ensures
        set_member(o, k, v) == o.take(i) + set_member(o.skip(i), k, v),
    decreases i,
{
    if i > 0 {
        assert(o[0].0 != k);
        lemma_set_member_at(o.drop_first(), k, v, i - 1);
        assert(o.drop_first().skip(i - 1) =~= o.skip(i));
        assert(o.take(i) =~= seq![o[0]] + o.drop_first().take(i - 1));
    } else {
        assert(o.skip(0) =~= o);
        assert(o.take(0) =~= Seq::<(Seq<char>, JsonView)>::empty());
    }
}

/// The position of the first entry with key `k`.
pub fn find_member(o: &Vec<(String, Json)>, k: &str) -> (r: Option<usize>)
    ensures
        match r {
            Some(i) => i < o@.len() && o@[i as int].0@ == k@ && forall|j: int| 0 <= j < i ==> o@[j].0@ != k@,
            None => forall|j: int| 0 <= j < o@.len() ==> o@[j].0@ != k@,
        },
{
    let key = owned(k);
    let mut i: usize = 0;
    while i < o.len()
        invariant
            i <= o.len(),
            key@ == k@,
            forall|j: int| 0 <= j < i ==> o@[j].0@ != k@,
        decreases o.len() - i,
    {
        if o[i].0 == key {
            return Some(i);
        }
        i = i + 1;
    }
    None
}

/// Whether the object has a member `k`.
pub fn has_member(o: &Vec<(String, Json)>, k: &str) -> (r: bool)
    ensures
        r == lookup(obj_view(o@), k@) is Some,
{
    match find_member(o, k) {
        Some(i) => {
            proof {
                lemma_lookup_skip(obj_view(o@), k@, i as int);
            }
            true
        },
        None => {
            proof {
                lemma_lookup_skip(obj_view(o@), k@, o@.len() as int);
            }
            false
        },
    }
}

/// A copy of the member `k` of an object, `null` when missing.
pub fn get_member(o: &Vec<(String, Json)>, k: &str) -> (r: Json)
    ensures
        jv(r) == member(obj_view(o@), k@),
{
    match find_member(o, k) {
        Some(i) => {
            proof {
                lemma_lookup_skip(obj_view(o@), k@, i as int);
            }
            clone_json(&o[i].1)
        },
        None => {
            proof {
                lemma_lookup_skip(obj_view(o@), k@, o@.len() as int);
            }
            Json::Null
        },
    }
}

/// Appends copies of the entries `lo..hi` of `o` to `out`.
fn copy_entries(o: &Vec<(String, Json)>, lo: usize, hi: usize, out: &mut Vec<(String, Json)>)
    requires
        lo <= hi <= o@.len(),
    ensures
        obj_view(final(out)@) == obj_view(old(out)@) + obj_view(o@).subrange(lo as int, hi as int),
{
    let mut i: usize = lo;
    let ghost start = obj_view(out@);
    while i < hi
        invariant
            lo <= i <= hi,
            hi <= o@.len(),
            obj_view(out@) == start + obj_view(o@).subrange(lo as int, i as int),
        decreases hi - i,
    {
        let key = o[i].0.clone();
        let c = clone_json(&o[i].1);
        proof {
            assert(obj_view(out@.push((key, c))) =~= obj_view(out@).push((key@, jv(c))));
            assert(obj_view(o@).subrange(lo as int, i + 1) =~= obj_view(o@).subrange(lo as int, i as int).push(
                (o@[i as int].0@, jv(o@[i as int].1)),
            ));
        }
        out.push((key, c));
        i = i + 1;
    }
}

/// A copy of the object with member `k` set to `v`.
pub fn with_member(o: &Vec<(String, Json)>, k: &str, v: Json) -> (r: Vec<(String, Json)>)
    ensures
        obj_view(r@) == set_member(obj_view(o@), k@, jv(v)),
{
    let ghost ov = obj_view(o@);
    let mut out: Vec<(String, Json)> = Vec::new();
    proof {
        assert(obj_view(out@) =~= Seq::<(Seq<char>, JsonView)>::empty());
    }
    let key = owned(k);
    let ghost vv = jv(v);
    match find_member(o, k) {
        Some(f) => {
            assert(f < o.len());
            copy_entries(o, 0, f, &mut out);
            proof {
                assert(obj_view(out@.push((key, v))) =~= obj_view(out@).push((k@, vv)));
            }
            out.push((key, v));
            copy_entries(o, f + 1, o.len(), &mut out);
            proof {
                lemma_set_member_at(ov, k@, vv, f as int);
                let s = ov.skip(f as int);
                assert(s[0].0 == k@);
                assert(set_member(s, k@, vv) =~= s.update(0, (k@, vv)));
                assert(obj_view(out@) =~= ov.take(f as int) + s.update(0, (k@, vv)));
            }
        },
        None => {
            copy_entries(o, 0, o.len(), &mut out);
            proof {
                assert(obj_view(out@.push((key, v))) =~= obj_view(out@).push((k@, vv)));
                lemma_set_member_at(ov, k@, vv, o@.len() as int);
                assert(ov.skip(o@.len() as int) =~= Seq::<(Seq<char>, JsonView)>::empty());
                assert(ov.subrange(0, o@.len() as int) =~= ov.take(o@.len() as int));
            }
            out.push((key, v));
        },
    }
    out
}

/// Reading a member just set gives the value set.
pub proof fn lemma_member_after_set(o: Seq<(Seq<char>, JsonView)>, k: Seq<char>, v: JsonView)
    ensures
        member(set_member(o, k, v), k) == v,
        lookup(set_member(o, k, v), k) == Some(v),
    decreases o.len(),
{
    let s = set_member(o, k, v);
    if o.len() == 0 {
        assert(s[0] == (k, v));
    } else if o[0].0 == k {
        assert(s[0] == (k, v));
    } else {
        lemma_member_after_set(o.drop_first(), k, v);
        assert(s[0] == o[0]);
        assert(s.drop_first() =~= set_member(o.drop_first(), k, v));
    }
}

/// Whether two objects have the same members: every key gives the same
/// value in both (the first entry of a key counting), whatever the order.
pub open spec fn same_members(a: Seq<(Seq<char>, JsonView)>, b: Seq<(Seq<char>, JsonView)>) -> bool {
    forall|k: Seq<char>| #[trigger] lookup(a, k) == lookup(b, k)
}

/// A key that is no entry's key has no value.
pub proof fn lemma_lookup_absent(o: Seq<(Seq<char>, JsonView)>, k: Seq<char>)
    requires
        forall|j: int| 0 <= j < o.len() ==> o[j].0 != k,
    ensures
        lookup(o, k) is None,
{
    lemma_lookup_skip(o, k, o.len() as int);
    assert(o.skip(o.len() as int).len() == 0);
}

/// A copy of the value of member `k`, if the object has one.
pub fn lookup_member(o: &Vec<(String, Json)>, k: &str) -> (r: Option<Json>)
    ensures
        match r {
            Some(v) => lookup(obj_view(o@), k@) == Some(jv(v)),
            None => lookup(obj_view(o@), k@) is None,
        },
{
    match find_member(o, k) {
        Some(i) => {
            proof {
                lemma_lookup_skip(obj_view(o@), k@, i as int);
                assert(obj_view(o@).skip(i as int)[0] == (o@[i as int].0@, jv(o@[i as int].1)));
            }
            Some(clone_json(&o[i].1))
        },
        None => {
            proof {
                lemma_lookup_absent(obj_view(o@), k@);
            }
            None
        },
    }
}

/// Whether every key of `a` gives the same value in `b` as in `a`.
fn members_found_in(a: &Vec<(String, Json)>, b: &Vec<(String, Json)>) -> (r: bool)
    ensures
        r <==> forall|j: int| 0 <= j < a@.len() ==> lookup(obj_view(a@), #[trigger] a@[j].0@) == lookup(
            obj_view(b@),
            a@[j].0@,
        ),
{
    let mut i: usize = 0;
    while i < a.len()
        invariant
            i <= a.len(),
            forall|j: int| 0 <= j < i ==> lookup(obj_view(a@), #[trigger] a@[j].0@) == lookup(obj_view(b@), a@[j].0@),
        decreases a.len() - i,
    {
        let k = a[i].0.as_str();
        let va = lookup_member(a, k);
        let vb = lookup_member(b, k);
        let same = match (&va, &vb) {
            (Some(x), Some(y)) => json_equal(x, y),
            (None, None) => true,
            _ => false,
        };
        if !same {
            return false;
        }
        i = i + 1;
    }
    true
}

/// Whether two objects have the same members, whatever their order.
pub fn members_equal(a: &Vec<(String, Json)>, b: &Vec<(String, Json)>) -> (r: bool)
    ensures
        r == same_members(obj_view(a@), obj_view(b@)),
{
    let ab = members_found_in(a, b);
    if !ab {
        proof {
            let j = choose|j: int| 0 <= j < a@.len() && lookup(obj_view(a@), #[trigger] a@[j].0@) != lookup(obj_view(b@), a@[j].0@);
            assert(lookup(obj_view(a@), a@[j].0@) != lookup(obj_view(b@), a@[j].0@));
        }
        return false;
    }
    let ba = members_found_in(b, a);
    if !ba {
        proof {
            let j = choose|j: int| 0 <= j < b@.len() && lookup(obj_view(b@), #[trigger] b@[j].0@) != lookup(obj_view(a@), b@[j].0@);
            assert(lookup(obj_view(a@), b@[j].0@) != lookup(obj_view(b@), b@[j].0@));
        }
        return false;
    }
    proof {
        assert forall|k: Seq<char>| #[trigger] lookup(obj_view(a@), k) == lookup(obj_view(b@), k) by {
            if exists|j: int| 0 <= j < a@.len() && a@[j].0@ == k {
                let j = choose|j: int| 0 <= j < a@.len() && a@[j].0@ == k;
                assert(lookup(obj_view(a@), a@[j].0@) == lookup(obj_view(b@), a@[j].0@));
            } else if exists|j: int| 0 <= j < b@.len() && b@[j].0@ == k {
                let j = choose|j: int| 0 <= j < b@.len() && b@[j].0@ == k;
                assert(lookup(obj_view(b@), b@[j].0@) == lookup(obj_view(a@), b@[j].0@));
            } else {
                assert forall|j: int| 0 <= j < obj_view(a@).len() implies obj_view(a@)[j].0 != k by {
                    assert(obj_view(a@)[j].0 == a@[j].0@);
                }
                assert forall|j: int| 0 <= j < obj_view(b@).len() implies obj_view(b@)[j].0 != k by {
                    assert(obj_view(b@)[j].0 == b@[j].0@);
                }
                lemma_lookup_absent(obj_view(a@), k);
                lemma_lookup_absent(obj_view(b@), k);
            }
        }
    }
    true
}

} // verus!
