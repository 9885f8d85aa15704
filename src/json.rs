//! A plain model of JSON values, as they travel inside requests and tool
//! arguments.
use vstd::prelude::*;

verus! {

/// One JSON value. A number keeps its text as it stood on the wire, so that an
/// id such as `1` or `1.5` comes back exactly as it came.
#[derive(Debug)]
pub enum JsonValue {
    Null,
    Bool(bool),
    Number(String),
    Str(String),
    Array(Vec<JsonValue>),
    Object(Vec<(String, JsonValue)>),
}

/// The value that the first member named `key` holds, if any.
pub open spec fn member(fields: Seq<(String, JsonValue)>, key: Seq<char>) -> Option<JsonValue>
    decreases fields.len(),
{
    if fields.len() == 0 {
        None
    } else if fields[0].0@ == key {
        Some(fields[0].1)
    } else {
        member(fields.drop_first(), key)
    }
}

/// The position of the first member named `key`, if any.
pub open spec fn member_index(fields: Seq<(String, JsonValue)>, key: Seq<char>) -> Option<int>
    decreases fields.len(),
{
    if fields.len() == 0 {
        None
    } else if fields[0].0@ == key {
        Some(0)
    } else {
        match member_index(fields.drop_first(), key) {
            Some(i) => Some(i + 1),
            None => None,
        }
    }
}

/// The member named `key` of an object; nothing for any other value.
pub open spec fn field(v: JsonValue, key: Seq<char>) -> Option<JsonValue> {
    match v {
        JsonValue::Object(fields) => member(fields@, key),
        _ => None,
    }
}

/// What a value holds when it is a string.
pub open spec fn str_of(v: Option<JsonValue>) -> Option<Seq<char>> {
    match v {
        Some(JsonValue::Str(s)) => Some(s@),
        _ => None,
    }
}

/// Whether a present value is `null`, or the member is missing.
pub open spec fn absent_or_null(v: Option<JsonValue>) -> bool {
    match v {
        None => true,
        Some(JsonValue::Null) => true,
        _ => false,
    }
}

proof fn lemma_member_index(fields: Seq<(String, JsonValue)>, key: Seq<char>)
    ensures
        match member_index(fields, key) {
            Some(i) => 0 <= i < fields.len() && fields[i].0@ == key
                && member(fields, key) == Some(fields[i].1)
                && forall|j: int| 0 <= j < i ==> fields[j].0@ != key,
            None => member(fields, key) is None
                && forall|j: int| 0 <= j < fields.len() ==> fields[j].0@ != key,
        },
    decreases fields.len(),
{
    if fields.len() > 0 && fields[0].0@ != key {
        lemma_member_index(fields.drop_first(), key);
        assert forall|j: int| 1 <= j < fields.len() implies fields[j].0@ == fields.drop_first()[j
            - 1].0@ by {}
    }
}

/// Finds the position of the first member named `key`.
pub fn find_member(fields: &Vec<(String, JsonValue)>, key: &str) -> (r: Option<usize>)
    ensures
        match r {
            Some(i) => member_index(fields@, key@) == Some(i as int),
            None => member_index(fields@, key@) is None,
        },
        match r {
            Some(i) => i < fields@.len() && member(fields@, key@) == Some(fields@[i as int].1),
            None => member(fields@, key@) is None,
        },
{
    proof {
        lemma_member_index(fields@, key@);
    }
    let wanted = String::from_str(key);
    let mut i: usize = 0;
    while i < fields.len()
        invariant
            0 <= i <= fields@.len(),
            wanted@ == key@,
            forall|j: int| 0 <= j < i ==> fields@[j].0@ != key@,
            match member_index(fields@, key@) {
                Some(k) => i <= k,
                None => true,
            },
        decreases fields@.len() - i,
    {
        proof {
            lemma_member_index(fields@, key@);
        }
        if fields[i].0 == wanted {
            return Some(i);
        }
        i = i + 1;
    }
    proof {
        lemma_member_index(fields@, key@);
    }
    None
}

/// Whether `a` and `b` agree down to `depth` levels of nesting: the same kind,
/// the same text, and for arrays and objects items that agree one level less
/// deep, in the same order and under the same names.
pub open spec fn same_upto(a: JsonValue, b: JsonValue, depth: nat) -> bool
    decreases depth, 0nat, 0nat,
{
    if depth == 0 {
        true
    } else {
        match a {
            JsonValue::Null => b is Null,
            JsonValue::Bool(x) => b == JsonValue::Bool(x),
            JsonValue::Number(x) => b matches JsonValue::Number(y) && x@ == y@,
            JsonValue::Str(x) => b matches JsonValue::Str(y) && x@ == y@,
            JsonValue::Array(xs) => b matches JsonValue::Array(ys) && items_upto(
                xs@,
                ys@,
                (depth - 1) as nat,
            ),
            JsonValue::Object(xs) => b matches JsonValue::Object(ys) && members_upto(
                xs@,
                ys@,
                (depth - 1) as nat,
            ),
        }
    }
}

/// Whether two item lists have the same length and agree item by item down to `depth`.
pub open spec fn items_upto(xs: Seq<JsonValue>, ys: Seq<JsonValue>, depth: nat) -> bool
    decreases depth, 1nat, xs.len(),
{
    if xs.len() == 0 {
        ys.len() == 0
    } else {
        ys.len() > 0 && same_upto(xs[0], ys[0], depth) && items_upto(
            xs.drop_first(),
            ys.drop_first(),
            depth,
        )
    }
}

/// Whether two member lists have the same names in the same order, with values
/// that agree down to `depth`.
pub open spec fn members_upto(xs: Seq<(String, JsonValue)>, ys: Seq<(String, JsonValue)>, depth: nat) -> bool
    decreases depth, 1nat, xs.len(),
{
    if xs.len() == 0 {
        ys.len() == 0
    } else {
        ys.len() > 0 && xs[0].0@ == ys[0].0@ && same_upto(xs[0].1, ys[0].1, depth)
            && members_upto(xs.drop_first(), ys.drop_first(), depth)
    }
}

/// Whether `a` and `b` hold the same JSON, at every depth.
pub open spec fn same_json(a: JsonValue, b: JsonValue) -> bool {
    forall|depth: nat| #[trigger] same_upto(a, b, depth)
}

/// Whether two members have the same name and hold the same JSON.
pub open spec fn same_member(a: (String, JsonValue), b: (String, JsonValue)) -> bool {
    a.0@ == b.0@ && same_json(a.1, b.1)
}

/// Whether two member lists have the same names in the same order, holding the same JSON.
pub open spec fn same_members(xs: Seq<(String, JsonValue)>, ys: Seq<(String, JsonValue)>) -> bool {
    xs.len() == ys.len() && forall|i: int| 0 <= i < xs.len() ==> #[trigger] same_member(xs[i], ys[i])
}

proof fn lemma_items_upto(xs: Seq<JsonValue>, ys: Seq<JsonValue>, depth: nat)
    requires
        xs.len() == ys.len(),
        forall|j: int| 0 <= j < xs.len() ==> #[trigger] same_upto(xs[j], ys[j], depth),
    ensures
        items_upto(xs, ys, depth),
    decreases xs.len(),
{
    if xs.len() > 0 {
        assert forall|j: int| 0 <= j < xs.len() - 1 implies #[trigger] same_upto(
            xs.drop_first()[j],
            ys.drop_first()[j],
            depth,
        ) by {
            assert(xs.drop_first()[j] == xs[j + 1]);
            assert(ys.drop_first()[j] == ys[j + 1]);
            assert(same_upto(xs[j + 1], ys[j + 1], depth));
        }
        lemma_items_upto(xs.drop_first(), ys.drop_first(), depth);
        assert(same_upto(xs[0], ys[0], depth));
    }
}

proof fn lemma_members_upto(xs: Seq<(String, JsonValue)>, ys: Seq<(String, JsonValue)>, depth: nat)
    requires
        xs.len() == ys.len(),
        forall|j: int| 0 <= j < xs.len() ==> #[trigger] same_member(xs[j], ys[j]),
    ensures
        members_upto(xs, ys, depth),
    decreases xs.len(),
{
    if xs.len() > 0 {
        assert forall|j: int| 0 <= j < xs.len() - 1 implies #[trigger] same_member(
            xs.drop_first()[j],
            ys.drop_first()[j],
        ) by {
            assert(xs.drop_first()[j] == xs[j + 1]);
            assert(ys.drop_first()[j] == ys[j + 1]);
            assert(same_member(xs[j + 1], ys[j + 1]));
        }
        lemma_members_upto(xs.drop_first(), ys.drop_first(), depth);
        assert(same_member(xs[0], ys[0]));
        assert(same_upto(xs[0].1, ys[0].1, depth));
    }
}

/// A copy of the members of an object.
pub fn copy_members(p: &Vec<(String, JsonValue)>) -> (r: Vec<(String, JsonValue)>)
    ensures
        same_members(p@, r@),
{
    let mut q: Vec<(String, JsonValue)> = Vec::new();
    let mut i: usize = 0;
    while i < p.len()
        invariant
            i <= p@.len(),
            q@.len() == i,
            forall|j: int| 0 <= j < i ==> #[trigger] same_member(p@[j], q@[j]),
        decreases p@.len() - i,
    {
        q.push((p[i].0.clone(), p[i].1.deep_copy()));
        i = i + 1;
    }
    q
}

/// Removing the first member named `key` leaves the members of other names as
/// they were.
proof fn lemma_member_remove(s: Seq<(String, JsonValue)>, i: int, key: Seq<char>, other: Seq<char>)
    requires
        member_index(s, key) == Some(i),
        other != key,
    ensures
        0 <= i < s.len(),
        member(s.remove(i), other) == member(s, other),
    decreases s.len(),
{
    lemma_member_index(s, key);
    if i == 0 {
        assert(s.remove(0) =~= s.drop_first());
    } else {
        let t = s.drop_first();
        assert(member_index(t, key) == Some(i - 1));
        lemma_member_remove(t, i - 1, key, other);
        assert(s.remove(i)[0] == s[0]);
        assert(s.remove(i).drop_first() =~= t.remove(i - 1));
    }
}

/// Removes the first member named `key` and hands back its value.
pub fn take_member(fields: &mut Vec<(String, JsonValue)>, key: &str) -> (r: Option<JsonValue>)
    ensures
        r == member(old(fields)@, key@),
        forall|other: Seq<char>|
            other != key@ ==> #[trigger] member(final(fields)@, other) == member(old(fields)@, other),
{
    match find_member(fields, key) {
        Some(i) => {
            let ghost before = fields@;
            let (_, v) = fields.remove(i);
            proof {
                assert forall|other: Seq<char>| other != key@ implies #[trigger] member(
                    fields@,
                    other,
                ) == member(before, other) by {
                    lemma_member_remove(before, i as int, key@, other);
                }
            }
            Some(v)
        },
        None => None,
    }
}

impl JsonValue {
    /// A copy of this value, item by item.
    pub fn deep_copy(&self) -> (r: JsonValue)
        ensures
            same_json(*self, r),
        decreases self,
    {
        match self {
            JsonValue::Null => JsonValue::Null,
            JsonValue::Bool(b) => JsonValue::Bool(*b),
            JsonValue::Number(n) => JsonValue::Number(n.clone()),
            JsonValue::Str(s) => JsonValue::Str(s.clone()),
            JsonValue::Array(xs) => {
                let mut ys: Vec<JsonValue> = Vec::new();
                let mut i: usize = 0;
                while i < xs.len()
                    invariant
                        i <= xs@.len(),
                        ys@.len() == i,
                        *self == JsonValue::Array(*xs),
                        forall|j: int| 0 <= j < i ==> #[trigger] same_json(xs@[j], ys@[j]),
                    decreases xs@.len() - i,
                {
                    proof {
                        let ghost a = JsonValue::Array(*xs);
                        assert(decreases_to!(a => a->Array_0));
                        assert(decreases_to!(*xs => xs@));
                        assert(decreases_to!(xs@ => xs@[i as int]));
                    }
                    let y = xs[i].deep_copy();
                    ys.push(y);
                    i = i + 1;
                }
                let ghost items = ys@;
                let r = JsonValue::Array(ys);
                assert forall|depth: nat| #[trigger] same_upto(*self, r, depth) by {
                    if depth > 0 {
                        let d = (depth - 1) as nat;
                        assert forall|j: int| 0 <= j < xs@.len() implies #[trigger] same_upto(
                            xs@[j],
                            items[j],
                            d,
                        ) by {
                            assert(same_json(xs@[j], items[j]));
                        }
                        lemma_items_upto(xs@, items, d);
                    }
                }
                r
            },
            JsonValue::Object(xs) => {
                let mut ys: Vec<(String, JsonValue)> = Vec::new();
                let mut i: usize = 0;
                while i < xs.len()
                    invariant
                        i <= xs@.len(),
                        ys@.len() == i,
                        *self == JsonValue::Object(*xs),
                        forall|j: int| 0 <= j < i ==> #[trigger] same_member(xs@[j], ys@[j]),
                    decreases xs@.len() - i,
                {
                    proof {
                        let ghost a = JsonValue::Object(*xs);
                        assert(decreases_to!(a => a->Object_0));
                        assert(decreases_to!(*xs => xs@));
                        assert(decreases_to!(xs@ => xs@[i as int]));
                        assert(decreases_to!(xs@[i as int] => xs@[i as int].1));
                    }
                    let y = xs[i].1.deep_copy();
                    let k = xs[i].0.clone();
                    ys.push((k, y));
                    i = i + 1;
                }
                let ghost members = ys@;
                let r = JsonValue::Object(ys);
                assert forall|depth: nat| #[trigger] same_upto(*self, r, depth) by {
                    if depth > 0 {
                        lemma_members_upto(xs@, members, (depth - 1) as nat);
                    }
                }
                r
            },
        }
    }

    /// The member named `key`, when this value is an object that has one.
    pub fn get(&self, key: &str) -> (r: Option<&JsonValue>)
        ensures
            r matches Some(v) ==> field(*self, key@) == Some(*v),
            r is None ==> field(*self, key@) is None,
    {
        match self {
            JsonValue::Object(fields) => match find_member(fields, key) {
                Some(i) => Some(&fields[i].1),
                None => None,
            },
            _ => None,
        }
    }

    /// The text of this value, when it is a string.
    pub fn as_str(&self) -> (r: Option<&String>)
        ensures
            r matches Some(s) ==> *self == JsonValue::Str(*s),
            r is None ==> !(*self is Str),
    {
        match self {
            JsonValue::Str(s) => Some(s),
            _ => None,
        }
    }
}

} // verus!
