use vstd::prelude::*;

verus! {

/// A JSON document as the response parser reads it. Numbers are held rounded
/// to the nearest whole value, halfway cases away from zero.
#[derive(Debug)]
pub enum Json {
    Null,
    Bool(bool),
    Number(i64),
    Str(String),
    Array(Vec<Json>),
    Object(Vec<(String, Json)>),
}

/// One step of a path into a document: a member name or an array position.
#[derive(Debug)]
pub enum Step {
    Key(String),
    Index(usize),
}

/// The mathematical form of a `Step`.
pub enum PathStep {
    Key(Seq<char>),
    Index(nat),
}

impl View for Step {
    type V = PathStep;

    open spec fn view(&self) -> PathStep {
        match self {
            Step::Key(k) => PathStep::Key(k@),
            Step::Index(i) => PathStep::Index(*i as nat),
        }
    }
}

pub open spec fn path_view(p: Seq<Step>) -> Seq<PathStep> {
    p.map_values(|s: Step| s@)
}

/// The value of the first member of `entries` named `key`.
pub open spec fn member(entries: Seq<(String, Json)>, key: Seq<char>) -> Option<Json>
    decreases entries.len(),
{
    if entries.len() == 0 {
        None
    } else if entries[0].0@ == key {
        Some(entries[0].1)
    } else {
        member(entries.drop_first(), key)
    }
}

/// What one step leads to from `v`: absent where `v` has no such member or element.
pub open spec fn child(v: Json, s: PathStep) -> Option<Json> {
    match s {
        PathStep::Key(k) => match v {
            Json::Object(es) => member(es@, k),
            _ => None,
        },
        PathStep::Index(i) => match v {
            Json::Array(xs) => if i < xs@.len() {
                Some(xs@[i as int])
            } else {
                None
            },
            _ => None,
        },
    }
}

/// What `path` leads to from `v`.
pub open spec fn at_path(v: Json, path: Seq<PathStep>) -> Option<Json>
    decreases path.len(),
{
    if path.len() == 0 {
        Some(v)
    } else {
        match child(v, path[0]) {
            Some(c) => at_path(c, path.drop_first()),
            None => None,
        }
    }
}

fn find_member<'a>(entries: &'a Vec<(String, Json)>, key: &String) -> (r: Option<&'a Json>)
    ensures
        match r {
            Some(c) => member(entries@, key@) == Some(*c),
            None => member(entries@, key@) is None,
        },
{
    let mut i: usize = 0;
    assert(entries@.subrange(0, entries.len() as int) =~= entries@);
    while i < entries.len()
        invariant
            i <= entries.len(),
            member(entries@, key@) == member(entries@.subrange(i as int, entries.len() as int), key@),
        decreases entries.len() - i,
    {
        assert(entries@.subrange(i as int, entries.len() as int).drop_first() =~= entries@.subrange(
            i + 1,
            entries.len() as int,
        ));
        if entries[i].0 == *key {
            return Some(&entries[i].1);
        }
        i = i + 1;
    }
    None
}

impl Json {
    /// What one step leads to from this value.
    pub fn child(&self, s: &Step) -> (r: Option<&Json>)
        ensures
            match r {
                Some(c) => child(*self, s@) == Some(*c),
                None => child(*self, s@) is None,
            },
    {
        match s {
            Step::Key(k) => match self {
                Json::Object(es) => find_member(es, k),
                _ => None,
            },
            Step::Index(i) => match self {
                Json::Array(xs) => if *i < xs.len() {
                    Some(&xs[*i])
                } else {
                    None
                },
                _ => None,
            },
        }
    }

    /// What `path` leads to from this value.
    pub fn at(&self, path: &Vec<Step>) -> (r: Option<&Json>)
        ensures
            match r {
                Some(c) => at_path(*self, path_view(path@)) == Some(*c),
                None => at_path(*self, path_view(path@)) is None,
            },
    {
        let ghost whole = path_view(path@);
        let mut cur: &Json = self;
        let mut i: usize = 0;
        assert(whole.subrange(0, whole.len() as int) =~= whole);
        while i < path.len()
            invariant
                i <= path.len(),
                whole == path_view(path@),
                at_path(*self, whole) == at_path(*cur, whole.subrange(i as int, whole.len() as int)),
            decreases path.len() - i,
        {
            let ghost rest = whole.subrange(i as int, whole.len() as int);
            assert(rest.drop_first() =~= whole.subrange(i + 1, whole.len() as int));
            assert(rest[0] == path@[i as int]@);
            match cur.child(&path[i]) {
                Some(c) => {
                    cur = c;
                },
                None => {
                    return None;
                },
            }
            i = i + 1;
        }
        assert(whole.subrange(i as int, whole.len() as int) =~= Seq::<PathStep>::empty());
        Some(cur)
    }
}

} // verus!
