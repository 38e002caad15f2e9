//! The resources the server installs: how their definition files are named
//! and how they are patched into a namespace.
use vstd::prelude::*;
use crate::identity::ascii_kube_id;
use crate::text::{all_ascii, ascii_lower, concat, is_ascii_alnum, is_ascii_char, push_char, to_chars, to_lowercase};

verus! {

fn is_ascii_alnum_char(c: char) -> (b: bool)
    ensures
        b == is_ascii_alnum(c),
{
    ('a' <= c && c <= 'z') || ('A' <= c && c <= 'Z') || ('0' <= c && c <= '9')
}

/// The name of a definition file as a key: every character that is not an
/// ASCII letter or digit becomes `-`, and letters are lowercased.
pub fn safe_name(s: &str) -> (r: String)
    ensures
        r@ == ascii_kube_id(s@),
{
    let v = to_chars(s);
    let mut t = String::new();
    let mut i: usize = 0;
    while i < v.len()
        invariant
            i <= v.len(),
            v@ == s@,
            t@.len() == i,
            forall|k: int| 0 <= k < i ==> #[trigger] t@[k] == (if is_ascii_alnum(v@[k]) { v@[k] } else { '-' }),
        decreases v.len() - i,
    {
        let c = v[i];
        if is_ascii_alnum_char(c) {
            push_char(&mut t, c);
        } else {
            push_char(&mut t, '-');
        }
        i = i + 1;
    }
    assert(all_ascii(t@)) by {
        assert forall|k: int| 0 <= k < t@.len() implies is_ascii_char(#[trigger] t@[k]) by {
            if is_ascii_alnum(v@[k]) {
            }
        }
    }
    let r = to_lowercase(t.as_str());
    assert(r@ =~= ascii_kube_id(s@)) by {
        assert forall|k: int| 0 <= k < s@.len() implies r@[k] == ascii_kube_id(s@)[k] by {
            assert(ascii_lower(t@)[k] == crate::text::ascii_lower_char(t@[k]));
        }
    }
    r
}

/// One operation of a JSON patch.
pub struct PatchOp {
    pub op: String,
    pub path: String,
    pub value: String,
}

/// The path of the namespace of definition `name`.
pub open spec fn namespace_path(name: Seq<char>) -> Seq<char> {
    "/"@ + ascii_kube_id(name) + "/metadata/namespace"@
}

/// The operations that move the definitions named `names` into
/// `namespace`: the namespace of each is added, and the subject of the
/// role binding is replaced.
pub fn namespace_patches(names: &Vec<String>, namespace: &str) -> (r: Vec<PatchOp>)
    ensures
        r@.len() == names@.len() + 1,
        forall|i: int|
            0 <= i < names@.len() ==> {
                &&& #[trigger] r@[i].op@ == "add"@
                &&& r@[i].path@ == namespace_path(names@[i]@)
                &&& r@[i].value@ == namespace@
            },
        r@[names@.len() as int].op@ == "replace"@,
        r@[names@.len() as int].path@ == "/binding-yaml/subjects/0/namespace"@,
        r@[names@.len() as int].value@ == namespace@,
{
    let mut r: Vec<PatchOp> = Vec::new();
    let mut i: usize = 0;
    while i < names.len()
        invariant
            i <= names.len(),
            r@.len() == i,
            forall|k: int|
                0 <= k < i ==> {
                    &&& #[trigger] r@[k].op@ == "add"@
                    &&& r@[k].path@ == namespace_path(names@[k]@)
                    &&& r@[k].value@ == namespace@
                },
        decreases names.len() - i,
    {
        let safe = safe_name(names[i].as_str());
        let a = concat("/", safe.as_str());
        let path = concat(a.as_str(), "/metadata/namespace");
        r.push(PatchOp { op: "add".to_string(), path, value: namespace.to_string() });
        i = i + 1;
    }
    r.push(PatchOp {
        op: "replace".to_string(),
        path: "/binding-yaml/subjects/0/namespace".to_string(),
        value: namespace.to_string(),
    });
    r
}

/// The operation that stores the server's private key (`encoded`, already
/// in base64) in its secret.
pub fn key_patch(encoded: String) -> (r: PatchOp)
    ensures
        r.op@ == "add"@,
        r.path@ == "/key-yaml/data/id_ed25519"@,
        r.value == encoded,
{
    PatchOp { op: "add".to_string(), path: "/key-yaml/data/id_ed25519".to_string(), value: encoded }
}

/// The values of the successes, in order.
pub open spec fn oks<T, E>(s: Seq<Result<T, E>>) -> Seq<T>
    decreases s.len(),
{
    if s.len() == 0 {
        Seq::empty()
    } else {
        match s.last() {
            Ok(t) => oks(s.drop_last()).push(t),
            Err(_) => oks(s.drop_last()),
        }
    }
}

/// The errors of the failures, in order.
pub open spec fn errs<T, E>(s: Seq<Result<T, E>>) -> Seq<E>
    decreases s.len(),
{
    if s.len() == 0 {
        Seq::empty()
    } else {
        match s.last() {
            Ok(_) => errs(s.drop_last()),
            Err(e) => errs(s.drop_last()).push(e),
        }
    }
}

/// The outcome of creating or updating the definitions: every one that was
/// made, or, where any failed, every failure.
pub fn creation_outcome<T, E>(results: Vec<Result<T, E>>) -> (r: Result<Vec<T>, Vec<E>>)
    ensures
        errs(results@).len() == 0 ==> (r matches Ok(v) && v@ == oks(results@)),
        errs(results@).len() > 0 ==> (r matches Err(v) && v@ == errs(results@)),
{
    let ghost all = results@;
    let mut results = results;
    let mut made: Vec<T> = Vec::new();
    let mut failed: Vec<E> = Vec::new();
    let mut i: usize = 0;
    let n: usize = results.len();
    assert(all.take(0) =~= Seq::<Result<T, E>>::empty());
    while results.len() > 0
        invariant
            i + results.len() == n,
            n == all.len(),
            results@ == all.skip(i as int),
            made@ == oks(all.take(i as int)),
            failed@ == errs(all.take(i as int)),
        decreases results.len(),
    {
        let x = results.remove(0);
        assert(x == all[i as int]);
        assert(all.take(i as int + 1).drop_last() == all.take(i as int));
        assert(all.take(i as int + 1).last() == x);
        assert(results@ =~= all.skip(i as int + 1));
        match x {
            Ok(t) => made.push(t),
            Err(e) => failed.push(e),
        }
        i = i + 1;
    }
    assert(all.take(i as int) == all);
    if failed.len() == 0 {
        Ok(made)
    } else {
        Err(failed)
    }
}

/// How a definition is put on the cluster: replaced in full when updating,
/// created otherwise.
pub enum CreateStep {
    Apply,
    Create,
}

pub fn create_step(update: bool) -> (r: CreateStep)
    ensures
        update ==> r is Apply,
        !update ==> r is Create,
{
    if update {
        CreateStep::Apply
    } else {
        CreateStep::Create
    }
}

} // verus!
