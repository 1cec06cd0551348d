//! Composite snapshot assembly.
//!
//! A snapshot of a node is its `(text, role)` pair together with the ordered
//! `(text, role)` pairs of all its children. The surrounding program issues
//! the individual remote calls — the parent's text and role, and one text and
//! one role call per child, in any order or concurrently — and hands every
//! reply to [`assemble_snapshot`], which either assembles the whole snapshot
//! or fails as a whole: one failing inner call means no snapshot at all,
//! never a partial one.

use vstd::prelude::*;

verus! {

/// The error a snapshot assembly reports, if any: the first failing reply in
/// the order parent text, parent role, then each child in index order, the
/// child's text before its role. `None` when every reply succeeded.
pub open spec fn snapshot_error<E>(
    text: Result<String, E>,
    role: Result<String, E>,
    children: Seq<(Result<String, E>, Result<String, E>)>,
) -> Option<E>
    decreases children.len(),
{
    if text is Err {
        Some(text->Err_0)
    } else if role is Err {
        Some(role->Err_0)
    } else if children.len() == 0 {
        None
    } else if children[0].0 is Err {
        Some(children[0].0->Err_0)
    } else if children[0].1 is Err {
        Some(children[0].1->Err_0)
    } else {
        snapshot_error(text, role, children.drop_first())
    }
}

/// Assembles a composite snapshot from the replies of all the calls it is
/// made of: the parent's text and localized role name, and each child's text
/// and localized role name, in child-index order. Succeeds if and only if
/// every reply succeeded, and then pairs the parent's `(text, role)` with the
/// children's `(text, role)` pairs in their original order; any single
/// failing reply fails the whole snapshot, and the error reported is the
/// first one in order, as [`snapshot_error`] says.
#[verifier::loop_isolation(false)]
pub fn assemble_snapshot<E>(
    text: Result<String, E>,
    role: Result<String, E>,
    children: Vec<(Result<String, E>, Result<String, E>)>,
) -> (r: Result<((String, String), Vec<(String, String)>), E>)
    ensures
        r is Ok <==> {
            &&& text is Ok
            &&& role is Ok
            &&& forall|i: int|
                0 <= i < children@.len() ==> (#[trigger] children@[i]).0 is Ok
                    && children@[i].1 is Ok
        },
        r matches Ok(snap) ==> {
            &&& snap.0.0@ == text->Ok_0@
            &&& snap.0.1@ == role->Ok_0@
            &&& snap.1@.len() == children@.len()
            &&& forall|i: int|
                0 <= i < children@.len() ==> (#[trigger] snap.1@[i]).0@ == children@[i].0->Ok_0@
                    && snap.1@[i].1@ == children@[i].1->Ok_0@
        },
        r matches Err(e) ==> Some(e) == snapshot_error(text, role, children@),
{
    let ghost text_ok: Result<String, E> = text;
    let ghost role_ok: Result<String, E> = role;
    let ghost all = children@;
    let parent_text: String = match text {
        Ok(t) => t,
        Err(e) => {
            return Err(e);
        },
    };
    let parent_role: String = match role {
        Ok(t) => t,
        Err(e) => {
            return Err(e);
        },
    };
    let mut children = children;
    let mut out: Vec<(String, String)> = Vec::new();
    while children.len() > 0
        invariant
            text_ok is Ok,
            role_ok is Ok,
            out@.len() + children@.len() == all.len(),
            children@ =~= all.subrange(out@.len() as int, all.len() as int),
            snapshot_error(text_ok, role_ok, all) == snapshot_error(text_ok, role_ok, children@),
            forall|i: int|
                0 <= i < out@.len() ==> (#[trigger] all[i]).0 is Ok && all[i].1 is Ok,
            forall|i: int|
                0 <= i < out@.len() ==> (#[trigger] out@[i]).0@ == all[i].0->Ok_0@ && out@[i].1@
                    == all[i].1->Ok_0@,
        decreases children@.len(),
    {
        let ghost remaining = children@;
        let ghost done: int = out@.len() as int;
        let (child_text, child_role) = children.remove(0);
        let t: String = match child_text {
            Ok(t) => t,
            Err(e) => {
                proof {
                    assert(all[done].0 is Err);
                }
                return Err(e);
            },
        };
        let ro: String = match child_role {
            Ok(t) => t,
            Err(e) => {
                proof {
                    assert(all[done].1 is Err);
                }
                return Err(e);
            },
        };
        out.push((t, ro));
    }
    Ok(((parent_text, parent_role), out))
}

} // verus!
