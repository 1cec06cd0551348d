//! Node handles: typed references to remote accessibility objects.
//!
//! A node is addressed by its identity, an `(endpoint, path)` pair of strings
//! compared by exact equality. A handle adds a per-call deadline and a shared,
//! reference-counted connection handle; many handles multiplex one connection.

use vstd::prelude::*;
use std::sync::Arc;

verus! {

use crate::TIMEOUT_MS;

/// Endpoint name of the reserved "no such child" identity.
pub open spec fn registry_endpoint() -> Seq<char> {
    "org.a11y.atspi.Registry"@
}

/// Object path of the reserved "no such child" identity.
pub open spec fn null_path() -> Seq<char> {
    "/org/a11y/atspi/null"@
}

/// Whether an `(endpoint, path)` reply names the null-child sentinel: the
/// reserved identity meaning "this index has no child", which is a protocol
/// convention and not an error.
pub open spec fn is_null_child_spec(endpoint: Seq<char>, path: Seq<char>) -> bool {
    endpoint == registry_endpoint() && path == null_path()
}

/// Decides whether a reply pair is the null-child sentinel, by exact string
/// equality against the two reserved literals.
pub fn is_null_child(endpoint: &String, path: &String) -> (r: bool)
    ensures
        r == is_null_child_spec(endpoint@, path@),
{
    let registry: String = "org.a11y.atspi.Registry".to_owned();
    let null: String = "/org/a11y/atspi/null".to_owned();
    *endpoint == registry && *path == null
}

/// Relies on std's `Arc::clone`: the returned handle refers to the same
/// shared value as the argument.
#[verifier::external_body]
pub(crate) fn share_connection<C>(c: &Arc<C>) -> (r: Arc<C>)
    ensures
        r == *c,
{
    Arc::clone(c)
}

/// Handle to one remote accessibility object: its identity, the deadline
/// carried by every call made through it, and the shared connection.
/// The connection type is whatever transport the surrounding program uses;
/// this logic never looks inside it, it only shares the handle.
pub struct Accessible<C> {
    /// Endpoint (bus name) half of the node identity.
    pub endpoint: String,
    /// Object-path half of the node identity.
    pub path: String,
    /// Per-call deadline in milliseconds.
    pub timeout_ms: u64,
    /// Shared connection handle; never exclusively owned by one node.
    pub conn: Arc<C>,
}

/// Handle to the text interface of one remote object; same identity model
/// as [`Accessible`].
pub struct Text<C> {
    /// Endpoint (bus name) half of the node identity.
    pub endpoint: String,
    /// Object-path half of the node identity.
    pub path: String,
    /// Per-call deadline in milliseconds.
    pub timeout_ms: u64,
    /// Shared connection handle.
    pub conn: Arc<C>,
}

impl<C> Text<C> {
    /// Constructs a text-interface handle with an explicit deadline.
    pub fn with_timeout(endpoint: String, path: String, conn: Arc<C>, timeout_ms: u64) -> (t: Self)
        ensures
            t.endpoint@ == endpoint@,
            t.path@ == path@,
            t.timeout_ms == timeout_ms,
            t.conn == conn,
    {
        Text { endpoint, path, timeout_ms, conn }
    }
}

impl<C> Accessible<C> {
    /// Constructs a node handle with an explicit deadline.
    pub fn with_timeout(endpoint: String, path: String, conn: Arc<C>, timeout_ms: u64) -> (a: Self)
        ensures
            a.endpoint@ == endpoint@,
            a.path@ == path@,
            a.timeout_ms == timeout_ms,
            a.conn == conn,
    {
        Accessible { endpoint, path, timeout_ms, conn }
    }

    /// Constructs a node handle with the default deadline.
    pub fn new(endpoint: String, path: String, conn: Arc<C>) -> (a: Self)
        ensures
            a.endpoint@ == endpoint@,
            a.path@ == path@,
            a.timeout_ms == TIMEOUT_MS,
            a.conn == conn,
    {
        Self::with_timeout(endpoint, path, conn, TIMEOUT_MS)
    }

    /// Turns the reply of one child-at-index call into its result: `None`
    /// when the reply is the null-child sentinel, otherwise a child handle
    /// that carries the reply's identity, this handle's deadline, and this
    /// handle's shared connection.
    pub fn child_from_reply(&self, endpoint: String, path: String) -> (r: Option<Accessible<C>>)
        ensures
            r is None <==> is_null_child_spec(endpoint@, path@),
            r matches Some(c) ==> {
                &&& c.endpoint@ == endpoint@
                &&& c.path@ == path@
                &&& !is_null_child_spec(c.endpoint@, c.path@)
                &&& c.timeout_ms == self.timeout_ms
                &&& c.conn == self.conn
            },
    {
        if is_null_child(&endpoint, &path) {
            None
        } else {
            Some(Accessible::with_timeout(endpoint, path, share_connection(&self.conn), self.timeout_ms))
        }
    }

    /// Turns the reply of one bulk get-children call into child handles, one
    /// per reply pair in the reply's order, each sharing this handle's
    /// connection and deadline. Unlike [`Self::child_from_reply`], this does
    /// not filter the null-child sentinel: a sentinel pair reported by the
    /// remote object becomes a handle like any other.
    pub fn children_from_reply(&self, pairs: Vec<(String, String)>) -> (r: Vec<Accessible<C>>)
        ensures
            r@.len() == pairs@.len(),
            forall|i: int| 0 <= i < pairs@.len() ==> {
                &&& (#[trigger] r@[i]).endpoint@ == pairs@[i].0@
                &&& r@[i].path@ == pairs@[i].1@
                &&& r@[i].timeout_ms == self.timeout_ms
                &&& r@[i].conn == self.conn
            },
    {
        let mut pairs = pairs;
        let ghost all = pairs@;
        let mut out: Vec<Accessible<C>> = Vec::new();
        while pairs.len() > 0
            invariant
                out@.len() + pairs@.len() == all.len(),
                pairs@ =~= all.subrange(out@.len() as int, all.len() as int),
                forall|i: int| 0 <= i < out@.len() ==> {
                    &&& (#[trigger] out@[i]).endpoint@ == all[i].0@
                    &&& out@[i].path@ == all[i].1@
                    &&& out@[i].timeout_ms == self.timeout_ms
                    &&& out@[i].conn == self.conn
                },
            decreases pairs@.len(),
        {
            let (endpoint, path) = pairs.remove(0);
            out.push(Accessible::with_timeout(endpoint, path, share_connection(&self.conn), self.timeout_ms));
        }
        out
    }
}

} // verus!
