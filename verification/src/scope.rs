//! AVM2 scope chain resolution.
//!
//! A name is looked up from the innermost scope outwards. A scope answers
//! when the name is one of its object's traits; its dynamic properties are
//! searched too when it is a `with` scope or the global scope at depth 0.
//! What an object answers is handed in as a [`Lookup`] per scope.
use vstd::prelude::*;
use crate::value::{AvmError, ObjectId};

verus! {

/// The identity of an application domain.
#[derive(Clone, Copy, Debug, PartialEq, Eq, Structural)]
pub struct DomainId(pub u64);

/// A scope that can stand on a `ScopeChain` or a local `ScopeStack`.
#[derive(Clone, Copy, Debug, PartialEq, Eq, Structural)]
pub struct Scope {
    /// The underlying object of this scope.
    values: ObjectId,
    /// Whether this is a `with` scope, whose dynamic properties are searched.
    with: bool,
}

/// What the object of one scope answers for the name being resolved.
#[derive(Clone, Copy, Debug, PartialEq, Eq, Structural)]
pub struct Lookup {
    /// The name is one of the object's traits.
    pub has_trait: bool,
    /// The name is one of the object's own dynamic properties.
    pub has_own_property: bool,
}

impl Scope {
    pub closed spec fn spec_values(self) -> ObjectId {
        self.values
    }

    pub closed spec fn spec_with(self) -> bool {
        self.with
    }

    /// A regular scope.
    pub fn new(values: ObjectId) -> (s: Scope)
        ensures
            s.spec_values() == values,
            !s.spec_with(),
    {
        Scope { values, with: false }
    }

    /// A `with` scope.
    pub fn new_with(values: ObjectId) -> (s: Scope)
        ensures
            s.spec_values() == values,
            s.spec_with(),
    {
        Scope { values, with: true }
    }

    pub fn with(&self) -> (r: bool)
        ensures
            r == self.spec_with(),
    {
        self.with
    }

    pub fn values(&self) -> (r: ObjectId)
        ensures
            r == self.spec_values(),
    {
        self.values
    }
}

/// Whether the scope at `depth` answers for the name. Dynamic properties
/// are searched in `with` scopes, and at depth 0 when `global` holds.
pub open spec fn scope_answers(s: Scope, l: Lookup, depth: int, global: bool) -> bool {
    l.has_trait || ((s.spec_with() || (global && depth == 0)) && l.has_own_property)
}

/// The depth of the innermost scope that answers, if any.
pub open spec fn innermost_answer(scopes: Seq<Scope>, looks: Seq<Lookup>, global: bool) -> Option<
    int,
>
    decreases scopes.len(),
{
    if scopes.len() == 0 {
        None
    } else {
        let d = scopes.len() - 1;
        if scope_answers(scopes[d], looks[d], d, global) {
            Some(d)
        } else {
            innermost_answer(scopes.drop_last(), looks.drop_last(), global)
        }
    }
}

/// The object found in `scopes`, if any scope answers.
pub open spec fn found_in(scopes: Seq<Scope>, looks: Seq<Lookup>, global: bool) -> Option<ObjectId> {
    match innermost_answer(scopes, looks, global) {
        Some(d) => Some(scopes[d].spec_values()),
        None => None,
    }
}

/// A chain of scopes, remembered when a function closes over it, with the
/// domain that was in use when it was first made.
#[derive(Clone, Debug)]
pub struct ScopeChain {
    scopes: Option<Vec<Scope>>,
    domain: DomainId,
}

impl View for ScopeChain {
    type V = Seq<Scope>;

    closed spec fn view(&self) -> Seq<Scope> {
        match self.scopes {
            Some(v) => v@,
            None => Seq::empty(),
        }
    }
}

/// Appends `new_scopes` to the end of `out`.
fn push_all(out: &mut Vec<Scope>, new_scopes: &[Scope])
    ensures
        final(out)@ == old(out)@ + new_scopes@,
{
    let mut i: usize = 0;
    while i < new_scopes.len()
        invariant
            i <= new_scopes@.len(),
            out@ == old(out)@ + new_scopes@.subrange(0, i as int),
        decreases new_scopes@.len() - i,
    {
        out.push(new_scopes[i]);
        i = i + 1;
        assert(new_scopes@.subrange(0, i as int) == new_scopes@.subrange(0, i - 1).push(
            new_scopes@[i - 1],
        ));
    }
    assert(new_scopes@.subrange(0, new_scopes@.len() as int) == new_scopes@);
}

impl ScopeChain {
    pub closed spec fn spec_domain(&self) -> DomainId {
        self.domain
    }

    /// An empty chain bound to `domain`.
    pub fn new(domain: DomainId) -> (c: ScopeChain)
        ensures
            c@ == Seq::<Scope>::empty(),
            c.spec_domain() == domain,
    {
        ScopeChain { scopes: None, domain }
    }

    /// A new chain holding the scopes of this one with `new_scopes` on top,
    /// in the same domain. Chaining nothing gives this chain back.
    pub fn chain(&self, new_scopes: &[Scope]) -> (c: ScopeChain)
        ensures
            c@ == self@ + new_scopes@,
            c.spec_domain() == self.spec_domain(),
    {
        if new_scopes.len() == 0 {
            return ScopeChain { scopes: self.scopes.clone(), domain: self.domain };
        }
        match &self.scopes {
            Some(scopes) => {
                let mut cloned: Vec<Scope> = Vec::new();
                push_all(&mut cloned, scopes.as_slice());
                push_all(&mut cloned, new_scopes);
                ScopeChain { scopes: Some(cloned), domain: self.domain }
            },
            None => {
                let mut fresh: Vec<Scope> = Vec::new();
                push_all(&mut fresh, new_scopes);
                assert(fresh@ == Seq::<Scope>::empty() + new_scopes@);
                ScopeChain { scopes: Some(fresh), domain: self.domain }
            },
        }
    }

    pub fn get(&self, index: usize) -> (r: Option<Scope>)
        ensures
            r == (if index < self@.len() {
                Some(self@[index as int])
            } else {
                None
            }),
    {
        match &self.scopes {
            Some(scopes) => {
                if index < scopes.len() {
                    Some(scopes[index])
                } else {
                    None
                }
            },
            None => None,
        }
    }

    pub fn is_empty(&self) -> (r: bool)
        ensures
            r == (self@.len() == 0),
    {
        match &self.scopes {
            Some(scopes) => scopes.len() == 0,
            None => true,
        }
    }

    /// The domain this chain is bound to.
    pub fn domain(&self) -> (d: DomainId)
        ensures
            d == self.spec_domain(),
    {
        self.domain
    }

    /// The object that holds the name: the innermost scope that answers
    /// (the global scope at depth 0 searched for dynamic properties too),
    /// else what the domain's defining script gives, `domain_result`.
    pub fn find(&self, looks: &Vec<Lookup>, domain_result: Result<Option<ObjectId>, AvmError>) -> (r:
        Result<Option<ObjectId>, AvmError>)
        requires
            looks@.len() == self@.len(),
        ensures
            r == (match found_in(self@, looks@, true) {
                Some(o) => Ok(Some(o)),
                None => domain_result,
            }),
    {
        match &self.scopes {
            Some(scopes) => match find_innermost(scopes, looks, true) {
                Some(o) => Ok(Some(o)),
                None => domain_result,
            },
            None => domain_result,
        }
    }
}

/// The depth that the search gives lies within the scopes.
proof fn lemma_answer_in_range(scopes: Seq<Scope>, looks: Seq<Lookup>, global: bool)
    ensures
        innermost_answer(scopes, looks, global) matches Some(d) ==> 0 <= d < scopes.len(),
    decreases scopes.len(),
{
    if scopes.len() > 0 {
        lemma_answer_in_range(scopes.drop_last(), looks.drop_last(), global);
    }
}

/// Searches `scopes` from the innermost one outwards.
fn find_innermost(scopes: &Vec<Scope>, looks: &Vec<Lookup>, global: bool) -> (r: Option<ObjectId>)
    requires
        looks@.len() == scopes@.len(),
    ensures
        r == found_in(scopes@, looks@, global),
{
    let mut depth = scopes.len();
    assert(scopes@.subrange(0, depth as int) == scopes@);
    assert(looks@.subrange(0, depth as int) == looks@);
    while depth > 0
        invariant
            depth <= scopes@.len(),
            looks@.len() == scopes@.len(),
            found_in(scopes@, looks@, global) == found_in(
                scopes@.subrange(0, depth as int),
                looks@.subrange(0, depth as int),
                global,
            ),
        decreases depth,
    {
        let d = depth - 1;
        let scope = scopes[d];
        let look = looks[d];
        let ghost s = scopes@.subrange(0, depth as int);
        let ghost l = looks@.subrange(0, depth as int);
        assert(s.drop_last() == scopes@.subrange(0, d as int));
        assert(l.drop_last() == looks@.subrange(0, d as int));
        if look.has_trait || ((scope.with || (global && d == 0)) && look.has_own_property) {
            assert(innermost_answer(s, l, global) == Some(d as int));
            return Some(scope.values);
        }
        proof {
            lemma_answer_in_range(s.drop_last(), l.drop_last(), global);
        }
        depth = d;
    }
    assert(scopes@.subrange(0, 0) == Seq::<Scope>::empty());
    None
}

/// The scopes of one activation, which it pushes and pops as it runs.
#[derive(Clone, Debug)]
pub struct ScopeStack {
    scopes: Vec<Scope>,
}

impl View for ScopeStack {
    type V = Seq<Scope>;

    closed spec fn view(&self) -> Seq<Scope> {
        self.scopes@
    }
}

impl ScopeStack {
    pub fn new() -> (s: ScopeStack)
        ensures
            s@ == Seq::<Scope>::empty(),
    {
        ScopeStack { scopes: Vec::new() }
    }

    pub fn clear(&mut self)
        ensures
            final(self)@ == Seq::<Scope>::empty(),
    {
        self.scopes.clear();
    }

    pub fn push(&mut self, scope: Scope)
        ensures
            final(self)@ == old(self)@.push(scope),
    {
        self.scopes.push(scope);
    }

    pub fn pop(&mut self) -> (r: Option<Scope>)
        ensures
            old(self)@.len() == 0 ==> r is None && final(self)@ == old(self)@,
            old(self)@.len() > 0 ==> r == Some(old(self)@.last()) && final(self)@
                == old(self)@.drop_last(),
    {
        self.scopes.pop()
    }

    pub fn get(&self, index: usize) -> (r: Option<Scope>)
        ensures
            r == (if index < self@.len() {
                Some(self@[index as int])
            } else {
                None
            }),
    {
        if index < self.scopes.len() {
            Some(self.scopes[index])
        } else {
            None
        }
    }

    pub fn scopes(&self) -> (r: &[Scope])
        ensures
            r@ == self@,
    {
        self.scopes.as_slice()
    }

    /// The innermost scope's object that holds the name. `global` tells
    /// whether this is a script initializer, whose scope at depth 0 is the
    /// global scope and is searched for dynamic properties.
    pub fn find(&self, looks: &Vec<Lookup>, global: bool) -> (r: Result<Option<ObjectId>, AvmError>)
        requires
            looks@.len() == self@.len(),
        ensures
            r == Ok::<Option<ObjectId>, AvmError>(found_in(self@, looks@, global)),
    {
        Ok(find_innermost(&self.scopes, looks, global))
    }
}

/// Chaining `a` and then `b` on top of a chain holds the same scopes as
/// chaining `a` followed by `b` at once.
pub proof fn law_chain_in_steps(base: Seq<Scope>, a: Seq<Scope>, b: Seq<Scope>)
    ensures
        (base + a) + b == base + (a + b),
{
    assert((base + a) + b =~= base + (a + b));
}

/// Pushing a scope and popping it gives that scope back and leaves the stack
/// as it was.
pub proof fn law_push_pop(stack: Seq<Scope>, s: Scope)
    ensures
        stack.push(s).len() > 0,
        stack.push(s).last() == s,
        stack.push(s).drop_last() == stack,
{
    assert(stack.push(s).drop_last() =~= stack);
}

/// Scopes pushed on top shadow those below: when one of the top scopes
/// answers on its own, the search ends there, whatever lies beneath.
pub proof fn law_top_scopes_shadow(
    base: Seq<Scope>,
    base_looks: Seq<Lookup>,
    top: Seq<Scope>,
    top_looks: Seq<Lookup>,
    global: bool,
)
    requires
        base_looks.len() == base.len(),
        top_looks.len() == top.len(),
        base.len() > 0,
        innermost_answer(top, top_looks, false) is Some,
    ensures
        innermost_answer(base + top, base_looks + top_looks, global) == Some(
            base.len() + innermost_answer(top, top_looks, false)->0,
        ),
    decreases top.len(),
{
    let d = top.len() - 1;
    let s = base + top;
    let l = base_looks + top_looks;
    assert(s[s.len() - 1] == top[d]);
    assert(l[l.len() - 1] == top_looks[d]);
    if !scope_answers(top[d], top_looks[d], d, false) {
        assert(s.drop_last() =~= base + top.drop_last());
        assert(l.drop_last() =~= base_looks + top_looks.drop_last());
        law_top_scopes_shadow(base, base_looks, top.drop_last(), top_looks.drop_last(), global);
    }
}

/// When none of the top scopes answers, the search falls through to the
/// scopes beneath as if the top ones were not there.
pub proof fn law_search_falls_through(
    base: Seq<Scope>,
    base_looks: Seq<Lookup>,
    top: Seq<Scope>,
    top_looks: Seq<Lookup>,
    global: bool,
)
    requires
        base_looks.len() == base.len(),
        top_looks.len() == top.len(),
        base.len() > 0,
        innermost_answer(top, top_looks, false) is None,
    ensures
        innermost_answer(base + top, base_looks + top_looks, global) == innermost_answer(
            base,
            base_looks,
            global,
        ),
    decreases top.len(),
{
    let s = base + top;
    let l = base_looks + top_looks;
    if top.len() == 0 {
        assert(s =~= base);
        assert(l =~= base_looks);
    } else {
        let d = top.len() - 1;
        assert(s[s.len() - 1] == top[d]);
        assert(l[l.len() - 1] == top_looks[d]);
        assert(s.drop_last() =~= base + top.drop_last());
        assert(l.drop_last() =~= base_looks + top_looks.drop_last());
        law_search_falls_through(base, base_looks, top.drop_last(), top_looks.drop_last(), global);
    }
}

/// Every scope answers for the traits of its object, whatever kind of
/// scope it is, and a `with` scope (or the global scope of a script
/// initializer, at depth 0) also answers for its object's own dynamic
/// properties: when the scope at depth `d` holds the name in one of these
/// ways, the search finds an object at depth `d` or above, and when that
/// scope is the innermost one, it finds that scope's object.
pub proof fn law_holding_scopes_answer(scopes: Seq<Scope>, looks: Seq<Lookup>, global: bool, d: int)
    requires
        looks.len() == scopes.len(),
        0 <= d < scopes.len(),
        looks[d].has_trait || ((scopes[d].spec_with() || (global && d == 0))
            && looks[d].has_own_property),
    ensures
        innermost_answer(scopes, looks, global) matches Some(e) && d <= e < scopes.len(),
        d == scopes.len() - 1 ==> found_in(scopes, looks, global) == Some(scopes[d].spec_values()),
    decreases scopes.len(),
{
    let last = scopes.len() - 1;
    if d < last && !scope_answers(scopes[last], looks[last], last, global) {
        assert(scopes.drop_last()[d] == scopes[d]);
        assert(looks.drop_last()[d] == looks[d]);
        law_holding_scopes_answer(scopes.drop_last(), looks.drop_last(), global, d);
    }
}

} // verus!
