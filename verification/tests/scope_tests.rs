use ruffle::scope::{DomainId, Lookup, Scope, ScopeChain, ScopeStack};
use ruffle::value::{AvmError, ObjectId};

const MISS: Lookup = Lookup { has_trait: false, has_own_property: false };
const TRAIT: Lookup = Lookup { has_trait: true, has_own_property: false };
const DYNAMIC: Lookup = Lookup { has_trait: false, has_own_property: true };

#[test]
fn scope_constructors() {
    let s = Scope::new(ObjectId(3));
    assert_eq!(s.values(), ObjectId(3));
    assert!(!s.with());
    let w = Scope::new_with(ObjectId(4));
    assert_eq!(w.values(), ObjectId(4));
    assert!(w.with());
}

#[test]
fn chains_append_and_keep_their_domain() {
    let base = ScopeChain::new(DomainId(9));
    assert!(base.is_empty());
    assert_eq!(base.get(0), None);
    let a = base.chain(&[Scope::new(ObjectId(1)), Scope::new(ObjectId(2))]);
    let b = a.chain(&[Scope::new_with(ObjectId(3))]);
    assert!(!b.is_empty());
    assert_eq!(b.domain(), DomainId(9));
    assert_eq!(b.get(0), Some(Scope::new(ObjectId(1))));
    assert_eq!(b.get(2), Some(Scope::new_with(ObjectId(3))));
    assert_eq!(b.get(3), None);
    let direct = base.chain(&[
        Scope::new(ObjectId(1)),
        Scope::new(ObjectId(2)),
        Scope::new_with(ObjectId(3)),
    ]);
    for i in 0..4 {
        assert_eq!(b.get(i), direct.get(i));
    }
    let empty = a.chain(&[]);
    assert_eq!(empty.get(1), Some(Scope::new(ObjectId(2))));
}

#[test]
fn chain_find_prefers_the_innermost_answer() {
    let chain = ScopeChain::new(DomainId(0)).chain(&[
        Scope::new(ObjectId(10)),
        Scope::new(ObjectId(11)),
        Scope::new(ObjectId(12)),
    ]);
    let r = chain.find(&vec![TRAIT, TRAIT, MISS], Ok(Some(ObjectId(99))));
    assert_eq!(r, Ok(Some(ObjectId(11))));
}

#[test]
fn chain_find_searches_dynamic_properties_of_with_and_global_scopes() {
    let chain = ScopeChain::new(DomainId(0)).chain(&[
        Scope::new(ObjectId(10)),
        Scope::new(ObjectId(11)),
        Scope::new_with(ObjectId(12)),
    ]);
    assert_eq!(chain.find(&vec![MISS, DYNAMIC, DYNAMIC], Ok(None)), Ok(Some(ObjectId(12))));
    assert_eq!(chain.find(&vec![DYNAMIC, DYNAMIC, MISS], Ok(None)), Ok(Some(ObjectId(10))));
}

#[test]
fn chain_find_falls_back_on_the_domain() {
    let chain = ScopeChain::new(DomainId(0)).chain(&[Scope::new(ObjectId(10)), Scope::new(ObjectId(11))]);
    assert_eq!(chain.find(&vec![MISS, DYNAMIC], Ok(Some(ObjectId(5)))), Ok(Some(ObjectId(5))));
    let err = AvmError { message: "no definition".to_string() };
    assert_eq!(chain.find(&vec![MISS, MISS], Err(err.clone())), Err(err));
    let empty = ScopeChain::new(DomainId(0));
    assert_eq!(empty.find(&vec![], Ok(None)), Ok(None));
}

#[test]
fn stack_push_pop_and_get() {
    let mut stack = ScopeStack::new();
    assert_eq!(stack.pop(), None);
    stack.push(Scope::new(ObjectId(1)));
    stack.push(Scope::new_with(ObjectId(2)));
    assert_eq!(stack.get(1), Some(Scope::new_with(ObjectId(2))));
    assert_eq!(stack.get(2), None);
    assert_eq!(stack.scopes().len(), 2);
    assert_eq!(stack.pop(), Some(Scope::new_with(ObjectId(2))));
    assert_eq!(stack.scopes(), &[Scope::new(ObjectId(1))]);
    stack.clear();
    assert!(stack.scopes().is_empty());
}

#[test]
fn stack_find_searches_depth_zero_only_for_script_initializers() {
    let mut stack = ScopeStack::new();
    stack.push(Scope::new(ObjectId(1)));
    stack.push(Scope::new(ObjectId(2)));
    assert_eq!(stack.find(&vec![DYNAMIC, MISS], true), Ok(Some(ObjectId(1))));
    assert_eq!(stack.find(&vec![DYNAMIC, MISS], false), Ok(None));
    assert_eq!(stack.find(&vec![TRAIT, TRAIT], false), Ok(Some(ObjectId(2))));
}
