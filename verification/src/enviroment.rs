//! The scope chain: an arena of scope records, each holding its bindings and
//! its parent's index.  Blocks and calls push fresh scopes; closures keep the
//! index of their defining scope, so nested blocks and closures share outer
//! bindings instead of copying them.  A later binding for the same name in
//! the same scope shadows the earlier one.

use vstd::prelude::*;

use crate::value::Value;
use crate::value::ValueV;

verus! {

/// One binding: a name and its value.
#[derive(Debug)]
pub struct Binding {
    pub name: String,
    pub value: Value,
}

/// The mathematical image of a binding.
#[verifier::ext_equal]
pub struct BindingV {
    pub name: Seq<char>,
    pub value: ValueV,
}

impl Binding {
    pub open spec fn view(&self) -> BindingV {
        BindingV { name: self.name@, value: self.value@ }
    }
}

/// One scope record: its bindings and the index of the enclosing scope.
#[derive(Debug)]
pub struct Scope {
    pub parent: Option<usize>,
    pub entries: Vec<Binding>,
}

/// The mathematical image of a scope.
#[verifier::ext_equal]
pub struct ScopeV {
    pub parent: Option<int>,
    pub entries: Seq<BindingV>,
}

impl Scope {
    pub open spec fn view(&self) -> ScopeV {
        ScopeV {
            parent: match self.parent {
                Option::Some(p) => Option::Some(p as int),
                Option::None => Option::None,
            },
            entries: Seq::new(self.entries@.len(), |i: int| self.entries@[i]@),
        }
    }
}

/// The mathematical image of a whole environment: the scope arena and the
/// index of the current (innermost) scope.
#[verifier::ext_equal]
pub struct EnvV {
    pub scopes: Seq<ScopeV>,
    pub cur: int,
}

/// The value bound to `name` among `entries`, the latest binding winning.
pub open spec fn scope_get(entries: Seq<BindingV>, name: Seq<char>) -> Option<ValueV>
    decreases entries.len(),
{
    if entries.len() == 0 {
        Option::None
    } else if entries.last().name == name {
        Option::Some(entries.last().value)
    } else {
        scope_get(entries.drop_last(), name)
    }
}

/// The value of `name`, walking from scope `idx` out along the parent chain
/// and stopping at the first scope that binds it.
pub open spec fn env_get(scopes: Seq<ScopeV>, idx: int, name: Seq<char>) -> Option<ValueV>
    decreases idx,
{
    if !(0 <= idx < scopes.len()) {
        Option::None
    } else {
        match scope_get(scopes[idx].entries, name) {
            Option::Some(v) => Option::Some(v),
            Option::None => match scopes[idx].parent {
                Option::Some(p) => if 0 <= p < idx {
                    env_get(scopes, p, name)
                } else {
                    Option::None
                },
                Option::None => Option::None,
            },
        }
    }
}

/// The index of the nearest scope, from `idx` outward, that binds `name`.
pub open spec fn env_find(scopes: Seq<ScopeV>, idx: int, name: Seq<char>) -> Option<int>
    decreases idx,
{
    if !(0 <= idx < scopes.len()) {
        Option::None
    } else {
        match scope_get(scopes[idx].entries, name) {
            Option::Some(_) => Option::Some(idx),
            Option::None => match scopes[idx].parent {
                Option::Some(p) => if 0 <= p < idx {
                    env_find(scopes, p, name)
                } else {
                    Option::None
                },
                Option::None => Option::None,
            },
        }
    }
}

/// The environment after `define`: a new binding in the current scope,
/// shadowing any earlier one.
pub open spec fn env_define(env: EnvV, name: Seq<char>, value: ValueV) -> EnvV {
    if 0 <= env.cur < env.scopes.len() {
        let sc = env.scopes[env.cur];
        EnvV {
            scopes: env.scopes.update(
                env.cur,
                ScopeV { parent: sc.parent, entries: sc.entries.push(BindingV { name, value }) },
            ),
            cur: env.cur,
        }
    } else {
        env
    }
}

/// The environment after `assign`: a new binding in the nearest scope that
/// already binds `name`, or nothing if no scope does.
pub open spec fn env_assign(env: EnvV, name: Seq<char>, value: ValueV) -> Option<EnvV> {
    match env_find(env.scopes, env.cur, name) {
        Option::Some(k) => {
            let sc = env.scopes[k];
            Option::Some(
                EnvV {
                    scopes: env.scopes.update(
                        k,
                        ScopeV {
                            parent: sc.parent,
                            entries: sc.entries.push(BindingV { name, value }),
                        },
                    ),
                    cur: env.cur,
                },
            )
        },
        Option::None => Option::None,
    }
}

/// The environment after entering a new scope whose enclosing scope is
/// `parent`.
pub open spec fn env_push(env: EnvV, parent: int) -> EnvV {
    EnvV {
        scopes: env.scopes.push(ScopeV { parent: Option::Some(parent), entries: Seq::empty() }),
        cur: env.scopes.len() as int,
    }
}

/// The same environment with the current-scope index restored to `cur`.
pub open spec fn env_restore(env: EnvV, cur: int) -> EnvV {
    EnvV { scopes: env.scopes, cur }
}

/// The scope chain: an arena of scopes and the index of the current one.
/// Scopes are never removed, so a closure's captured scope stays alive as
/// long as the environment itself.
#[derive(Debug)]
pub struct Enviroment {
    pub scopes: Vec<Scope>,
    pub current: usize,
}

impl Enviroment {
    pub open spec fn view(&self) -> EnvV {
        EnvV {
            scopes: Seq::new(self.scopes@.len(), |i: int| self.scopes@[i]@),
            cur: self.current as int,
        }
    }

    /// A fresh environment: one global scope with no parent.
    pub fn new() -> (env: Enviroment)
        ensures
            env@ == (EnvV {
                scopes: seq![ScopeV { parent: Option::None, entries: Seq::empty() }],
                cur: 0,
            }),
    {
        let mut scopes: Vec<Scope> = Vec::new();
        scopes.push(Scope { parent: Option::None, entries: Vec::new() });
        let env = Enviroment { scopes, current: 0 };
        proof {
            assert(env@.scopes =~~= seq![ScopeV { parent: Option::None, entries: Seq::empty() }]);
            assert(env@ =~~= (EnvV {
                scopes: seq![ScopeV { parent: Option::None, entries: Seq::empty() }],
                cur: 0,
            }));
        }
        env
    }

    /// Searches `entries[0 .. j]` for `name`, latest binding first.
    fn find_in_entries(entries: &Vec<Binding>, j: usize, name: &String) -> (r: Option<Value>)
        requires
            j <= entries@.len(),
        ensures
            ({
                let prefix = Seq::new(j as nat, |i: int| entries@[i]@);
                match (r, scope_get(prefix, name@)) {
                    (Option::Some(v), Option::Some(vv)) => v@ == vv,
                    (Option::None, Option::None) => true,
                    _ => false,
                }
            }),
        decreases j,
    {
        let ghost prefix = Seq::new(j as nat, |i: int| entries@[i]@);
        if j == 0 {
            Option::None
        } else if entries[j - 1].name.eq(name) {
            proof {
                assert(prefix.last() == entries@[j - 1]@);
            }
            Option::Some(entries[j - 1].value.duplicate())
        } else {
            proof {
                assert(prefix.drop_last() =~= Seq::new((j - 1) as nat, |i: int| entries@[i]@));
            }
            Self::find_in_entries(entries, j - 1, name)
        }
    }

    /// The value of `name` in the scope with index `idx`, not following the
    /// parent chain.
    fn get_local(&self, idx: usize, name: &String) -> (r: Option<Value>)
        requires
            idx < self.scopes@.len(),
        ensures
            (match (r, scope_get(self@.scopes[idx as int].entries, name@)) {
                (Option::Some(v), Option::Some(vv)) => v@ == vv,
                (Option::None, Option::None) => true,
                _ => false,
            }),
    {
        let sc = &self.scopes[idx];
        let n = sc.entries.len();
        let r = Self::find_in_entries(&sc.entries, n, name);
        proof {
            assert(Seq::new(n as nat, |i: int| sc.entries@[i]@) =~= self@.scopes[
                idx as int
            ].entries);
        }
        r
    }

    /// The value of `name`, walking from scope `idx` outward.
    fn get_from(&self, idx: usize, name: &String) -> (r: Option<Value>)
        ensures
            (match (r, env_get(self@.scopes, idx as int, name@)) {
                (Option::Some(v), Option::Some(vv)) => v@ == vv,
                (Option::None, Option::None) => true,
                _ => false,
            }),
        decreases idx,
    {
        if idx >= self.scopes.len() {
            return Option::None;
        }
        match self.get_local(idx, name) {
            Option::Some(v) => Option::Some(v),
            Option::None => {
                let parent = self.scopes[idx].parent;
                match parent {
                    Option::Some(p) => {
                        if p < idx {
                            self.get_from(p, name)
                        } else {
                            Option::None
                        }
                    },
                    Option::None => Option::None,
                }
            },
        }
    }

    /// Looks `name` up, walking from the current scope outward; nothing if
    /// no scope on the chain binds it.
    pub fn get(&self, name: &String) -> (r: Option<Value>)
        ensures
            (match (r, env_get(self@.scopes, self@.cur, name@)) {
                (Option::Some(v), Option::Some(vv)) => v@ == vv,
                (Option::None, Option::None) => true,
                _ => false,
            }),
    {
        self.get_from(self.current, name)
    }

    /// Defines `name` in the current (innermost) scope, shadowing any outer
    /// or earlier binding.
    pub fn define(&mut self, name: &String, value: Value)
        ensures
            final(self)@ == env_define(old(self)@, name@, value@),
    {
        if self.current < self.scopes.len() {
            let idx = self.current;
            let b = Binding { name: name.clone(), value };
            self.scopes[idx].entries.push(b);
            proof {
                let oldv = old(self)@;
                let sc = oldv.scopes[oldv.cur];
                assert(self@.scopes[oldv.cur].entries =~= sc.entries.push(
                    BindingV { name: name@, value: value@ },
                ));
                assert(self@.scopes =~~= env_define(oldv, name@, value@).scopes);
                assert(self@ =~~= env_define(oldv, name@, value@));
            }
        }
    }

    /// The index of the nearest scope, from `idx` outward, binding `name`.
    fn find_scope(&self, idx: usize, name: &String) -> (r: Option<usize>)
        ensures
            (match (r, env_find(self@.scopes, idx as int, name@)) {
                (Option::Some(k), Option::Some(kk)) => k as int == kk && k < self.scopes@.len(),
                (Option::None, Option::None) => true,
                _ => false,
            }),
        decreases idx,
    {
        if idx >= self.scopes.len() {
            return Option::None;
        }
        match self.get_local(idx, name) {
            Option::Some(_) => Option::Some(idx),
            Option::None => {
                let parent = self.scopes[idx].parent;
                match parent {
                    Option::Some(p) => {
                        if p < idx {
                            self.find_scope(p, name)
                        } else {
                            Option::None
                        }
                    },
                    Option::None => Option::None,
                }
            },
        }
    }

    /// Assigns `value` to `name` in the nearest scope that already binds it,
    /// and says whether one was found; an assignment to an undeclared name
    /// changes nothing.
    pub fn assign(&mut self, name: &String, value: Value) -> (found: bool)
        ensures
            (match env_assign(old(self)@, name@, value@) {
                Option::Some(envp) => found && final(self)@ == envp,
                Option::None => !found && final(self)@ == old(self)@,
            }),
    {
        match self.find_scope(self.current, name) {
            Option::Some(k) => {
                let b = Binding { name: name.clone(), value };
                self.scopes[k].entries.push(b);
                proof {
                    let oldv = old(self)@;
                    let sc = oldv.scopes[k as int];
                    assert(self@.scopes[k as int].entries =~= sc.entries.push(
                        BindingV { name: name@, value: value@ },
                    ));
                    assert(self@.scopes =~~= env_assign(oldv, name@, value@).unwrap().scopes);
                    assert(self@ =~~= env_assign(oldv, name@, value@).unwrap());
                }
                true
            },
            Option::None => {
                proof {
                    assert(self@ =~~= old(self)@);
                }
                false
            },
        }
    }

    /// Enters a new scope whose enclosing scope is `parent`, and yields the
    /// new scope's index.
    pub fn push_scope(&mut self, parent: usize) -> (idx: usize)
        ensures
            final(self)@ == env_push(old(self)@, parent as int),
            idx as int == old(self)@.scopes.len(),
    {
        let idx = self.scopes.len();
        self.scopes.push(Scope { parent: Option::Some(parent), entries: Vec::new() });
        self.current = idx;
        proof {
            assert(self@.scopes =~~= env_push(old(self)@, parent as int).scopes);
            assert(self@ =~~= env_push(old(self)@, parent as int));
        }
        idx
    }

    /// Restores the current-scope index (on leaving a block or a call).
    pub fn restore(&mut self, cur: usize)
        ensures
            final(self)@ == env_restore(old(self)@, cur as int),
    {
        self.current = cur;
        proof {
            assert(self@ =~~= env_restore(old(self)@, cur as int));
        }
    }
}

} // verus!
