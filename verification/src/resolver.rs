//! Module names: how a requested name becomes a fully-qualified reference,
//! what is made of the host's answer to a fetch, and how the scope stack
//! follows the modules that are being run.
use crate::scope::{popped, top_of, ScopeStack};
use crate::text::{
    chars_of, contains, find, first_occurrence, has_prefix_ignore_ascii_case, matches_at,
    starts_with, starts_with_ignore_ascii_case, string_of, trim_bounds, trimmed,
};
use vstd::prelude::*;
use vstd::string::StringExecFns;

verus! {

/// What separates a scheme from the rest of a reference.
pub open spec fn scheme_separator() -> Seq<char> {
    "://"@
}

/// The scheme of the references that open a scope of their own.
pub open spec fn scoped_scheme() -> Seq<char> {
    "mediawiki://"@
}

/// The marker that begins the module part of a scoped reference.
pub open spec fn module_marker() -> Seq<char> {
    "Module:"@
}

/// The namespace base of a reference: for a reference of the scoped scheme
/// that holds the module marker, what stands before the first marker.
pub open spec fn base_of(spec: Seq<char>) -> Option<Seq<char>> {
    if starts_with(spec, scoped_scheme()) && contains(spec, module_marker()) {
        Some(spec.take(choose|at: int| first_occurrence(spec, module_marker(), at)))
    } else {
        None
    }
}

proof fn lemma_first_occurrence_unique(hay: Seq<char>, pat: Seq<char>, a: int, b: int)
    requires
        first_occurrence(hay, pat, a),
        first_occurrence(hay, pat, b),
    ensures
        a == b,
{
}

/// The namespace base of the reference `spec`, or `None` when the reference
/// is not of the scoped scheme or holds no module marker.
pub fn mediawiki_base(spec: &str) -> (r: Option<String>)
    ensures
        match base_of(spec@) {
            Some(base) => r matches Some(b) && b@ == base,
            None => r is None,
        },
{
    let chars = chars_of(spec);
    let scheme = chars_of("mediawiki://");
    if !matches_at(&chars, &scheme, 0) {
        return None;
    }
    let marker = chars_of("Module:");
    match find(&chars, &marker) {
        None => None,
        Some(at) => {
            proof {
                let chosen = choose|k: int| first_occurrence(spec@, module_marker(), k);
                lemma_first_occurrence_unique(spec@, module_marker(), at as int, chosen);
                assert(spec@.take(at as int) =~= chars@.subrange(0, at as int));
            }
            Some(string_of(&chars, 0, at))
        },
    }
}

/// The fully-qualified reference for the requested name `name`, when `top`
/// is the base on top of the scope stack.
///
/// A name that holds the scheme separator, or is nothing but white space,
/// stands as it is; so does any name when the stack is empty. Otherwise the
/// result is the base followed by the trimmed name, with the module marker
/// between them unless the trimmed name already begins with it, in whatever
/// case.
pub open spec fn resolved(top: Option<Seq<char>>, name: Seq<char>) -> Seq<char> {
    if contains(name, scheme_separator()) {
        name
    } else if trimmed(name).len() == 0 {
        name
    } else {
        match top {
            None => name,
            Some(base) => if starts_with_ignore_ascii_case(trimmed(name), module_marker()) {
                base + trimmed(name)
            } else {
                base + module_marker() + trimmed(name)
            },
        }
    }
}

/// The fully-qualified reference for the requested module name.
pub fn resolve_module_spec(stack: &ScopeStack, name: &str) -> (r: String)
    ensures
        r@ == resolved(top_of(stack@), name@),
{
    let chars = chars_of(name);
    let separator = chars_of("://");
    if find(&chars, &separator).is_some() {
        return String::from_str(name);
    }
    let (from, to) = trim_bounds(&chars);
    if from == to {
        return String::from_str(name);
    }
    match stack.current_base() {
        None => String::from_str(name),
        Some(base) => {
            let mut r = base;
            let trimmed_name = string_of(&chars, from, to);
            let marker = chars_of("Module:");
            let rest = chars_of(trimmed_name.as_str());
            if !has_prefix_ignore_ascii_case(&rest, &marker) {
                r.append("Module:");
            }
            r.append(trimmed_name.as_str());
            r
        },
    }
}

/// The source of a module, with the reference under which it was fetched.
#[derive(Debug, PartialEq)]
pub struct ResolvedModuleSource {
    pub name: String,
    pub source: String,
}

/// What came of asking the host for the source of a module.
#[derive(Debug, PartialEq)]
pub enum FetchReply {
    /// The host returned this source text.
    Found(String),
    /// The request could not be made, or the source that came back is not
    /// text; the message says which.
    Failed(String),
    /// The host has no such module. The text is the host's description of
    /// its last error, where it gave one.
    Missing(Option<String>),
}

/// The message for a missing module of which the host says nothing.
pub open spec fn unknown_fetch_error() -> Seq<char> {
    "unknown module fetch error"@
}

/// What a reply of the host means for the module requested as `name`.
pub open spec fn fetch_meaning(top: Option<Seq<char>>, name: Seq<char>, reply: FetchReply) -> Result<
    (Seq<char>, Seq<char>),
    Seq<char>,
> {
    match reply {
        FetchReply::Found(source) => Ok((resolved(top, name), source@)),
        FetchReply::Failed(message) => Err(message@),
        FetchReply::Missing(None) => Err(unknown_fetch_error()),
        FetchReply::Missing(Some(detail)) => if detail@.len() == 0 {
            Err(unknown_fetch_error())
        } else {
            Err(detail@)
        },
    }
}

/// Reads the host's reply to the fetch of the module requested as `name`:
/// the source under its fully-qualified reference, or the message of the
/// failure. A missing module of which the host gives no description, or an
/// empty one, is reported as an unknown error.
pub fn fetch_module_source(stack: &ScopeStack, name: &str, reply: FetchReply) -> (r: Result<
    ResolvedModuleSource,
    String,
>)
    ensures
        match fetch_meaning(top_of(stack@), name@, reply) {
            Ok(found) => r matches Ok(m) && m.name@ == found.0 && m.source@ == found.1,
            Err(message) => r matches Err(e) && e@ == message,
        },
{
    match reply {
        FetchReply::Found(source) => Ok(
            ResolvedModuleSource { name: resolve_module_spec(stack, name), source },
        ),
        FetchReply::Failed(message) => Err(message),
        FetchReply::Missing(None) => Err(String::from_str("unknown module fetch error")),
        FetchReply::Missing(Some(detail)) => if detail.as_str().is_empty() {
            Err(String::from_str("unknown module fetch error"))
        } else {
            Err(detail)
        },
    }
}

/// The text that a script gets in place of a module that could not be loaded.
pub open spec fn load_failure(module: Seq<char>, reason: Seq<char>) -> Seq<char> {
    "error loading module '"@ + module + "': "@ + reason
}

/// The text that a script gets in place of the module requested as `module`
/// when it could not be fetched or compiled for the given reason.
pub fn load_failure_text(module: &str, reason: &str) -> (s: String)
    ensures
        s@ == load_failure(module@, reason@),
{
    let mut s = String::from_str("error loading module '");
    s.append(module);
    s.append("': ");
    s.append(reason);
    s
}

/// What the loader does for a requested module.
#[derive(Debug, PartialEq)]
pub enum LoaderPlan {
    /// Hand this text to the script in place of the module.
    Failure(String),
    /// Compile the source and hand it over as it is.
    Plain(ResolvedModuleSource),
    /// Compile the source and wrap it, so that the scope stack holds the
    /// module's base while its body runs.
    Scoped(ResolvedModuleSource),
}

/// Decides what the loader does for the module requested as `module`, from
/// what its fetch came to: a failure becomes a text for the script, a module
/// of the scoped scheme is wrapped, any other is handed over as it is.
pub fn plan_module_load(module: &str, fetched: Result<ResolvedModuleSource, String>) -> (plan:
    LoaderPlan)
    ensures
        match fetched {
            Err(reason) => plan matches LoaderPlan::Failure(t) && t@ == load_failure(
                module@,
                reason@,
            ),
            Ok(found) => if starts_with(found.name@, scoped_scheme()) {
                plan == LoaderPlan::Scoped(found)
            } else {
                plan == LoaderPlan::Plain(found)
            },
        },
{
    match fetched {
        Err(reason) => LoaderPlan::Failure(load_failure_text(module, reason.as_str())),
        Ok(found) => {
            let name = chars_of(found.name.as_str());
            let scheme = chars_of("mediawiki://");
            if matches_at(&name, &scheme, 0) {
                LoaderPlan::Scoped(found)
            } else {
                LoaderPlan::Plain(found)
            }
        },
    }
}

/// The stack when the body of the module `spec` begins to run.
pub open spec fn entered(stack: Seq<Seq<char>>, spec: Seq<char>) -> Seq<Seq<char>> {
    match base_of(spec) {
        Some(base) => stack.push(base),
        None => stack,
    }
}

/// The stack when a guard is released.
pub open spec fn released(stack: Seq<Seq<char>>, pushed: bool) -> Seq<Seq<char>> {
    if pushed {
        popped(stack)
    } else {
        stack
    }
}

/// The mark of one running module body: it remembers whether the body's base
/// was put on the scope stack, and so whether its exit has one to take off.
#[derive(Debug)]
pub struct ScopeGuard {
    pushed: bool,
}

impl ScopeGuard {
    /// Whether this guard put a base on the stack.
    pub closed spec fn pushed(&self) -> bool {
        self.pushed
    }

    /// Begins the body of the module `spec`: puts the module's base on the
    /// stack, if it has one.
    pub fn new(stack: &mut ScopeStack, spec: &str) -> (guard: ScopeGuard)
        ensures
            guard.pushed() == (base_of(spec@) is Some),
            final(stack)@ == entered(old(stack)@, spec@),
    {
        match mediawiki_base(spec) {
            None => ScopeGuard { pushed: false },
            Some(base) => {
                stack.push(base);
                ScopeGuard { pushed: true }
            },
        }
    }

    /// Ends the body that this guard marks, however it ended: takes off the
    /// stack what the guard put there.
    pub fn release(self, stack: &mut ScopeStack)
        ensures
            final(stack)@ == released(old(stack)@, self.pushed()),
    {
        if self.pushed {
            stack.pop();
        }
    }
}

/// One step in the nesting of module bodies.
pub enum ModuleEvent {
    /// The body of the module with this reference begins.
    Enter(Seq<char>),
    /// The innermost running body ends, by returning or by raising an error.
    Exit,
}

/// The scope stack together with the guards of the bodies that are running,
/// outermost first.
pub struct Nesting {
    pub stack: Seq<Seq<char>>,
    pub guards: Seq<bool>,
}

/// The nesting after one event. An exit while no body is running changes
/// nothing.
pub open spec fn step(now: Nesting, event: ModuleEvent) -> Nesting {
    match event {
        ModuleEvent::Enter(spec) => Nesting {
            stack: entered(now.stack, spec),
            guards: now.guards.push(base_of(spec) is Some),
        },
        ModuleEvent::Exit => if now.guards.len() == 0 {
            now
        } else {
            Nesting {
                stack: released(now.stack, now.guards.last()),
                guards: now.guards.drop_last(),
            }
        },
    }
}

/// The nesting after a run of events that begins with `stack` and no body
/// running.
pub open spec fn replay(stack: Seq<Seq<char>>, events: Seq<ModuleEvent>) -> Nesting
    decreases events.len(),
{
    if events.len() == 0 {
        Nesting { stack, guards: Seq::empty() }
    } else {
        step(replay(stack, events.drop_last()), events.last())
    }
}

/// The number of guards that put a base on the stack.
pub open spec fn pushes(guards: Seq<bool>) -> nat
    decreases guards.len(),
{
    if guards.len() == 0 {
        0
    } else {
        pushes(guards.drop_last()) + if guards.last() {
            1nat
        } else {
            0nat
        }
    }
}

/// At every point of a run the stack is the stack of its beginning with one
/// base on top for each running body that opened a scope.
pub proof fn lemma_stack_follows_guards(stack: Seq<Seq<char>>, events: Seq<ModuleEvent>)
    ensures
        replay(stack, events).stack.len() == stack.len() + pushes(replay(stack, events).guards),
        replay(stack, events).stack.take(stack.len() as int) == stack,
    decreases events.len(),
{
    if events.len() == 0 {
        assert(stack.take(stack.len() as int) =~= stack);
    } else {
        let before = replay(stack, events.drop_last());
        lemma_stack_follows_guards(stack, events.drop_last());
        let after = step(before, events.last());
        match events.last() {
            ModuleEvent::Enter(spec) => {
                assert(after.guards.drop_last() =~= before.guards);
                assert(after.stack.take(stack.len() as int) =~= before.stack.take(
                    stack.len() as int,
                ));
            },
            ModuleEvent::Exit => {
                assert(after.stack.take(stack.len() as int) =~= before.stack.take(
                    stack.len() as int,
                ));
            },
        }
    }
}

/// When every body that began has ended, by whatever exit, the scope stack
/// is what it was before the first began: a run that starts with the empty
/// stack ends with the empty stack.
pub proof fn lemma_completed_run_restores_stack(stack: Seq<Seq<char>>, events: Seq<ModuleEvent>)
    requires
        replay(stack, events).guards.len() == 0,
    ensures
        replay(stack, events).stack == stack,
{
    lemma_stack_follows_guards(stack, events);
    let end = replay(stack, events);
    assert(end.stack.take(stack.len() as int) =~= end.stack);
}

} // verus!
