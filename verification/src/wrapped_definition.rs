use vstd::prelude::*;
use vstd::string::StringExecFns;

verus! {

/// An opaque, comparable handle to an external, host-managed declaration — a
/// class-like entity that can be asked to materialize a schema definition —
/// reduced to what this core reads of it: its identity, its qualified name,
/// and the identities of everything it inherits from.
#[derive(Debug)]
pub struct ClassHandle {
    pub id: u64,
    pub name: String,
    pub ancestors: Vec<u64>,
}

impl ClassHandle {
    /// The handle satisfies the structural requirement keyed by `base`: it is
    /// that very class, or inherits from it.
    pub open spec fn inherits(self, base: u64) -> bool {
        self.id == base || self.ancestors@.contains(base)
    }

    /// Runtime structural-compatibility check.
    pub fn is_inherited(&self, base: u64) -> (r: bool)
        ensures
            r == self.inherits(base),
    {
        if self.id == base {
            return true;
        }
        let mut i: usize = 0;
        while i < self.ancestors.len()
            invariant
                i <= self.ancestors.len(),
                forall|j: int| 0 <= j < i ==> self.ancestors@[j] != base,
            decreases self.ancestors.len() - i,
        {
            if self.ancestors[i] == base {
                return true;
            }
            i = i + 1;
        }
        false
    }
}

/// A failure of resolver construction: the handle does not satisfy the
/// structural requirement for the target definition kind.
#[derive(Debug, Clone, PartialEq, Eq)]
pub enum DefinitionError {
    TypeMismatch { message: String },
}

/// The diagnostic text reported when `from` cannot stand in for the expected
/// base class `into`.
pub open spec fn mismatch_message(from: Seq<char>, into: Seq<char>) -> Seq<char> {
    "no implicit conversion of "@ + from + " into "@ + into
}

impl DefinitionError {
    /// The diagnostic text of this failure.
    pub fn message(&self) -> (m: &String)
        ensures
            match *self {
                DefinitionError::TypeMismatch { message } => m@ == message@,
            },
    {
        match self {
            DefinitionError::TypeMismatch { message } => message,
        }
    }
}

/// A host value handed in for conversion to a resolver, reduced to what the
/// conversion reads of it: either it is a class-like entity, or it is not, in
/// which case only the name of its class is kept, for the diagnostic.
#[derive(Debug)]
pub enum HostValue {
    Class(ClassHandle),
    NonClass(String),
}

/// Implemented by definition types declared through host wrapper classes. It
/// states the host-side capabilities a wrapped definition relies on: the base
/// class that every wrapping class must inherit from, and the materialization
/// step. The host keys materialization by the identity of the wrapping class,
/// so the same class always materializes the same definition, however many
/// resolvers ask.
pub trait HasDefinitionWrapper: Sized {
    /// Identity of the base class that every wrapping class must inherit from.
    spec fn wrapping_class_id() -> u64;

    /// Qualified name of that base class, for diagnostics.
    spec fn wrapping_class_name() -> Seq<char>;

    /// The definition the host materializes for the wrapping class whose
    /// identity is `class_id`.
    spec fn definition_of(class_id: u64) -> Self;

    /// Runtime identity of the required base class.
    fn wrapping_class() -> (id: u64)
        ensures
            id == Self::wrapping_class_id(),
    ;

    /// Runtime qualified name of the required base class.
    fn wrapping_class_qualified_name() -> (name: String)
        ensures
            name@ == Self::wrapping_class_name(),
    ;

    /// Asks the handle to produce its definition: the materialization step.
    fn materialize(cls: &ClassHandle) -> (d: Self)
        ensures
            d == Self::definition_of(cls.id),
    ;

    /// A value-preserving copy of a definition, so that a cloned resolver
    /// shares what its original resolved.
    fn duplicate(d: &Self) -> (r: Self)
        ensures
            r == *d,
    ;
}

/// Pairs a definition handle with an at-most-once-filled cache slot: created
/// cheaply when a schema entity declares a reference to another definition,
/// filled on the first resolution request, and never mutated again. The
/// resolver owns the handle and, once filled, the cached definition, so both
/// live exactly as long as the resolver itself.
#[derive(Debug)]
pub struct WrappedDefinition<T: HasDefinitionWrapper> {
    cls: ClassHandle,
    memoized_definition: Option<T>,
}

impl<T: HasDefinitionWrapper> WrappedDefinition<T> {
    /// The handle this resolver wraps.
    pub closed spec fn handle(self) -> ClassHandle {
        self.cls
    }

    /// The cache slot: empty until the first resolution, then filled forever.
    pub closed spec fn cached(self) -> Option<T> {
        self.memoized_definition
    }

    /// Well-formedness: the handle passed the structural check, and whatever
    /// the cache holds is exactly what the handle materializes to.
    pub closed spec fn wf(self) -> bool {
        &&& self.cls.inherits(T::wrapping_class_id())
        &&& match self.memoized_definition {
            Some(d) => d == T::definition_of(self.cls.id),
            None => true,
        }
    }

    /// Wraps `cls`, unresolved. Fails — at construction time, so malformed
    /// schemas fail fast — exactly when `cls` does not inherit from the base
    /// class required for this definition kind.
    pub fn new(cls: ClassHandle) -> (r: Result<Self, DefinitionError>)
        ensures
            match r {
                Ok(w) => {
                    &&& cls.inherits(T::wrapping_class_id())
                    &&& w.wf()
                    &&& w.handle() == cls
                    &&& w.cached() is None
                },
                Err(e) => {
                    &&& !cls.inherits(T::wrapping_class_id())
                    &&& e matches DefinitionError::TypeMismatch { message } && message@
                        == mismatch_message(cls.name@, T::wrapping_class_name())
                },
            },
    {
        if cls.is_inherited(T::wrapping_class()) {
            Ok(WrappedDefinition { cls, memoized_definition: None })
        } else {
            let mut message = String::from_str("no implicit conversion of ");
            message.append(cls.name.as_str());
            message.append(" into ");
            let base = T::wrapping_class_qualified_name();
            message.append(base.as_str());
            Err(DefinitionError::TypeMismatch { message })
        }
    }

    /// Converts a host value into a resolver: a class-like value is wrapped as
    /// `new` wraps it; any other value is rejected with the same diagnostic
    /// shape, naming the value's own class.
    pub fn try_convert(val: HostValue) -> (r: Result<Self, DefinitionError>)
        ensures
            match r {
                Ok(w) => {
                    &&& val matches HostValue::Class(cls) && w.handle() == cls && cls.inherits(
                        T::wrapping_class_id(),
                    )
                    &&& w.wf()
                    &&& w.cached() is None
                },
                Err(e) => match val {
                    HostValue::Class(cls) => {
                        &&& !cls.inherits(T::wrapping_class_id())
                        &&& e matches DefinitionError::TypeMismatch { message } && message@
                            == mismatch_message(cls.name@, T::wrapping_class_name())
                    },
                    HostValue::NonClass(class_name) => e matches DefinitionError::TypeMismatch {
                        message,
                    } && message@ == mismatch_message(class_name@, T::wrapping_class_name()),
                },
            },
    {
        match val {
            HostValue::Class(cls) => Self::new(cls),
            HostValue::NonClass(class_name) => {
                let mut message = String::from_str("no implicit conversion of ");
                message.append(class_name.as_str());
                message.append(" into ");
                let base = T::wrapping_class_qualified_name();
                message.append(base.as_str());
                Err(DefinitionError::TypeMismatch { message })
            },
        }
    }

    /// Resolves the wrapped handle: returns the cached definition when the
    /// cache is filled, and otherwise materializes through the handle, caches
    /// the result forever, and returns it. Idempotent: every call returns the
    /// definition of the wrapped handle, so two calls return identical values.
    pub fn get(&mut self) -> (d: &T)
        requires
            old(self).wf(),
        ensures
            final(self).wf(),
            final(self).handle() == old(self).handle(),
            *d == T::definition_of(old(self).handle().id),
            final(self).cached() == Some(*d),
    {
        if self.memoized_definition.is_none() {
            let d = T::materialize(&self.cls);
            self.memoized_definition = Some(d);
        }
        self.memoized_definition.as_ref().unwrap()
    }

    /// Reachability, for a host with a tracing collector: keep the handle and
    /// any cached definition alive while the resolver is alive. Here the
    /// resolver owns both outright, so ordinary ownership already guarantees
    /// exactly that, and there is no collector to inform: nothing to do.
    pub fn mark(&self) {
    }

    /// A stable, human-readable identifier for the wrapped handle, independent
    /// of whether resolution has happened.
    pub fn fully_qualified_name(&self) -> (name: String)
        ensures
            name@ == self.handle().name@,
    {
        self.cls.name.clone()
    }

    /// The wrapped handle itself.
    pub fn class(&self) -> (cls: &ClassHandle)
        ensures
            *cls == self.handle(),
    {
        &self.cls
    }
}

/// An element-preserving copy of a list of identities.
fn copy_ids(v: &Vec<u64>) -> (r: Vec<u64>)
    ensures
        r@ == v@,
{
    let mut r: Vec<u64> = Vec::new();
    let mut i: usize = 0;
    while i < v.len()
        invariant
            i <= v.len(),
            r@ =~= v@.take(i as int),
        decreases v.len() - i,
    {
        r.push(v[i]);
        i = i + 1;
    }
    proof {
        assert(r@ =~= v@);
    }
    r
}

impl<T: HasDefinitionWrapper> Clone for WrappedDefinition<T> {
    /// A copy that resolves exactly as the original: the clone carries an
    /// equal handle and an equal cache, so resolving through either observes
    /// and produces the same definition.
    fn clone(&self) -> (r: Self)
        ensures
            r.handle().id == self.handle().id,
            r.handle().name@ == self.handle().name@,
            r.handle().ancestors@ == self.handle().ancestors@,
            r.cached() == self.cached(),
            self.wf() ==> r.wf(),
    {
        WrappedDefinition {
            cls: ClassHandle {
                id: self.cls.id,
                name: self.cls.name.clone(),
                ancestors: copy_ids(&self.cls.ancestors),
            },
            memoized_definition: match &self.memoized_definition {
                Some(d) => Some(T::duplicate(d)),
                None => None,
            },
        }
    }
}

/// Law: resolution is identity-stable. Two well-formed resolvers over handles
/// with the same identity that have both resolved — a resolver and a clone of
/// it, or two resolvers constructed independently for the same handle — hold
/// the same definition.
pub proof fn lemma_resolution_identity<T: HasDefinitionWrapper>(
    a: WrappedDefinition<T>,
    b: WrappedDefinition<T>,
)
    requires
        a.wf(),
        b.wf(),
        a.handle().id == b.handle().id,
        a.cached() is Some,
        b.cached() is Some,
    ensures
        a.cached() == b.cached(),
{
}

/// The simplest host model: materializing a class yields a definition that
/// records the identity of the class it came from. The host's base class has
/// identity 0 and is named `Definition`.
#[derive(Debug, Clone, Copy, PartialEq, Eq, Structural)]
pub struct MirrorDefinition {
    pub class_id: u64,
}

impl HasDefinitionWrapper for MirrorDefinition {
    open spec fn wrapping_class_id() -> u64 {
        0
    }

    open spec fn wrapping_class_name() -> Seq<char> {
        "Definition"@
    }

    open spec fn definition_of(class_id: u64) -> Self {
        MirrorDefinition { class_id }
    }

    fn wrapping_class() -> (id: u64) {
        0
    }

    fn wrapping_class_qualified_name() -> (name: String) {
        String::from_str("Definition")
    }

    fn materialize(cls: &ClassHandle) -> (d: Self) {
        MirrorDefinition { class_id: cls.id }
    }

    fn duplicate(d: &Self) -> (r: Self) {
        MirrorDefinition { class_id: d.class_id }
    }
}

} // verus!
