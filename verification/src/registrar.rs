//! The dynamic subclass registrar. Registration alternates cache decisions
//! (made here, verified) with host-runtime work (class lookup, declaration
//! allocation, registration) that the caller performs between steps:
//!
//! 1. `begin_registration` consults the cache: a cached subclass is final;
//!    otherwise the superclass is either already cached or must be looked up
//!    in the runtime and adopted via `ClassMap::adopt_runtime_class`.
//! 2. `plan_declaration` turns the resolved superclass and the optional
//!    application bundle identifier into a declaration request carrying a
//!    process-unique synthesized runtime name.
//! 3. The caller asks the runtime to allocate the declaration, applies its
//!    storage-slot and method additions, registers it, and hands the outcome
//!    to `complete_registration`, which records the new handle in the cache.
//!
//! Failures to resolve the superclass or to allocate the declaration are
//! framework-breaking; they are reported as a distinct error kind so the
//! embedding context can choose between propagation and aborting.

use vstd::prelude::*;
use vstd::string::*;
use crate::cache::{ClassMap, opt_name_view};

verus! {

/// A literal `.` or `-` is replaced by `_`; any other character is kept.
pub open spec fn sanitize_char(c: char) -> char {
    if c == '.' || c == '-' {
        '_'
    } else {
        c
    }
}

/// Character-wise sanitization of a bundle identifier.
pub open spec fn sanitized(s: Seq<char>) -> Seq<char>
    decreases s.len(),
{
    if s.len() == 0 {
        Seq::empty()
    } else {
        sanitized(s.drop_last()).push(sanitize_char(s.last()))
    }
}

/// Sanitization keeps the length and works character by character.
pub proof fn lemma_sanitized_pointwise(s: Seq<char>)
    ensures
        sanitized(s).len() == s.len(),
        forall|i: int| 0 <= i < s.len() ==> sanitized(s)[i] == sanitize_char(s[i]),
    decreases s.len(),
{
    if s.len() > 0 {
        lemma_sanitized_pointwise(s.drop_last());
    }
}

/// Replaces every `.` and `-` in a bundle identifier by `_`, so the result
/// can serve as a fragment of an Objective-C class name.
pub fn sanitize_bundle_id(raw: &str) -> (r: String)
    ensures
        r@ == sanitized(raw@),
{
    proof {
        reveal_strlit("_");
    }
    let n = raw.unicode_len();
    let mut out = String::new();
    let mut i: usize = 0;
    while i < n
        invariant
            n == raw@.len(),
            i <= n,
            out@ == sanitized(raw@.subrange(0, i as int)),
        decreases n - i,
    {
        let c = raw.get_char(i);
        if c == '.' || c == '-' {
            out.append("_");
        } else {
            let piece = raw.substring_char(i, i + 1);
            out.append(piece);
        }
        proof {
            reveal_strlit("_");
            let t = raw@.subrange(0, (i + 1) as int);
            assert(t.drop_last() =~= raw@.subrange(0, i as int));
            assert(t.last() == raw@[i as int]);
            assert(out@ =~= sanitized(t));
        }
        i = i + 1;
    }
    proof {
        assert(raw@.subrange(0, n as int) =~= raw@);
    }
    out
}

/// The process-unique runtime name of a synthesized subclass: the subclass
/// and superclass names joined by `_`, followed — when an application bundle
/// identifier is available — by the sanitized identifier, to keep two
/// independently loaded modules that declare "the same" subclass from
/// colliding in the runtime's single global class namespace.
pub open spec fn synthesized_name(
    sub: Seq<char>,
    sup: Seq<char>,
    bundle_id: Option<Seq<char>>,
) -> Seq<char> {
    match bundle_id {
        Some(b) => sub + seq!['_'] + sup + seq!['_'] + sanitized(b),
        None => sub + seq!['_'] + sup,
    }
}

/// Builds the synthesized runtime name for a new subclass.
pub fn synthesize_runtime_name(
    subclass_name: &str,
    superclass_name: &str,
    bundle_id: Option<&str>,
) -> (r: String)
    ensures
        r@ == synthesized_name(subclass_name@, superclass_name@, opt_name_view(bundle_id)),
{
    proof {
        reveal_strlit("_");
        assert("_"@ =~= seq!['_']);
    }
    let mut out: String = subclass_name.to_owned();
    out.append("_");
    out.append(superclass_name);
    match bundle_id {
        Some(b) => {
            out.append("_");
            let clean = sanitize_bundle_id(b);
            out.append(clean.as_str());
            proof {
                assert(out@ =~= synthesized_name(
                    subclass_name@,
                    superclass_name@,
                    opt_name_view(bundle_id),
                ));
            }
        }
        None => {
            proof {
                assert(out@ =~= synthesized_name(
                    subclass_name@,
                    superclass_name@,
                    opt_name_view(bundle_id),
                ));
            }
        }
    }
    out
}

/// Law: a bundle identifier disambiguates — the name synthesized with one is
/// strictly longer than, and therefore different from, the name synthesized
/// without one.
pub proof fn lemma_bundle_disambiguates(sub: Seq<char>, sup: Seq<char>, b: Seq<char>)
    ensures
        synthesized_name(sub, sup, Some(b)).len() > synthesized_name(sub, sup, None).len(),
        synthesized_name(sub, sup, Some(b)) != synthesized_name(sub, sup, None),
{
    lemma_sanitized_pointwise(b);
    assert(synthesized_name(sub, sup, Some(b)).len() == sub.len() + 1 + sup.len() + 1 + b.len());
    assert(synthesized_name(sub, sup, None).len() == sub.len() + 1 + sup.len());
}

/// Law: a synthesized name holds no literal `.` or `-` provided the subclass
/// and superclass names hold none; the bundle fragment is sanitized, so both
/// characters are replaced by `_` wherever they stood.
pub proof fn lemma_name_free_of_separators(sub: Seq<char>, sup: Seq<char>, b: Seq<char>)
    requires
        forall|i: int| 0 <= i < sub.len() ==> sub[i] != '.' && sub[i] != '-',
        forall|i: int| 0 <= i < sup.len() ==> sup[i] != '.' && sup[i] != '-',
    ensures
        forall|i: int| 0 <= i < synthesized_name(sub, sup, Some(b)).len()
            ==> #[trigger] synthesized_name(sub, sup, Some(b))[i] != '.'
                && synthesized_name(sub, sup, Some(b))[i] != '-',
{
    lemma_sanitized_pointwise(b);
    let name = synthesized_name(sub, sup, Some(b));
    assert forall|i: int| 0 <= i < name.len() implies #[trigger] name[i] != '.' && name[i] != '-' by {
        assert(name[i] == (sub + seq!['_'] + sup + seq!['_'] + sanitized(b))[i]);
    }
}

/// The outcome of consulting the cache at the start of a registration.
#[derive(Clone, Copy, Debug, PartialEq, Eq, Structural)]
pub enum RegistrationStart {
    /// The subclass is already registered under this superclass; its handle
    /// is final and no declaration work is needed.
    Cached { handle: u64 },
    /// The subclass is unknown but the superclass is cached; declaration can
    /// be planned at once.
    HaveSuperclass { superclass: u64 },
    /// Neither is cached: the caller must ask the host runtime whether the
    /// superclass exists and adopt the reply into the cache.
    NeedSuperclassLookup,
}

/// What `begin_registration` decides, as a function of the cache contents.
pub open spec fn begin_step(
    m: Map<(Seq<char>, Option<Seq<char>>), u64>,
    sub: Seq<char>,
    sup: Seq<char>,
) -> RegistrationStart {
    if m.contains_key((sub, Some(sup))) {
        RegistrationStart::Cached { handle: m[(sub, Some(sup))] }
    } else if m.contains_key((sup, None::<Seq<char>>)) {
        RegistrationStart::HaveSuperclass { superclass: m[(sup, None::<Seq<char>>)] }
    } else {
        RegistrationStart::NeedSuperclassLookup
    }
}

/// First step of `load_or_register`: consult the cache for the subclass under
/// this superclass (the hot path for repeated construction), then for the
/// superclass alone.
pub fn begin_registration(
    cache: &ClassMap,
    superclass_name: &str,
    subclass_name: &str,
) -> (r: RegistrationStart)
    ensures
        r == begin_step(cache.contents(), subclass_name@, superclass_name@),
{
    if let Some(handle) = cache.load(subclass_name, Some(superclass_name)) {
        return RegistrationStart::Cached { handle };
    }
    match cache.load(superclass_name, None) {
        Some(superclass) => RegistrationStart::HaveSuperclass { superclass },
        None => RegistrationStart::NeedSuperclassLookup,
    }
}

/// Law: registration is idempotent by cache. Once a handle is recorded for a
/// (subclass, superclass) pair, every later registration attempt begins with
/// `Cached` holding that same handle, so the declaration path — and with it
/// the caller's declaration callback — is never reached again.
pub proof fn lemma_registration_idempotent(
    m: Map<(Seq<char>, Option<Seq<char>>), u64>,
    sub: Seq<char>,
    sup: Seq<char>,
    h: u64,
)
    ensures
        begin_step(m.insert((sub, Some(sup)), h), sub, sup) == (RegistrationStart::Cached {
            handle: h,
        }),
{
}

/// Law: key distinctness. The subclass entry `(name, Some(sup))` and the
/// plain lookup entry `(name, None)` are independent: storing under either
/// key leaves presence and value under the other key unchanged.
pub proof fn lemma_key_distinctness(
    m: Map<(Seq<char>, Option<Seq<char>>), u64>,
    name: Seq<char>,
    sup: Seq<char>,
    h: u64,
)
    ensures
        m.insert((name, Some(sup)), h).contains_key((name, None::<Seq<char>>))
            == m.contains_key((name, None::<Seq<char>>)),
        m.contains_key((name, None::<Seq<char>>))
            ==> m.insert((name, Some(sup)), h)[(name, None::<Seq<char>>)]
                == m[(name, None::<Seq<char>>)],
        m.insert((name, None::<Seq<char>>), h).contains_key((name, Some(sup)))
            == m.contains_key((name, Some(sup))),
        m.contains_key((name, Some(sup)))
            ==> m.insert((name, None::<Seq<char>>), h)[(name, Some(sup))]
                == m[(name, Some(sup))],
{
}

/// A named, fixed-size storage slot requested on a declaration.
pub struct IvarRequest {
    pub name: String,
    pub size: usize,
}

/// A method addition or override requested on a declaration: a selector name
/// and an opaque handle of the implementation.
pub struct MethodOverride {
    pub selector: String,
    pub implementation: u64,
}

/// An in-progress, not-yet-registered class declaration: the synthesized
/// runtime name, the resolved superclass handle, and the ordered storage-slot
/// and method additions the registrar applies before finalizing.
pub struct ClassDeclaration {
    pub runtime_name: String,
    pub superclass: u64,
    pub ivars: Vec<IvarRequest>,
    pub methods: Vec<MethodOverride>,
}

impl ClassDeclaration {
    /// Requests a named, fixed-size storage slot on the declaration.
    pub fn add_ivar(&mut self, name: String, size: usize)
        ensures
            final(self).ivars@ == old(self).ivars@.push((IvarRequest { name, size })),
            final(self).methods == old(self).methods,
            final(self).runtime_name == old(self).runtime_name,
            final(self).superclass == old(self).superclass,
    {
        self.ivars.push(IvarRequest { name, size });
    }

    /// Requests a method addition or override on the declaration.
    pub fn add_method(&mut self, selector: String, implementation: u64)
        ensures
            final(self).methods@ == old(self).methods@.push(
                (MethodOverride { selector, implementation }),
            ),
            final(self).ivars == old(self).ivars,
            final(self).runtime_name == old(self).runtime_name,
            final(self).superclass == old(self).superclass,
    {
        self.methods.push(MethodOverride { selector, implementation });
    }
}

/// A framework-breaking registration failure. The framework cannot function
/// without its base classes, so callers that keep the original policy abort
/// on either variant; the distinct kind lets an embedding context propagate
/// instead.
#[derive(Debug)]
pub enum RegistrationError {
    /// The superclass could not be resolved, in the cache or in the runtime.
    MissingSuperclass { subclass: String, superclass: String },
    /// The runtime refused to allocate the declaration (name collision or
    /// allocation failure).
    DeclarationFailed { subclass: String, superclass: String },
}

/// The diagnostic text of a registration failure.
pub open spec fn error_message(e: RegistrationError) -> Seq<char> {
    match e {
        RegistrationError::MissingSuperclass { subclass, superclass } => "Attempted to create subclass for "@
            + subclass@ + ", but unable to load superclass of type "@ + superclass@ + "."@,
        RegistrationError::DeclarationFailed { subclass, superclass } => "Subclass of type "@
            + subclass@ + "_"@ + superclass@ + " could not be allocated."@,
    }
}

impl RegistrationError {
    /// Renders the failure as the diagnostic message identifying the
    /// offending names.
    pub fn message(&self) -> (r: String)
        ensures
            r@ == error_message(*self),
    {
        match self {
            RegistrationError::MissingSuperclass { subclass, superclass } => {
                let mut out: String = "Attempted to create subclass for ".to_owned();
                out.append(subclass.as_str());
                out.append(", but unable to load superclass of type ");
                out.append(superclass.as_str());
                out.append(".");
                out
            }
            RegistrationError::DeclarationFailed { subclass, superclass } => {
                let mut out: String = "Subclass of type ".to_owned();
                out.append(subclass.as_str());
                out.append("_");
                out.append(superclass.as_str());
                out.append(" could not be allocated.");
                out
            }
        }
    }
}

/// Second step of `load_or_register`: with the superclass resolution in hand
/// (from the cache or adopted from the runtime), either plan the declaration
/// — synthesizing its process-unique runtime name from the subclass and
/// superclass names and the optional bundle identifier — or report the
/// missing superclass as fatal.
pub fn plan_declaration(
    superclass_name: &str,
    subclass_name: &str,
    superclass: Option<u64>,
    bundle_id: Option<&str>,
) -> (r: Result<ClassDeclaration, RegistrationError>)
    ensures
        match superclass {
            Some(h) => r matches Ok(d) && d.runtime_name@ == synthesized_name(
                subclass_name@,
                superclass_name@,
                opt_name_view(bundle_id),
            ) && d.superclass == h && d.ivars@ == Seq::<IvarRequest>::empty()
                && d.methods@ == Seq::<MethodOverride>::empty(),
            None => r matches Err(e) && e matches RegistrationError::MissingSuperclass {
                subclass,
                superclass,
            } && subclass@ == subclass_name@ && superclass@ == superclass_name@,
        },
{
    match superclass {
        Some(h) => Ok(
            ClassDeclaration {
                runtime_name: synthesize_runtime_name(subclass_name, superclass_name, bundle_id),
                superclass: h,
                ivars: Vec::new(),
                methods: Vec::new(),
            },
        ),
        None => Err(
            RegistrationError::MissingSuperclass {
                subclass: subclass_name.to_owned(),
                superclass: superclass_name.to_owned(),
            },
        ),
    }
}

/// Final step of `load_or_register`: the caller registered the completed
/// declaration with the runtime and reports the outcome. A fresh handle is
/// recorded in the cache under `(subclass, Some(superclass))` and returned; a
/// refused declaration is fatal and leaves the cache untouched.
pub fn complete_registration(
    cache: &mut ClassMap,
    superclass_name: &str,
    subclass_name: &str,
    registered: Option<u64>,
) -> (r: Result<u64, RegistrationError>)
    ensures
        match registered {
            Some(h) => final(cache).contents() == old(cache).contents().insert(
                (subclass_name@, Some(superclass_name@)),
                h,
            ) && r == Ok::<u64, RegistrationError>(h),
            None => *final(cache) == *old(cache) && (r matches Err(e)
                && e matches RegistrationError::DeclarationFailed { subclass, superclass }
                && subclass@ == subclass_name@ && superclass@ == superclass_name@),
        },
{
    match registered {
        Some(h) => {
            cache.store(subclass_name, Some(superclass_name), h);
            Ok(h)
        }
        None => Err(
            RegistrationError::DeclarationFailed {
                subclass: subclass_name.to_owned(),
                superclass: superclass_name.to_owned(),
            },
        ),
    }
}

} // verus!
