use vstd::prelude::*;
use vstd::utf8::encode_utf8;

use crate::cache::{call_outcome, HandleCache, HandleKind, Registry};
use crate::error::SpError;
use crate::signature::{encode, encode_all, method_sig, method_signature, SpType};
use crate::text::{replace_char, swap_char};

verus! {

pub type ClassKey = i32;

pub type FieldKey = i32;

pub type StaticFieldKey = i32;

pub type MethodKey = i32;

pub type StaticMethodKey = i32;

/// The view of an optional string.
pub open spec fn opt_view(o: Option<String>) -> Option<Seq<char>> {
    match o {
        Some(s) => Some(s@),
        None => None,
    }
}

/// What a member resolver holds: its cache key, and the name and signature
/// that a lookup needs (absent in a resolver made from the key alone).
pub ghost struct MemberView {
    pub key: i32,
    pub name: Option<Seq<char>>,
    pub sig: Option<Seq<char>>,
}

/// What `init` of a member resolver has to do next.
#[derive(Debug, PartialEq, Eq)]
pub enum InitStep {
    /// The handle is cached: nothing is left to do.
    Cached,
    /// The host runtime has to look the member up by name and signature.
    Lookup { name: String, sig: String },
}

/// Whether initialising the member `key` against the cache entries `m` asks
/// the host runtime for a lookup.
pub open spec fn needs_lookup(m: Map<i32, usize>, key: i32) -> bool {
    !m.contains_key(key)
}

/// `r` is what `init` of the member `d` decides against the cache entries `m`:
/// served from the cache, a lookup by the member's own name and signature, or
/// a missing descriptor.
pub open spec fn init_decision(
    m: Map<i32, usize>,
    kind: HandleKind,
    d: MemberView,
    r: Result<InitStep, SpError>,
) -> bool {
    if !needs_lookup(m, d.key) {
        r == Ok::<InitStep, SpError>(InitStep::Cached)
    } else if d.name is Some && d.sig is Some {
        r matches Ok(InitStep::Lookup { name, sig }) && name@ == d.name->0 && sig@ == d.sig->0
    } else {
        r == Err::<InitStep, SpError>(SpError::MissingDescriptor(kind))
    }
}

/// The cache went from `before` to `after`, with outcome `r`, when the host's
/// answer `found` to a lookup of `key` was published: a failed lookup fails
/// and leaves the cache alone; a found handle is cached, unless the key
/// already had one.
pub open spec fn published(
    before: Map<i32, usize>,
    after: Map<i32, usize>,
    key: i32,
    found: Option<usize>,
    r: Result<(), SpError>,
) -> bool {
    match found {
        None => r == Err::<(), SpError>(SpError::ResolutionFailure) && after == before,
        Some(h) => {
            &&& r == Ok::<(), SpError>(())
            &&& after.contains_key(key)
            &&& before.contains_key(key) ==> after == before
            &&& !before.contains_key(key) ==> after[key] == h && after.submap_of(
                before.insert(key, h),
            )
        },
    }
}

/// Initialising a member twice under one key asks the host runtime for exactly
/// one lookup: the first `init` of a fresh key with a full descriptor asks for
/// it, and once its answer is published the second `init` is served from the cache.
pub proof fn lemma_init_twice_resolves_once(
    before: Map<i32, usize>,
    after: Map<i32, usize>,
    kind: HandleKind,
    d: MemberView,
    h: usize,
    first: Result<InitStep, SpError>,
    published_r: Result<(), SpError>,
    second: Result<InitStep, SpError>,
)
    requires
        needs_lookup(before, d.key),
        d.name is Some,
        d.sig is Some,
        init_decision(before, kind, d, first),
        published(before, after, d.key, Some(h), published_r),
        init_decision(after, kind, d, second),
    ensures
        first is Ok && first->Ok_0 is Lookup,
        !needs_lookup(after, d.key),
        after[d.key] == h,
        second == Ok::<InitStep, SpError>(InitStep::Cached),
{
}

/// The signature of a method resolver depends on its argument and return
/// types alone: two resolvers made with the same types but other keys or names
/// look their methods up by the same signature.
pub proof fn lemma_signature_ignores_name(
    k1: i32,
    k2: i32,
    n1: Seq<char>,
    n2: Seq<char>,
    args: Seq<SpType>,
    ret: SpType,
    m1: MemberView,
    m2: MemberView,
)
    requires
        m1 == (MemberView { key: k1, name: Some(n1), sig: Some(method_sig(args, ret)) }),
        m2 == (MemberView { key: k2, name: Some(n2), sig: Some(method_sig(args, ret)) }),
    ensures
        m1.sig == m2.sig,
        m1.sig == Some(seq!['('] + encode_all(args) + seq![')'] + encode(ret)),
{
}

/// Invoking a member whose key has no cached handle is a cache miss, which
/// hands out no handle to invoke.
pub proof fn lemma_call_before_init_misses(m: Map<i32, usize>, key: i32)
    requires
        !m.contains_key(key),
    ensures
        call_outcome(m, key) == Err::<usize, SpError>(SpError::CacheMiss),
{
}

fn plan_member(
    cache: &HandleCache,
    kind: HandleKind,
    key: i32,
    name: &Option<String>,
    sig: &Option<String>,
) -> (r: Result<InitStep, SpError>)
    ensures
        init_decision(cache@, kind, MemberView { key, name: opt_view(*name), sig: opt_view(*sig) }, r),
{
    if cache.contains_key(key) {
        return Ok(InitStep::Cached);
    }
    match (name, sig) {
        (Some(n), Some(s)) => Ok(InitStep::Lookup { name: n.clone(), sig: s.clone() }),
        _ => Err(SpError::MissingDescriptor(kind)),
    }
}

fn publish_member(cache: &mut HandleCache, key: i32, found: Option<usize>) -> (r: Result<(), SpError>)
    ensures
        published(old(cache)@, final(cache)@, key, found, r),
{
    match found {
        None => Err(SpError::ResolutionFailure),
        Some(h) => {
            if !cache.contains_key(key) {
                cache.insert(key, h);
            }
            Ok(())
        },
    }
}

fn call_member(cache: &mut HandleCache, key: i32) -> (r: Result<usize, SpError>)
    ensures
        r == call_outcome(old(cache)@, key),
        final(cache)@.submap_of(old(cache)@),
{
    match cache.get(key) {
        Some(id) => Ok(id),
        None => Err(SpError::CacheMiss),
    }
}

/// What a class resolver holds: its cache key (negative: never cached), the
/// class path with slashes, and the durable class handle once initialised.
pub ghost struct ClassView {
    pub key: i32,
    pub path: Option<Seq<char>>,
    pub handle: Option<usize>,
}

/// The path that a class contributes to a descriptor; a resolver without a
/// path stands for the root object class.
pub open spec fn class_path(v: ClassView) -> Seq<char> {
    match v.path {
        Some(p) => p,
        None => "java/lang/Object"@,
    }
}

/// A resolver for the class named by `sig`, with dots turned into slashes.
pub open spec fn class_view_of(key: i32, sig: Seq<char>) -> ClassView {
    ClassView { key, path: Some(swap_char(sig, '.', '/')), handle: None }
}

/// `r` is what `init` of the class resolver `before` decides against the cache
/// entries `m`, and `after` is the resolver then: one that holds its handle is
/// ready; one whose key is cached takes the cached handle; any other has to
/// find its class by path, or fails when it has none.
pub open spec fn class_init_decision(
    m: Map<i32, usize>,
    before: ClassView,
    after: ClassView,
    r: Result<ClassStep, SpError>,
) -> bool {
    if before.handle is Some {
        r == Ok::<ClassStep, SpError>(ClassStep::Ready) && after == before
    } else if before.key >= 0 && m.contains_key(before.key) {
        r == Ok::<ClassStep, SpError>(ClassStep::Ready) && after == (ClassView {
            handle: Some(m[before.key]),
            ..before
        })
    } else {
        after == before && match before.path {
            Some(p) => r matches Ok(ClassStep::Find { path }) && path@ == p,
            None => r == Err::<ClassStep, SpError>(
                if before.key < 0 {
                    SpError::MissingDescriptor(HandleKind::Class)
                } else {
                    SpError::NoClassCache
                },
            ),
        }
    }
}

/// What `init` of a class resolver has to do next.
#[derive(Debug, PartialEq, Eq)]
pub enum ClassStep {
    /// The resolver holds its class handle.
    Ready,
    /// The host runtime has to find the class by path and promote it to a
    /// durable reference.
    Find { path: String },
}

/// A class is found and promoted by the host at most once per cache key: once
/// a handle for a non-negative key is published, any resolver of that key
/// without a handle of its own takes the cached one and asks for no search.
pub proof fn lemma_class_found_once(
    before: Map<i32, usize>,
    after: Map<i32, usize>,
    h: usize,
    published_r: Result<(), SpError>,
    resolver: ClassView,
    resolved: ClassView,
    step: Result<ClassStep, SpError>,
)
    requires
        resolver.key >= 0,
        resolver.handle is None,
        published(before, after, resolver.key, Some(h), published_r),
        class_init_decision(after, resolver, resolved, step),
    ensures
        step == Ok::<ClassStep, SpError>(ClassStep::Ready),
        resolved.handle == Some(after[resolver.key]),
{
}

/// Resolver of a class, cached in the registry's `classes` unless its key is negative.
pub struct SpClass {
    cache: ClassKey,
    class_full_path: Option<String>,
    jni_class_ref: Option<usize>,
}

impl View for SpClass {
    type V = ClassView;

    closed spec fn view(&self) -> ClassView {
        ClassView { key: self.cache, path: opt_view(self.class_full_path), handle: self.jni_class_ref }
    }
}

impl SpClass {
    /// The view of `from_sig(sig)`.
    pub open spec fn from_sig_view(sig: Seq<char>) -> ClassView {
        class_view_of(-1i32, sig)
    }

    /// Whether a handle for `key` is cached.
    pub fn contains_cache(reg: &Registry, key: ClassKey) -> (r: bool)
        ensures
            r == reg.classes@.contains_key(key),
    {
        reg.classes.contains_key(key)
    }

    /// An uncached resolver for the class named by `sig`.
    pub fn from_sig(sig: &str) -> (r: Self)
        ensures
            r@ == Self::from_sig_view(sig@),
    {
        let path = replace_char(sig, '.', '/');
        SpClass { cache: -1, class_full_path: Some(path), jni_class_ref: None }
    }

    /// A resolver for a class whose handle is expected to be cached already.
    pub fn cache(key: ClassKey) -> (r: Self)
        ensures
            r@ == (ClassView { key, path: None, handle: None }),
    {
        SpClass { cache: key, class_full_path: None, jni_class_ref: None }
    }

    /// A resolver for the class named by `sig`, cached under `key`.
    pub fn new(key: ClassKey, sig: &str) -> (r: Self)
        ensures
            r@ == class_view_of(key, sig@),
    {
        let path = replace_char(sig, '.', '/');
        SpClass { cache: key, class_full_path: Some(path), jni_class_ref: None }
    }

    /// The resolver to use for `key`: one made from the key alone when a
    /// handle is cached under it, else one that can find the class named by `sig`.
    pub fn obtain(reg: &Registry, key: ClassKey, sig: &str) -> (r: Self)
        ensures
            reg.classes@.contains_key(key) ==> r@ == (ClassView { key, path: None, handle: None }),
            !reg.classes@.contains_key(key) ==> r@ == class_view_of(key, sig@),
    {
        if SpClass::contains_cache(reg, key) {
            SpClass::cache(key)
        } else {
            SpClass::new(key, sig)
        }
    }

    /// The class path as it stands in a descriptor.
    pub(crate) fn descriptor_path(&self) -> (r: &str)
        ensures
            r@ == class_path(self@),
    {
        match &self.class_full_path {
            Some(p) => p.as_str(),
            None => {
                let r = "java/lang/Object";
                proof {
                    reveal_strlit("java/lang/Object");
                }
                r
            },
        }
    }

    /// Brings this resolver towards holding its class handle: done when it
    /// holds one; taken from the cache when its key is cached; else the class
    /// has to be found by path, which fails when there is no path.
    pub fn init(&mut self, reg: &mut Registry) -> (r: Result<ClassStep, SpError>)
        ensures
            final(reg).same_except(*old(reg), HandleKind::Class),
            final(reg).classes@.submap_of(old(reg).classes@),
            class_init_decision(old(reg).classes@, old(self)@, final(self)@, r),
            old(self)@.handle is Some || old(self)@.key < 0 ==> *final(reg) == *old(reg),
    {
        if self.jni_class_ref.is_some() {
            return Ok(ClassStep::Ready);
        }
        if self.cache >= 0 {
            match reg.classes.get(self.cache) {
                Some(handle) => {
                    self.jni_class_ref = Some(handle);
                    return Ok(ClassStep::Ready);
                },
                None => {},
            }
        }
        match &self.class_full_path {
            Some(p) => Ok(ClassStep::Find { path: p.clone() }),
            None => if self.cache < 0 {
                Err(SpError::MissingDescriptor(HandleKind::Class))
            } else {
                Err(SpError::NoClassCache)
            },
        }
    }

    /// Takes the host's answer to the search that `init` asked for: a found
    /// (already promoted) handle is held, and cached when the key is not negative.
    pub fn complete_init(&mut self, reg: &mut Registry, found: Option<usize>) -> (r: Result<
        (),
        SpError,
    >)
        ensures
            final(reg).same_except(*old(reg), HandleKind::Class),
            found is None ==> final(self)@ == old(self)@,
            found matches Some(h) ==> final(self)@ == (ClassView { handle: Some(h), ..old(self)@ }),
            old(self)@.key >= 0 ==> published(
                old(reg).classes@,
                final(reg).classes@,
                old(self)@.key,
                found,
                r,
            ),
            old(self)@.key < 0 ==> *final(reg) == *old(reg) && r == match found {
                Some(_) => Ok::<(), SpError>(()),
                None => Err(SpError::ResolutionFailure),
            },
    {
        match found {
            None => Err(SpError::ResolutionFailure),
            Some(h) => {
                if self.cache >= 0 && !reg.classes.contains_key(self.cache) {
                    reg.classes.insert(self.cache, h);
                }
                self.jni_class_ref = Some(h);
                Ok(())
            },
        }
    }

    /// The class handle, once the resolver is initialised.
    pub fn get_jni_class(&self) -> (r: Result<usize, SpError>)
        ensures
            r == match self@.handle {
                Some(h) => Ok(h),
                None => Err(SpError::ClassNotInit),
            },
    {
        match self.jni_class_ref {
            Some(h) => Ok(h),
            None => Err(SpError::ClassNotInit),
        }
    }
}

/// Resolver of a static field, cached in the registry's `static_fields`.
pub struct SpStaticField {
    cache: StaticFieldKey,
    name: Option<String>,
    ret: Option<String>,
}

impl View for SpStaticField {
    type V = MemberView;

    closed spec fn view(&self) -> MemberView {
        MemberView { key: self.cache, name: opt_view(self.name), sig: opt_view(self.ret) }
    }
}

impl SpStaticField {
    /// Whether a handle for `key` is cached.
    pub fn contains_cache(reg: &Registry, key: StaticFieldKey) -> (r: bool)
        ensures
            r == reg.static_fields@.contains_key(key),
    {
        reg.static_fields.contains_key(key)
    }

    /// A resolver for a handle that is expected to be cached already.
    pub fn cache(key: StaticFieldKey) -> (r: Self)
        ensures
            r@ == (MemberView { key, name: None, sig: None }),
    {
        SpStaticField { cache: key, name: None, ret: None }
    }

    /// A resolver that looks the field up by `name` and its type's descriptor.
    pub fn new(key: StaticFieldKey, name: &str, return_type: &SpType) -> (r: Self)
        ensures
            r@ == (MemberView { key, name: Some(name@), sig: Some(encode(*return_type)) }),
    {
        SpStaticField { cache: key, name: Some(String::from_str(name)), ret: Some(return_type.to_string()) }
    }

    /// The resolver to use for `key`: one made from the key alone when a
    /// handle is cached under it, else one that can look the field up.
    pub fn obtain(reg: &Registry, key: StaticFieldKey, name: &str, return_type: &SpType) -> (r: Self)
        ensures
            reg.static_fields@.contains_key(key) ==> r@ == (MemberView { key, name: None, sig: None }),
            !reg.static_fields@.contains_key(key) ==> r@ == (MemberView {
                key,
                name: Some(name@),
                sig: Some(encode(*return_type)),
            }),
    {
        if SpStaticField::contains_cache(reg, key) {
            SpStaticField::cache(key)
        } else {
            SpStaticField::new(key, name, return_type)
        }
    }

    /// Decides what initialising this resolver takes: nothing when its key is
    /// cached, else a lookup by its name and signature.
    pub fn init(&self, reg: &Registry) -> (r: Result<InitStep, SpError>)
        ensures
            init_decision(reg.static_fields@, HandleKind::StaticField, self@, r),
    {
        plan_member(&reg.static_fields, HandleKind::StaticField, self.cache, &self.name, &self.ret)
    }

    /// Publishes the host's answer to the lookup that `init` asked for.
    pub fn complete_init(&self, reg: &mut Registry, found: Option<usize>) -> (r: Result<(), SpError>)
        ensures
            published(old(reg).static_fields@, final(reg).static_fields@, self@.key, found, r),
            final(reg).same_except(*old(reg), HandleKind::StaticField),
    {
        publish_member(&mut reg.static_fields, self.cache, found)
    }

    /// The cached raw handle that an invocation goes through; a cache miss
    /// when `init` has not cached one, and then nothing is to be invoked.
    pub fn call(&self, reg: &mut Registry) -> (r: Result<usize, SpError>)
        ensures
            r == call_outcome(old(reg).static_fields@, self@.key),
            final(reg).static_fields@.submap_of(old(reg).static_fields@),
            final(reg).same_except(*old(reg), HandleKind::StaticField),
    {
        call_member(&mut reg.static_fields, self.cache)
    }
}

/// Resolver of an instance field, cached in the registry's `fields`.
pub struct SpField {
    cache: FieldKey,
    name: Option<String>,
    ret: Option<String>,
}

impl View for SpField {
    type V = MemberView;

    closed spec fn view(&self) -> MemberView {
        MemberView { key: self.cache, name: opt_view(self.name), sig: opt_view(self.ret) }
    }
}

impl SpField {
    /// Whether a handle for `key` is cached.
    pub fn contains_cache(reg: &Registry, key: FieldKey) -> (r: bool)
        ensures
            r == reg.fields@.contains_key(key),
    {
        reg.fields.contains_key(key)
    }

    /// A resolver for a handle that is expected to be cached already.
    pub fn cache(key: FieldKey) -> (r: Self)
        ensures
            r@ == (MemberView { key, name: None, sig: None }),
    {
        SpField { cache: key, name: None, ret: None }
    }

    /// A resolver that looks the field up by `name` and its type's descriptor.
    pub fn new(key: FieldKey, name: &str, return_type: &SpType) -> (r: Self)
        ensures
            r@ == (MemberView { key, name: Some(name@), sig: Some(encode(*return_type)) }),
    {
        SpField { cache: key, name: Some(String::from_str(name)), ret: Some(return_type.to_string()) }
    }

    /// The resolver to use for `key`: one made from the key alone when a
    /// handle is cached under it, else one that can look the field up.
    pub fn obtain(reg: &Registry, key: FieldKey, name: &str, return_type: &SpType) -> (r: Self)
        ensures
            reg.fields@.contains_key(key) ==> r@ == (MemberView { key, name: None, sig: None }),
            !reg.fields@.contains_key(key) ==> r@ == (MemberView {
                key,
                name: Some(name@),
                sig: Some(encode(*return_type)),
            }),
    {
        if SpField::contains_cache(reg, key) {
            SpField::cache(key)
        } else {
            SpField::new(key, name, return_type)
        }
    }

    /// Decides what initialising this resolver takes: nothing when its key is
    /// cached, else a lookup by its name and signature.
    pub fn init(&self, reg: &Registry) -> (r: Result<InitStep, SpError>)
        ensures
            init_decision(reg.fields@, HandleKind::Field, self@, r),
    {
        plan_member(&reg.fields, HandleKind::Field, self.cache, &self.name, &self.ret)
    }

    /// Publishes the host's answer to the lookup that `init` asked for.
    pub fn complete_init(&self, reg: &mut Registry, found: Option<usize>) -> (r: Result<(), SpError>)
        ensures
            published(old(reg).fields@, final(reg).fields@, self@.key, found, r),
            final(reg).same_except(*old(reg), HandleKind::Field),
    {
        publish_member(&mut reg.fields, self.cache, found)
    }

    /// The cached raw handle that an invocation goes through; a cache miss
    /// when `init` has not cached one, and then nothing is to be invoked.
    pub fn call(&self, reg: &mut Registry) -> (r: Result<usize, SpError>)
        ensures
            r == call_outcome(old(reg).fields@, self@.key),
            final(reg).fields@.submap_of(old(reg).fields@),
            final(reg).same_except(*old(reg), HandleKind::Field),
    {
        call_member(&mut reg.fields, self.cache)
    }
}

/// Resolver of a static method, cached in the registry's `static_methods`.
pub struct SpStaticMethod {
    cache: StaticMethodKey,
    name: Option<String>,
    sig: Option<String>,
}

impl View for SpStaticMethod {
    type V = MemberView;

    closed spec fn view(&self) -> MemberView {
        MemberView { key: self.cache, name: opt_view(self.name), sig: opt_view(self.sig) }
    }
}

impl SpStaticMethod {
    /// Whether a handle for `key` is cached.
    pub fn contains_cache(reg: &Registry, key: StaticMethodKey) -> (r: bool)
        ensures
            r == reg.static_methods@.contains_key(key),
    {
        reg.static_methods.contains_key(key)
    }

    /// A resolver for a handle that is expected to be cached already.
    pub fn cache(key: StaticMethodKey) -> (r: Self)
        ensures
            r@ == (MemberView { key, name: None, sig: None }),
    {
        SpStaticMethod { cache: key, name: None, sig: None }
    }

    /// A resolver that looks the method up by `name` and the signature made of
    /// `args` and `return_type`.
    pub fn new(key: StaticMethodKey, name: &str, return_type: &SpType, args: &[SpType]) -> (r: Self)
        requires
            encode_utf8(method_sig(args@, *return_type)).len() <= usize::MAX,
        ensures
            r@ == (MemberView { key, name: Some(name@), sig: Some(method_sig(args@, *return_type)) }),
    {
        let sig = method_signature(args, return_type);
        SpStaticMethod { cache: key, name: Some(String::from_str(name)), sig: Some(sig) }
    }

    /// The resolver to use for `key`: one made from the key alone when a
    /// handle is cached under it, else one that can look the method up.
    pub fn obtain(reg: &Registry, key: StaticMethodKey, name: &str, return_type: &SpType, args: &[SpType]) -> (r:
        Self)
        requires
            encode_utf8(method_sig(args@, *return_type)).len() <= usize::MAX,
        ensures
            reg.static_methods@.contains_key(key) ==> r@ == (MemberView { key, name: None, sig: None }),
            !reg.static_methods@.contains_key(key) ==> r@ == (MemberView {
                key,
                name: Some(name@),
                sig: Some(method_sig(args@, *return_type)),
            }),
    {
        if SpStaticMethod::contains_cache(reg, key) {
            SpStaticMethod::cache(key)
        } else {
            SpStaticMethod::new(key, name, return_type, args)
        }
    }

    /// Decides what initialising this resolver takes: nothing when its key is
    /// cached, else a lookup by its name and signature.
    pub fn init(&self, reg: &Registry) -> (r: Result<InitStep, SpError>)
        ensures
            init_decision(reg.static_methods@, HandleKind::StaticMethod, self@, r),
    {
        plan_member(&reg.static_methods, HandleKind::StaticMethod, self.cache, &self.name, &self.sig)
    }

    /// Publishes the host's answer to the lookup that `init` asked for.
    pub fn complete_init(&self, reg: &mut Registry, found: Option<usize>) -> (r: Result<(), SpError>)
        ensures
            published(old(reg).static_methods@, final(reg).static_methods@, self@.key, found, r),
            final(reg).same_except(*old(reg), HandleKind::StaticMethod),
    {
        publish_member(&mut reg.static_methods, self.cache, found)
    }

    /// The cached raw handle that an invocation goes through; a cache miss
    /// when `init` has not cached one, and then nothing is to be invoked.
    pub fn call(&self, reg: &mut Registry) -> (r: Result<usize, SpError>)
        ensures
            r == call_outcome(old(reg).static_methods@, self@.key),
            final(reg).static_methods@.submap_of(old(reg).static_methods@),
            final(reg).same_except(*old(reg), HandleKind::StaticMethod),
    {
        call_member(&mut reg.static_methods, self.cache)
    }
}

/// Resolver of an instance method, cached in the registry's `methods`.
pub struct SpMethod {
    cache: MethodKey,
    name: Option<String>,
    sig: Option<String>,
}

impl View for SpMethod {
    type V = MemberView;

    closed spec fn view(&self) -> MemberView {
        MemberView { key: self.cache, name: opt_view(self.name), sig: opt_view(self.sig) }
    }
}

impl SpMethod {
    /// Whether a handle for `key` is cached.
    pub fn contains_cache(reg: &Registry, key: MethodKey) -> (r: bool)
        ensures
            r == reg.methods@.contains_key(key),
    {
        reg.methods.contains_key(key)
    }

    /// A resolver for a handle that is expected to be cached already.
    pub fn cache(key: MethodKey) -> (r: Self)
        ensures
            r@ == (MemberView { key, name: None, sig: None }),
    {
        SpMethod { cache: key, name: None, sig: None }
    }

    /// A resolver that looks the method up by `name` and the signature made of
    /// `args` and `return_type`.
    pub fn new(key: MethodKey, name: &str, return_type: &SpType, args: &[SpType]) -> (r: Self)
        requires
            encode_utf8(method_sig(args@, *return_type)).len() <= usize::MAX,
        ensures
            r@ == (MemberView { key, name: Some(name@), sig: Some(method_sig(args@, *return_type)) }),
    {
        let sig = method_signature(args, return_type);
        SpMethod { cache: key, name: Some(String::from_str(name)), sig: Some(sig) }
    }

    /// The resolver to use for `key`: one made from the key alone when a
    /// handle is cached under it, else one that can look the method up.
    pub fn obtain(reg: &Registry, key: MethodKey, name: &str, return_type: &SpType, args: &[SpType]) -> (r:
        Self)
        requires
            encode_utf8(method_sig(args@, *return_type)).len() <= usize::MAX,
        ensures
            reg.methods@.contains_key(key) ==> r@ == (MemberView { key, name: None, sig: None }),
            !reg.methods@.contains_key(key) ==> r@ == (MemberView {
                key,
                name: Some(name@),
                sig: Some(method_sig(args@, *return_type)),
            }),
    {
        if SpMethod::contains_cache(reg, key) {
            SpMethod::cache(key)
        } else {
            SpMethod::new(key, name, return_type, args)
        }
    }

    /// Decides what initialising this resolver takes: nothing when its key is
    /// cached, else a lookup by its name and signature.
    pub fn init(&self, reg: &Registry) -> (r: Result<InitStep, SpError>)
        ensures
            init_decision(reg.methods@, HandleKind::Method, self@, r),
    {
        plan_member(&reg.methods, HandleKind::Method, self.cache, &self.name, &self.sig)
    }

    /// Publishes the host's answer to the lookup that `init` asked for.
    pub fn complete_init(&self, reg: &mut Registry, found: Option<usize>) -> (r: Result<(), SpError>)
        ensures
            published(old(reg).methods@, final(reg).methods@, self@.key, found, r),
            final(reg).same_except(*old(reg), HandleKind::Method),
    {
        publish_member(&mut reg.methods, self.cache, found)
    }

    /// The cached raw handle that an invocation goes through; a cache miss
    /// when `init` has not cached one, and then nothing is to be invoked.
    pub fn call(&self, reg: &mut Registry) -> (r: Result<usize, SpError>)
        ensures
            r == call_outcome(old(reg).methods@, self@.key),
            final(reg).methods@.submap_of(old(reg).methods@),
            final(reg).same_except(*old(reg), HandleKind::Method),
    {
        call_member(&mut reg.methods, self.cache)
    }
}

} // verus!
