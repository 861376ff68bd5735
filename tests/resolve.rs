use sp_jni::{
    ClassStep, HandleKind, InitStep, Registry, SpClass, SpError, SpField, SpMethod, SpStaticField,
    SpStaticMethod, SpType,
};

#[test]
fn init_twice_resolves_once() {
    let mut reg = Registry::new();
    let field = SpField::new(4, "count", &SpType::Int);
    let mut lookups = 0;
    for _ in 0..2 {
        match field.init(&reg).unwrap() {
            InitStep::Cached => {}
            InitStep::Lookup { name, sig } => {
                assert_eq!(name, "count");
                assert_eq!(sig, "I");
                lookups += 1;
                assert_eq!(field.complete_init(&mut reg, Some(1234)), Ok(()));
            }
        }
    }
    assert_eq!(lookups, 1);
    assert!(SpField::contains_cache(&reg, 4));
    assert_eq!(field.call(&mut reg), Ok(1234));
}

#[test]
fn method_init_asks_for_its_signature() {
    let reg = Registry::new();
    let args = vec![SpType::Int, SpType::new_class("java.lang.String")];
    let m = SpMethod::new(7, "check", &SpType::Boolean, &args);
    let step = m.init(&reg);
    assert_eq!(
        step,
        Ok(InitStep::Lookup {
            name: "check".to_string(),
            sig: "(ILjava/lang/String;)Z".to_string()
        })
    );
}

#[test]
fn method_signature_does_not_depend_on_name() {
    let reg = Registry::new();
    let args = vec![SpType::Int, SpType::new_class("java.lang.String")];
    let a = SpStaticMethod::new(1, "first", &SpType::Boolean, &args);
    let b = SpStaticMethod::new(2, "second", &SpType::Boolean, &args);
    let sig_of = |step| match step {
        Ok(InitStep::Lookup { sig, .. }) => sig,
        _ => panic!("expected a lookup"),
    };
    assert_eq!(sig_of(a.init(&reg)), sig_of(b.init(&reg)));
}

#[test]
fn call_before_init_is_cache_miss() {
    let mut reg = Registry::new();
    assert_eq!(SpMethod::cache(9).call(&mut reg), Err(SpError::CacheMiss));
    assert_eq!(SpStaticMethod::cache(9).call(&mut reg), Err(SpError::CacheMiss));
    assert_eq!(SpField::cache(9).call(&mut reg), Err(SpError::CacheMiss));
    assert_eq!(SpStaticField::cache(9).call(&mut reg), Err(SpError::CacheMiss));
}

#[test]
fn rehydrated_resolver_reads_cached_handle() {
    let mut reg = Registry::new();
    let m = SpMethod::new(3, "run", &SpType::Void, &[]);
    assert!(matches!(m.init(&reg), Ok(InitStep::Lookup { .. })));
    assert_eq!(m.complete_init(&mut reg, Some(555)), Ok(()));
    let again = SpMethod::cache(3);
    assert_eq!(again.init(&reg), Ok(InitStep::Cached));
    assert_eq!(again.call(&mut reg), Ok(555));
}

#[test]
fn key_alone_cannot_be_looked_up() {
    let reg = Registry::new();
    let e = SpField::cache(2).init(&reg).unwrap_err();
    assert_eq!(e, SpError::MissingDescriptor(HandleKind::Field));
    assert_eq!(e.message(), "init field error: name or return type is null");
    let e = SpStaticField::cache(2).init(&reg).unwrap_err();
    assert_eq!(e.message(), "init static field error: name or return type is null");
    let e = SpMethod::cache(2).init(&reg).unwrap_err();
    assert_eq!(e, SpError::MissingDescriptor(HandleKind::Method));
    assert_eq!(e.message(), "init static method error: name or sig is null");
    let e = SpStaticMethod::cache(2).init(&reg).unwrap_err();
    assert_eq!(e.message(), "init static method error: name or sig is null");
}

#[test]
fn failed_lookup_is_not_cached() {
    let mut reg = Registry::new();
    let f = SpStaticField::new(6, "MAX", &SpType::Long);
    assert_eq!(
        f.init(&reg),
        Ok(InitStep::Lookup { name: "MAX".to_string(), sig: "J".to_string() })
    );
    assert_eq!(f.complete_init(&mut reg, None), Err(SpError::ResolutionFailure));
    assert!(!SpStaticField::contains_cache(&reg, 6));
    assert_eq!(f.call(&mut reg), Err(SpError::CacheMiss));
}

#[test]
fn kinds_have_separate_key_spaces() {
    let mut reg = Registry::new();
    let f = SpField::new(1, "x", &SpType::Int);
    assert_eq!(f.complete_init(&mut reg, Some(10)), Ok(()));
    assert!(SpField::contains_cache(&reg, 1));
    assert!(!SpStaticField::contains_cache(&reg, 1));
    assert!(!SpMethod::contains_cache(&reg, 1));
    assert!(!SpStaticMethod::contains_cache(&reg, 1));
    assert!(!SpClass::contains_cache(&reg, 1));
    assert_eq!(SpStaticField::cache(1).call(&mut reg), Err(SpError::CacheMiss));
}

#[test]
fn class_is_found_once_then_cached() {
    let mut reg = Registry::new();
    let mut c = SpClass::new(1, "java.lang.String");
    assert_eq!(c.get_jni_class(), Err(SpError::ClassNotInit));
    assert_eq!(
        c.init(&mut reg),
        Ok(ClassStep::Find { path: "java/lang/String".to_string() })
    );
    assert_eq!(c.complete_init(&mut reg, Some(99)), Ok(()));
    assert_eq!(c.get_jni_class(), Ok(99));
    assert_eq!(c.init(&mut reg), Ok(ClassStep::Ready));
    assert!(SpClass::contains_cache(&reg, 1));

    let mut again = SpClass::cache(1);
    assert_eq!(again.init(&mut reg), Ok(ClassStep::Ready));
    assert_eq!(again.get_jni_class(), Ok(99));
}

#[test]
fn uncached_class_key_is_never_cached() {
    let mut reg = Registry::new();
    let mut c = SpClass::from_sig("java.util.Map");
    assert_eq!(
        c.init(&mut reg),
        Ok(ClassStep::Find { path: "java/util/Map".to_string() })
    );
    assert_eq!(c.complete_init(&mut reg, Some(7)), Ok(()));
    assert_eq!(c.get_jni_class(), Ok(7));
    assert!(!SpClass::contains_cache(&reg, -1));
    let mut other = SpClass::from_sig("java.util.List");
    assert_eq!(
        other.init(&mut reg),
        Ok(ClassStep::Find { path: "java/util/List".to_string() })
    );
}

#[test]
fn class_without_path_or_cache_fails() {
    let mut reg = Registry::new();
    let mut c = SpClass::cache(8);
    let e = c.init(&mut reg).unwrap_err();
    assert_eq!(e, SpError::NoClassCache);
    assert_eq!(e.message(), "no class cache");
    assert_eq!(c.complete_init(&mut reg, None), Err(SpError::ResolutionFailure));
    assert_eq!(c.get_jni_class(), Err(SpError::ClassNotInit));
}

#[test]
fn many_keys_fit_in_registry() {
    let mut reg = Registry::new();
    for k in 0..10 {
        let m = SpStaticMethod::new(k, "m", &SpType::Void, &[]);
        assert_eq!(m.complete_init(&mut reg, Some(100 + k as usize)), Ok(()));
        assert_eq!(m.call(&mut reg), Ok(100 + k as usize));
    }
}

#[test]
fn obtain_picks_cached_or_fresh_resolver() {
    let mut reg = Registry::new();
    let fresh = SpMethod::obtain(&reg, 5, "run", &SpType::Int, &[SpType::Long]);
    assert_eq!(
        fresh.init(&reg),
        Ok(InitStep::Lookup { name: "run".to_string(), sig: "(J)I".to_string() })
    );
    assert_eq!(fresh.complete_init(&mut reg, Some(31)), Ok(()));
    let cached = SpMethod::obtain(&reg, 5, "run", &SpType::Int, &[SpType::Long]);
    assert_eq!(cached.init(&reg), Ok(InitStep::Cached));
    assert_eq!(cached.call(&mut reg), Ok(31));

    let f = SpField::obtain(&reg, 5, "v", &SpType::Boolean);
    assert!(matches!(f.init(&reg), Ok(InitStep::Lookup { .. })));

    let mut c = SpClass::obtain(&reg, 2, "a.B");
    assert_eq!(c.init(&mut reg), Ok(ClassStep::Find { path: "a/B".to_string() }));
    assert_eq!(c.complete_init(&mut reg, Some(8)), Ok(()));
    let mut again = SpClass::obtain(&reg, 2, "a.B");
    assert_eq!(again.init(&mut reg), Ok(ClassStep::Ready));
    assert_eq!(again.get_jni_class(), Ok(8));
}

#[test]
fn uncached_class_without_path_says_no_class() {
    let mut reg = Registry::new();
    let mut c = SpClass::cache(-1);
    let e = c.init(&mut reg).unwrap_err();
    assert_eq!(e, SpError::MissingDescriptor(HandleKind::Class));
    assert_eq!(e.message(), "no class");
}
