use refbridge::errors::{AttachError, LookupError, RefError, RuntimeError};
use refbridge::handle::RefKind;
use refbridge::record::RefRegistry;
use refbridge::resolver::{resolve, source_from_attached, ClassSource};
use refbridge::runtime::Runtime;
use refbridge::scoped::ScopedLocalRef;

const ATOMIC_INTEGER: &str = "java/util/concurrent/atomic/AtomicInteger";

/// A runtime with the counter class loaded, one attached thread, and one
/// fresh counter instance.
fn setup() -> (Runtime, refbridge::runtime::EnvContext, refbridge::handle::NativeHandle) {
    let mut rt = Runtime::new();
    rt.register_class(ATOMIC_INTEGER.to_string());
    let env = rt.attach_current_thread(0).unwrap();
    let cls = rt.find_class(&env, &ATOMIC_INTEGER.to_string()).unwrap();
    let obj = rt.new_object(&env, &cls, 0).unwrap();
    (rt, env, obj)
}

#[test]
fn refcount_conservation_scenario() {
    let (mut rt, env, obj) = setup();
    let mut reg = RefRegistry::new();

    let d1 = reg.promote(&mut rt, &env, &obj).unwrap();
    let d2 = d1.clone_ref(&mut reg, &rt);
    let d3 = d1.clone_ref(&mut reg, &rt);

    // Keep a raw copy of the guarded handle to observe the deletion later.
    let probe = d1.clone_ref(&mut reg, &rt).attach(&rt, &env);
    let raw = probe.as_raw(&reg);
    assert_eq!(3, probe.release(&mut reg, &mut rt, &env));

    assert_eq!(2, d3.release(&mut reg, &mut rt, Some(&env)).unwrap());
    assert_eq!(1, d2.release(&mut reg, &mut rt, Some(&env)).unwrap());

    // Last share: releasing without an attached context is refused and hands
    // the share back; nothing was deleted.
    let d1 = match d1.release(&mut reg, &mut rt, None) {
        Err((token, RefError::ReleaseOnDetachedThread)) => token,
        Ok(_) => panic!("last release must not succeed without attachment"),
    };
    assert_eq!(0, rt.counter_get(&env, &raw).unwrap());

    // With an attached context the count reaches zero and the handle dies.
    assert_eq!(0, d1.release(&mut reg, &mut rt, Some(&env)).unwrap());
    assert_eq!(
        Err(RuntimeError::InvalidHandle),
        rt.counter_get(&env, &raw)
    );
    // The slot is dead for the runtime's own deletion too: nothing is there
    // to delete twice.
    assert_eq!(
        Err(RuntimeError::InvalidHandle),
        rt.delete_global_ref(&env, raw)
    );
}

#[test]
fn attach_detach_round_trip_same_object() {
    let (mut rt, env, obj) = setup();
    let mut reg = RefRegistry::new();

    let attached = reg.promote_attached(&mut rt, &env, &obj).unwrap();
    assert_eq!(
        1,
        rt.counter_add_and_get(&env, &attached.as_raw(&reg), 1).unwrap()
    );

    // detach / attach / detach / attach: still the same underlying object,
    // observable because the counter keeps accumulating.
    let attached = attached.detach().attach(&rt, &env);
    assert_eq!(
        2,
        rt.counter_add_and_get(&env, &attached.as_raw(&reg), 1).unwrap()
    );
    let attached = attached.detach().attach(&rt, &env);
    assert_eq!(
        3,
        rt.counter_add_and_get(&env, &attached.as_raw(&reg), 1).unwrap()
    );
    assert_eq!(0, attached.release(&mut reg, &mut rt, &env));
}

#[test]
fn resolver_name_lookup_and_instantiation() {
    let mut rt = Runtime::new();
    rt.register_class(ATOMIC_INTEGER.to_string());
    let env = rt.attach_current_thread(0).unwrap();

    let src = ClassSource::Name(ATOMIC_INTEGER.to_string());
    let cls = resolve(&mut rt, &env, &src).unwrap();
    assert_eq!(RefKind::Local, cls.handle.kind);

    // The resolved handle is directly usable: instantiation succeeds.
    let obj = rt.new_object(&env, &cls, 41).unwrap();
    assert_eq!(42, rt.counter_add_and_get(&env, &obj, 1).unwrap());
}

#[test]
fn resolver_unknown_name_fails_without_mutation() {
    let mut rt = Runtime::new();
    rt.register_class(ATOMIC_INTEGER.to_string());
    let env = rt.attach_current_thread(0).unwrap();

    let before = rt.ref_table_len();
    let src = ClassSource::Name("java/lang/NoSuchClass".to_string());
    assert_eq!(Err(LookupError::ClassNotFound), resolve(&mut rt, &env, &src));
    // No partial mutation: not even a reference slot was handed out.
    assert_eq!(before, rt.ref_table_len());
}

#[test]
fn resolver_from_instance_and_existing() {
    let (mut rt, env, obj) = setup();

    // From a live instance: the runtime reports the class; a fresh usable
    // class reference comes back.
    let cls = resolve(&mut rt, &env, &ClassSource::Instance(obj)).unwrap();
    let second = rt.new_object(&env, &cls, 7).unwrap();
    assert_eq!(7, rt.counter_get(&env, &second).unwrap());

    // From an existing class reference held through the registry: pure
    // reinterpretation, no new slot.
    let mut reg = RefRegistry::new();
    let held = reg.promote_attached(&mut rt, &env, &cls.handle).unwrap();
    let before = rt.ref_table_len();
    let reinterpreted = resolve(&mut rt, &env, &source_from_attached(&held, &reg)).unwrap();
    assert_eq!(before, rt.ref_table_len());
    assert_eq!(held.as_raw(&reg), reinterpreted.handle);
    let third = rt.new_object(&env, &reinterpreted, 9).unwrap();
    assert_eq!(9, rt.counter_get(&env, &third).unwrap());
    assert_eq!(0, held.release(&mut reg, &mut rt, &env));
}

#[test]
fn scoped_release_kills_reference() {
    let (mut rt, env, obj) = setup();
    let scoped = ScopedLocalRef::new(&env, obj);

    // Usable while the wrapper is alive.
    let raw = scoped.as_raw();
    assert_eq!(1, rt.counter_add_and_get(&env, &raw, 1).unwrap());

    // Release consumes the wrapper; afterwards the reference is gone for any
    // copy of the raw handle, and there is nothing left to release twice.
    scoped.release(&mut rt, &env).unwrap();
    assert_eq!(
        Err(RuntimeError::InvalidHandle),
        rt.counter_add_and_get(&env, &raw, 1)
    );
    assert_eq!(
        Err(RuntimeError::InvalidHandle),
        rt.delete_local_ref(&env, raw)
    );
}

#[test]
fn detach_releases_thread_locals() {
    let mut rt = Runtime::new();
    rt.register_class(ATOMIC_INTEGER.to_string());
    let env0 = rt.attach_current_thread(0).unwrap();
    let cls = rt.find_class(&env0, &ATOMIC_INTEGER.to_string()).unwrap();

    let env1 = rt.attach_current_thread(1).unwrap();
    let cls1 = rt.find_class(&env1, &ATOMIC_INTEGER.to_string()).unwrap();
    let obj1 = rt.new_object(&env1, &cls1, 5).unwrap();
    assert_eq!(5, rt.counter_get(&env1, &obj1).unwrap());

    // Local references die with their thread's scope...
    rt.detach_current_thread(env1).unwrap();
    let env1 = rt.attach_current_thread(1).unwrap();
    assert_eq!(
        Err(RuntimeError::InvalidHandle),
        rt.counter_get(&env1, &obj1)
    );
    // ...while another thread's locals are untouched.
    let obj0 = rt.new_object(&env0, &cls, 1).unwrap();
    assert_eq!(1, rt.counter_get(&env0, &obj0).unwrap());
}

#[test]
fn cross_scope_clone_release() {
    let (mut rt, env, obj) = setup();
    let mut reg = RefRegistry::new();
    let outer = reg.promote(&mut rt, &env, &obj).unwrap();

    {
        // Inner scope: clone, attach, use, detach, release.
        let inner = outer.clone_ref(&mut reg, &rt).attach(&rt, &env);
        assert_eq!(1, rt.counter_add_and_get(&env, &inner.as_raw(&reg), 1).unwrap());
        let inner = inner.detach();
        assert_eq!(1, inner.release(&mut reg, &mut rt, Some(&env)).unwrap());
    }

    // The outer share is fully usable and is now the last one.
    let outer = outer.attach(&rt, &env);
    assert_eq!(2, rt.counter_add_and_get(&env, &outer.as_raw(&reg), 1).unwrap());
    assert_eq!(0, outer.release(&mut reg, &mut rt, &env));
}

#[test]
fn attachment_errors() {
    let mut rt = Runtime::new();
    let env = rt.attach_current_thread(0).unwrap();
    assert_eq!(
        Err(AttachError::AlreadyAttached),
        rt.attach_current_thread(0)
    );
    let stale = env;
    rt.detach_current_thread(env).unwrap();
    assert_eq!(
        Err(AttachError::NotAttached),
        rt.detach_current_thread(stale)
    );
}

#[test]
fn pending_exception_blocks_runtime_calls() {
    let (mut rt, env, obj) = setup();

    rt.raise_exception(&env);
    assert!(rt.exception_check(&env));
    assert_eq!(
        Err(RuntimeError::PendingException),
        rt.counter_add_and_get(&env, &obj, 1)
    );

    // Describing the exception clears it; calls are legal again.
    rt.exception_describe(&env);
    assert!(!rt.exception_check(&env));
    assert_eq!(1, rt.counter_add_and_get(&env, &obj, 1).unwrap());
}

#[test]
fn counter_wraps_like_the_runtime() {
    let mut rt = Runtime::new();
    rt.register_class(ATOMIC_INTEGER.to_string());
    let env = rt.attach_current_thread(0).unwrap();
    let cls = rt.find_class(&env, &ATOMIC_INTEGER.to_string()).unwrap();
    let obj = rt.new_object(&env, &cls, i32::MAX).unwrap();
    assert_eq!(i32::MIN, rt.counter_add_and_get(&env, &obj, 1).unwrap());
    assert_eq!(i32::MAX, rt.counter_add_and_get(&env, &obj, -1).unwrap());
}

#[test]
fn interleaved_updates_net_to_sum() {
    let (mut rt, env, obj) = setup();
    let mut reg = RefRegistry::new();
    let shared = reg.promote_attached(&mut rt, &env, &obj).unwrap();
    let h = shared.as_raw(&reg);

    // The same increments and decrements as two straight runs, but in a
    // mixed order: the net result depends only on the counts.
    for _ in 0..100 {
        rt.counter_add_and_get(&env, &h, 1).unwrap();
        rt.counter_add_and_get(&env, &h, -1).unwrap();
    }
    rt.counter_add_and_get(&env, &h, 1).unwrap();
    assert_eq!(1, rt.counter_get(&env, &h).unwrap());
    assert_eq!(0, shared.release(&mut reg, &mut rt, &env));
}

#[test]
fn stale_global_handle_is_invalid_for_lookup() {
    let (mut rt, env, obj) = setup();
    let mut reg = RefRegistry::new();
    let held = reg.promote_attached(&mut rt, &env, &obj).unwrap();
    let raw = held.as_raw(&reg);
    assert_eq!(0, held.release(&mut reg, &mut rt, &env));
    assert_eq!(
        Err(LookupError::InvalidReference),
        rt.get_object_class(&env, &raw)
    );
}
