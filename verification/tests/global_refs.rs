use refbridge::record::RefRegistry;
use refbridge::runtime::Runtime;
use refbridge::scoped::ScopedLocalRef;

const ATOMIC_INTEGER: &str = "java/util/concurrent/atomic/AtomicInteger";

#[test]
fn global_ref_works_in_other_threads() {
    let mut rt = Runtime::new();
    rt.register_class(ATOMIC_INTEGER.to_string());
    let env = rt.attach_current_thread(0).unwrap();

    let cls = rt.find_class(&env, &ATOMIC_INTEGER.to_string()).unwrap();
    let local_ref = ScopedLocalRef::new(&env, rt.new_object(&env, &cls, 0).unwrap());
    let mut reg = RefRegistry::new();
    let atomic_integer = reg.promote(&mut rt, &env, &local_ref.as_raw()).unwrap();

    // First worker thread: 10000 decrements of 1.
    let env1 = rt.attach_current_thread(1).unwrap();
    let worker1 = atomic_integer.clone_ref(&mut reg, &rt).attach(&rt, &env1);
    let h1 = worker1.as_raw(&reg);
    for _ in 0..10000 {
        rt.counter_add_and_get(&env1, &h1, -1).unwrap();
    }
    worker1.release(&mut reg, &mut rt, &env1);
    rt.detach_current_thread(env1).unwrap();

    // Second worker thread: 10000 + 1 increments of 1.
    let env2 = rt.attach_current_thread(2).unwrap();
    let worker2 = atomic_integer.clone_ref(&mut reg, &rt).attach(&rt, &env2);
    let h2 = worker2.as_raw(&reg);
    for _ in 0..10000 + 1 {
        rt.counter_add_and_get(&env2, &h2, 1).unwrap();
    }
    worker2.release(&mut reg, &mut rt, &env2);
    rt.detach_current_thread(env2).unwrap();

    let main_ref = atomic_integer.attach(&rt, &env);
    let h = main_ref.as_raw(&reg);
    assert_eq!(1, rt.counter_get(&env, &h).unwrap());
    assert_eq!(0, main_ref.release(&mut reg, &mut rt, &env));
}

#[test]
fn attached_detached_global_refs_works() {
    let mut rt = Runtime::new();
    rt.register_class(ATOMIC_INTEGER.to_string());
    let env = rt.attach_current_thread(0).unwrap();

    let cls = rt.find_class(&env, &ATOMIC_INTEGER.to_string()).unwrap();
    let local_ref = ScopedLocalRef::new(&env, rt.new_object(&env, &cls, 0).unwrap());
    let mut reg = RefRegistry::new();

    let global_ref_1 = reg
        .promote_attached(&mut rt, &env, &local_ref.as_raw())
        .unwrap();

    {
        let global_ref_2 = reg
            .promote_attached(&mut rt, &env, &local_ref.as_raw())
            .unwrap();
        assert_eq!(
            1,
            rt.counter_add_and_get(&env, &global_ref_2.as_raw(&reg), 1)
                .unwrap()
        );
        let global_ref_2 = global_ref_2.detach();
        let global_ref_2 = global_ref_2.attach(&rt, &env);
        assert_eq!(
            2,
            rt.counter_add_and_get(&env, &global_ref_2.as_raw(&reg), 1)
                .unwrap()
        );
        let global_ref_2 = global_ref_2.detach();
        global_ref_2.release(&mut reg, &mut rt, Some(&env)).unwrap();
    }

    assert_eq!(
        3,
        rt.counter_add_and_get(&env, &global_ref_1.as_raw(&reg), 1)
            .unwrap()
    );
    assert_eq!(0, global_ref_1.release(&mut reg, &mut rt, &env));
}
