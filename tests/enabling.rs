use batman::gate::{claim, plan_for, Plan};
use std::sync::atomic::{AtomicBool, Ordering};

const NOTHING: Plan = Plan { install_handler: false, unmask_traps: false };

#[test]
fn plan_of_each_outcome() {
    assert_eq!(plan_for(true, true), Plan { install_handler: true, unmask_traps: true });
    assert_eq!(plan_for(true, false), Plan { install_handler: false, unmask_traps: true });
    assert_eq!(plan_for(false, false), NOTHING);
    assert_eq!(plan_for(false, true), NOTHING);
}

#[test]
fn first_call_installs_and_unmasks() {
    let thread_flag = AtomicBool::new(false);
    let process_flag = AtomicBool::new(false);
    let p = claim(true, &thread_flag, &process_flag);
    assert_eq!(p, Plan { install_handler: true, unmask_traps: true });
    assert!(thread_flag.load(Ordering::SeqCst));
    assert!(process_flag.load(Ordering::SeqCst));
}

#[test]
fn repeated_calls_on_one_thread_act_once() {
    let thread_flag = AtomicBool::new(false);
    let process_flag = AtomicBool::new(false);
    let mut installs = 0;
    let mut unmasks = 0;
    for _ in 0..10 {
        let p = claim(true, &thread_flag, &process_flag);
        installs += p.install_handler as u32;
        unmasks += p.unmask_traps as u32;
    }
    assert_eq!(installs, 1);
    assert_eq!(unmasks, 1);
}

#[test]
fn second_thread_unmasks_without_installing() {
    let process_flag = AtomicBool::new(false);
    let first = AtomicBool::new(false);
    let second = AtomicBool::new(false);
    let untouched = AtomicBool::new(false);
    assert_eq!(
        claim(true, &first, &process_flag),
        Plan { install_handler: true, unmask_traps: true }
    );
    assert_eq!(
        claim(true, &second, &process_flag),
        Plan { install_handler: false, unmask_traps: true }
    );
    assert_eq!(claim(true, &second, &process_flag), NOTHING);
    assert!(!untouched.load(Ordering::SeqCst));
}

#[test]
fn inactive_build_touches_nothing() {
    let thread_flag = AtomicBool::new(false);
    let process_flag = AtomicBool::new(false);
    assert_eq!(claim(false, &thread_flag, &process_flag), NOTHING);
    assert!(!thread_flag.load(Ordering::SeqCst));
    assert!(!process_flag.load(Ordering::SeqCst));
}
