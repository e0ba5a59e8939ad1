use rust_pixel::event::{
    event_check, event_emit, event_register, timer_cancel, timer_exdata, timer_fire, timer_register,
    timer_rstage, timer_set_time, timer_stage, timer_update, EventCenter, Timers,
};
use rust_pixel::event_mutex;
use rust_pixel::GAME_FRAME;
use std::time::Instant;

fn frames(time: f32) -> u32 {
    (time * GAME_FRAME as f32) as u32
}

#[test]
fn test_thread_local_implementation() {
    let mut ec = EventCenter::new();
    // Test event registration and triggering
    event_register(&mut ec, "test_event_tl", "test_callback");

    // Test event check (initially should be false)
    assert!(!event_check(&mut ec, "test_event_tl", "test_callback"));

    // Trigger event
    event_emit(&mut ec, "test_event_tl");

    // Now should be true
    assert!(event_check(&mut ec, "test_event_tl", "test_callback"));

    // Check again should be false (because it has been consumed)
    assert!(!event_check(&mut ec, "test_event_tl", "test_callback"));
}

#[test]
fn test_timer_implementation() {
    let mut timers = Timers::new();
    let mut ec = EventCenter::new();
    // Test timer registration
    timer_register(&mut timers, &mut ec, "test_timer_tl", frames(1.0), "timer_callback");

    // Test initial state
    assert_eq!(timer_stage(&timers, "test_timer_tl"), 0);
    assert_eq!(timer_rstage(&timers, "test_timer_tl"), 60); // 1.0 * GAME_FRAME
    let stage = timer_stage(&timers, "test_timer_tl");
    let count = timers.count("test_timer_tl");
    assert_eq!(stage as f32 / count as f32, 0.0);

    // Test time setting
    timer_set_time(&mut timers, "test_timer_tl", frames(2.0));
    assert_eq!(timer_rstage(&timers, "test_timer_tl"), 120); // 2.0 * GAME_FRAME

    // Test data storage
    timer_fire(&mut timers, "test_timer_tl", bincode::serialize(&"test_data").unwrap());
    let exdata = timer_exdata(&timers, "test_timer_tl");
    assert!(exdata.is_some());
}

#[test]
fn benchmark_thread_local_performance() {
    let iterations = 10000;
    let mut ec = EventCenter::new();
    let mut timers = Timers::new();

    let start = Instant::now();
    for i in 0..iterations {
        let event_name = format!("bench_event_{}", i % 10);
        let callback_name = format!("bench_callback_{}", i % 10);

        event_register(&mut ec, &event_name, &callback_name);
        event_emit(&mut ec, &event_name);
        event_check(&mut ec, &event_name, &callback_name);
    }
    let event_time = start.elapsed();

    let start = Instant::now();
    for i in 0..iterations {
        let timer_name = format!("bench_timer_{}", i % 10);
        let callback_name = format!("bench_callback_{}", i % 10);

        timer_register(&mut timers, &mut ec, &timer_name, frames(0.1), &callback_name);
        timer_stage(&timers, &timer_name);
        let _percent = timer_stage(&timers, &timer_name) as f32 / timers.count(&timer_name) as f32;
    }
    let timer_time = start.elapsed();

    println!("Thread-local version:");
    println!("  Event operations {} times took: {:?}", iterations, event_time);
    println!("  Timer operations {} times took: {:?}", iterations, timer_time);
    println!("  Average per event operation: {:?}", event_time / iterations);
    println!("  Average per timer operation: {:?}", timer_time / iterations);
}

#[test]
fn test_mutex_implementation() {
    let mut ec = event_mutex::EventCenter::new();
    event_mutex::event_register(&mut ec, "test_event_mutex", "test_callback");
    assert!(!event_mutex::event_check(&mut ec, "test_event_mutex", "test_callback"));
    event_mutex::event_emit(&mut ec, "test_event_mutex");
    assert!(event_mutex::event_check(&mut ec, "test_event_mutex", "test_callback"));
    assert!(!event_mutex::event_check(&mut ec, "test_event_mutex", "test_callback"));
}

#[test]
fn test_timer_mutex_implementation() {
    let mut timers = event_mutex::Timers::new();
    let mut ec = event_mutex::EventCenter::new();
    event_mutex::timer_register(&mut timers, &mut ec, "test_timer_mutex", frames(1.0), "timer_callback");

    assert_eq!(event_mutex::timer_stage(&timers, "test_timer_mutex"), 0);
    assert_eq!(event_mutex::timer_rstage(&timers, "test_timer_mutex"), 60);
    let stage = event_mutex::timer_stage(&timers, "test_timer_mutex");
    let count = timers.count("test_timer_mutex");
    assert_eq!(stage as f32 / count as f32, 0.0);

    event_mutex::timer_set_time(&mut timers, "test_timer_mutex", frames(2.0));
    assert_eq!(event_mutex::timer_rstage(&timers, "test_timer_mutex"), 120);

    event_mutex::timer_fire(&mut timers, "test_timer_mutex", bincode::serialize(&"test_data").unwrap());
    let exdata = event_mutex::timer_exdata(&timers, "test_timer_mutex");
    assert!(exdata.is_some());
}

#[test]
fn benchmark_mutex_performance() {
    let iterations = 10000;
    let mut ec = event_mutex::EventCenter::new();
    let mut timers = event_mutex::Timers::new();

    let start = Instant::now();
    for i in 0..iterations {
        let event_name = format!("bench_event_mutex_{}", i % 10);
        let callback_name = format!("bench_callback_{}", i % 10);

        event_mutex::event_register(&mut ec, &event_name, &callback_name);
        event_mutex::event_emit(&mut ec, &event_name);
        event_mutex::event_check(&mut ec, &event_name, &callback_name);
    }
    let event_time = start.elapsed();

    let start = Instant::now();
    for i in 0..iterations {
        let timer_name = format!("bench_timer_mutex_{}", i % 10);
        let callback_name = format!("bench_callback_{}", i % 10);

        event_mutex::timer_register(&mut timers, &mut ec, &timer_name, frames(0.1), &callback_name);
        event_mutex::timer_stage(&timers, &timer_name);
        let _percent =
            event_mutex::timer_stage(&timers, &timer_name) as f32 / timers.count(&timer_name) as f32;
    }
    let timer_time = start.elapsed();

    println!("Mutex version:");
    println!("  Event operations {} times took: {:?}", iterations, event_time);
    println!("  Timer operations {} times took: {:?}", iterations, timer_time);
    println!("  Average per event operation: {:?}", event_time / iterations);
    println!("  Average per timer operation: {:?}", timer_time / iterations);
}

#[test]
fn emit_reaches_every_callback_once() {
    let mut ec = EventCenter::new();
    event_register(&mut ec, "hit", "a");
    event_register(&mut ec, "hit", "b");
    event_register(&mut ec, "miss", "a");
    event_emit(&mut ec, "hit");
    event_emit(&mut ec, "hit");
    assert!(event_check(&mut ec, "hit", "a"));
    assert!(event_check(&mut ec, "hit", "b"));
    assert!(!event_check(&mut ec, "hit", "a"));
    assert!(!event_check(&mut ec, "miss", "a"));
    assert!(!event_check(&mut ec, "nothing", "a"));
    event_emit(&mut ec, "nothing");
}

#[test]
fn register_lowers_a_raised_flag() {
    let mut ec = EventCenter::new();
    event_register(&mut ec, "e", "f");
    event_emit(&mut ec, "e");
    event_register(&mut ec, "e", "f");
    assert!(!event_check(&mut ec, "e", "f"));
}

#[test]
fn fired_timer_emits_after_its_count() {
    let mut ec = EventCenter::new();
    let mut timers = Timers::new();
    timer_register(&mut timers, &mut ec, "t", 3, "cb");
    timer_fire(&mut timers, "t", vec![7, 8]);
    assert_eq!(timer_exdata(&timers, "t"), Some(vec![7, 8]));
    assert_eq!(timer_stage(&timers, "t"), 3);
    assert_eq!(timer_rstage(&timers, "t"), 0);
    timer_update(&mut timers, &mut ec);
    assert_eq!(timer_stage(&timers, "t"), 2);
    assert_eq!(timer_rstage(&timers, "t"), 1);
    timer_update(&mut timers, &mut ec);
    assert!(!event_check(&mut ec, "t", "cb"));
    timer_update(&mut timers, &mut ec);
    assert_eq!(timer_stage(&timers, "t"), 0);
    assert!(event_check(&mut ec, "t", "cb"));
    timer_update(&mut timers, &mut ec);
    assert!(!event_check(&mut ec, "t", "cb"));
}

#[test]
fn cancel_emits_unless_told_not_to() {
    let mut ec = EventCenter::new();
    let mut timers = Timers::new();
    timer_register(&mut timers, &mut ec, "t", 5, "cb");
    timer_fire(&mut timers, "t", vec![]);
    timer_cancel(&mut timers, &mut ec, "t", true);
    assert_eq!(timer_stage(&timers, "t"), 0);
    assert!(!event_check(&mut ec, "t", "cb"));
    timer_fire(&mut timers, "t", vec![]);
    timer_cancel(&mut timers, &mut ec, "t", false);
    assert!(event_check(&mut ec, "t", "cb"));
}

#[test]
fn set_time_zero_becomes_one_and_unknown_timers_read_zero() {
    let mut ec = EventCenter::new();
    let mut timers = Timers::new();
    timer_register(&mut timers, &mut ec, "t", 5, "cb");
    timer_set_time(&mut timers, "t", 0);
    assert_eq!(timer_rstage(&timers, "t"), 1);
    assert_eq!(timer_stage(&timers, "none"), 0);
    assert_eq!(timer_rstage(&timers, "none"), 0);
    assert_eq!(timer_exdata(&timers, "none"), None);
    // registering again keeps the timer as it was
    timer_register(&mut timers, &mut ec, "t", 9, "cb");
    assert_eq!(timer_rstage(&timers, "t"), 1);
}
