use snipstack::diagnostics::{
    end_main_thread_block, expect_main_thread_block, is_hang_dump, may_write_dump, ExpectedBlocks,
    Watchdog,
};

#[test]
fn expected_blocks_nest_and_unwind() {
    let mut blocks = ExpectedBlocks::new();
    assert!(!blocks.is_blocked());
    let outer = expect_main_thread_block(&mut blocks);
    let inner = expect_main_thread_block(&mut blocks);
    end_main_thread_block(&mut blocks, inner);
    assert!(blocks.is_blocked());
    end_main_thread_block(&mut blocks, outer);
    assert!(!blocks.is_blocked());
}

#[test]
fn hang_gets_one_dump_after_two_misses() {
    let mut dog = Watchdog::new();
    assert_eq!(dog.next_probe(), 1);
    let first = dog.on_probe(false, false);
    assert!(first.missed && first.hang_started && !first.write_dump);
    assert_eq!(first.misses, 1);
    dog.next_probe();
    let second = dog.on_probe(false, false);
    assert!(second.write_dump && !second.hang_started);
    assert_eq!(second.misses, 2);
    dog.next_probe();
    let third = dog.on_probe(false, false);
    assert!(!third.write_dump, "one dump per hang");
    dog.next_probe();
    let answered = dog.on_probe(true, false);
    assert!(answered.recovered && !answered.missed);
    assert_eq!(answered.misses, 0);
    dog.next_probe();
    dog.on_probe(false, false);
    dog.next_probe();
    assert!(dog.on_probe(false, false).write_dump, "a new hang is dumped again");
}

#[test]
fn expected_block_raises_the_threshold_to_ten() {
    let mut dog = Watchdog::new();
    for miss in 1..10u32 {
        dog.next_probe();
        let report = dog.on_probe(false, true);
        assert!(report.during_expected_block);
        assert_eq!(report.misses, miss);
        assert!(!report.write_dump);
    }
    dog.next_probe();
    assert!(dog.on_probe(false, true).write_dump);
}

#[test]
fn resources_are_logged_every_tenth_probe() {
    let mut dog = Watchdog::new();
    let mut logged = Vec::new();
    for _ in 0..25 {
        let seq = dog.next_probe();
        if dog.on_probe(true, false).log_resources {
            logged.push(seq);
        }
    }
    assert_eq!(logged, vec![10, 20]);
}

#[test]
fn answer_without_hang_is_not_a_recovery() {
    let mut dog = Watchdog::new();
    dog.next_probe();
    let report = dog.on_probe(true, false);
    assert!(!report.recovered && !report.write_dump && !report.missed);
}

#[test]
fn hang_dumps_are_recognised_by_name_and_capped() {
    assert!(is_hang_dump("hang-20250101-120000.dmp"));
    assert!(is_hang_dump("hang-.dmp"));
    assert!(!is_hang_dump("hang.dmp"));
    assert!(!is_hang_dump("snipstack.log"));
    assert!(!is_hang_dump("hang-20250101.dmp.txt"));
    assert!(may_write_dump(2));
    assert!(!may_write_dump(3));
}
