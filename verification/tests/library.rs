use gl_mem_test::config::{
    all_tests, parse_flag, select_test, Allocation, SelectError, TargetKind, Test, TEXTURE_COUNT,
    TEXTURE_SIZE,
};
use gl_mem_test::plan::Cmd;
use gl_mem_test::report::{
    expected_line, expected_mb, kb_to_mb, memory_delta, report_line, start_line, sweep_lines,
    u64_to_dec,
};

#[test]
fn delta_is_clamped_to_baseline() {
    assert_eq!(memory_delta(150, 100), 50);
    assert_eq!(memory_delta(100, 150), 0);
    assert_eq!(memory_delta(100, 100), 0);
    assert_eq!(memory_delta(0, u64::MAX), 0);
    assert_eq!(memory_delta(u64::MAX, 0), u64::MAX);
}

#[test]
fn kilobytes_to_megabytes() {
    assert_eq!(kb_to_mb(0), 0);
    assert_eq!(kb_to_mb(1023), 0);
    assert_eq!(kb_to_mb(1024), 1);
    assert_eq!(kb_to_mb(2048), 2);
    assert_eq!(kb_to_mb(1638400), 1600);
}

#[test]
fn expected_sweep_size() {
    assert_eq!(expected_mb(10, 2048), 160);
    assert_eq!(expected_mb(100, 2048), 1600);
    assert_eq!(expected_mb(0, 2048), 0);
    assert_eq!(expected_mb(1, 512), 1);
}

#[test]
fn expected_line_text() {
    assert_eq!(expected_line(10, 2048), "Expected: 160 MB");
    assert_eq!(expected_line(TEXTURE_COUNT, TEXTURE_SIZE), "Expected: 1600 MB");
}

#[test]
fn start_line_text() {
    assert_eq!(
        start_line(TEXTURE_COUNT, TEXTURE_SIZE),
        "Starting gl-mem-test with 100 textures of size 2048x2048"
    );
}

#[test]
fn decimal_writing() {
    assert_eq!(u64_to_dec(0), "0");
    assert_eq!(u64_to_dec(7), "7");
    assert_eq!(u64_to_dec(10), "10");
    assert_eq!(u64_to_dec(1234567890), "1234567890");
    assert_eq!(u64_to_dec(u64::MAX), "18446744073709551615");
}

#[test]
fn sweep_list_is_fixed_and_ordered() {
    let tests = all_tests();
    assert_eq!(tests.len(), 5);
    assert_eq!(
        tests[0],
        Test { target: TargetKind::Planar2d, alloc: Allocation::Old { limit_max: false } }
    );
    assert_eq!(
        tests[1],
        Test { target: TargetKind::Planar2d, alloc: Allocation::Old { limit_max: true } }
    );
    assert_eq!(tests[2], Test { target: TargetKind::Planar2d, alloc: Allocation::Storage });
    assert_eq!(
        tests[3],
        Test { target: TargetKind::Rectangle, alloc: Allocation::Old { limit_max: false } }
    );
    assert_eq!(tests[4], Test { target: TargetKind::Rectangle, alloc: Allocation::Storage });
}

#[test]
fn descriptions() {
    let t = Test { target: TargetKind::Planar2d, alloc: Allocation::Old { limit_max: false } };
    assert_eq!(t.describe(), "2d image");
    let t = Test { target: TargetKind::Planar2d, alloc: Allocation::Old { limit_max: true } };
    assert_eq!(t.describe(), "2d image limit");
    let t = Test { target: TargetKind::Rectangle, alloc: Allocation::Storage };
    assert_eq!(t.describe(), "rect storage");
}

#[test]
fn report_line_text() {
    let t = Test { target: TargetKind::Planar2d, alloc: Allocation::Old { limit_max: false } };
    assert_eq!(report_line(&t, 3072, 1024), "2d image: 2 MB");
    let t = Test { target: TargetKind::Rectangle, alloc: Allocation::Storage };
    assert_eq!(report_line(&t, 1024, 4096), "rect storage: 0 MB");
}

#[test]
fn sweep_produces_one_line_per_configuration() {
    let base = 1000;
    let samples = vec![1000 + 1024, 1000 + 2048, 1000, 500, 1000 + 5 * 1024];
    let lines = sweep_lines(&samples, base);
    assert_eq!(lines.len(), 5);
    assert_eq!(lines[0], "2d image: 1 MB");
    assert_eq!(lines[1], "2d image limit: 2 MB");
    assert_eq!(lines[2], "2d storage: 0 MB");
    assert_eq!(lines[3], "rect image: 0 MB");
    assert_eq!(lines[4], "rect storage: 5 MB");
}

#[test]
fn selector_picks_the_named_configuration() {
    assert_eq!(
        select_test("2d", "storage", false),
        Ok(Test { target: TargetKind::Planar2d, alloc: Allocation::Storage })
    );
    assert_eq!(
        select_test("rect", "image", true),
        Ok(Test { target: TargetKind::Rectangle, alloc: Allocation::Old { limit_max: true } })
    );
    assert_eq!(
        select_test("2d", "image", false),
        Ok(Test { target: TargetKind::Planar2d, alloc: Allocation::Old { limit_max: false } })
    );
}

#[test]
fn selected_description_matches_selector() {
    let t = select_test("rect", "storage", false).unwrap();
    assert_eq!(t.describe(), "rect storage");
    let t = select_test("2d", "image", true).unwrap();
    assert_eq!(t.describe(), "2d image limit");
}

#[test]
fn unrecognized_tokens_are_rejected() {
    assert_eq!(select_test("cube", "storage", false), Err(SelectError::WrongTarget));
    assert_eq!(select_test("", "image", false), Err(SelectError::WrongTarget));
    assert_eq!(select_test("2d", "heap", false), Err(SelectError::WrongAlloc));
    assert_eq!(select_test("rect", "", true), Err(SelectError::WrongAlloc));
}

#[test]
fn flag_parsing() {
    assert_eq!(parse_flag("true"), Ok(true));
    assert_eq!(parse_flag("false"), Ok(false));
    assert_eq!(parse_flag("1"), Err(SelectError::WrongFlag));
    assert_eq!(parse_flag("TRUE"), Err(SelectError::WrongFlag));
}

#[test]
fn plan_for_legacy_with_limit() {
    let t = Test { target: TargetKind::Planar2d, alloc: Allocation::Old { limit_max: true } };
    let plan = t.plan(2, 64);
    assert_eq!(
        plan,
        vec![
            Cmd::GenTextures { count: 2 },
            Cmd::BindTexture { target: TargetKind::Planar2d, index: 0 },
            Cmd::LimitMipLevels { target: TargetKind::Planar2d },
            Cmd::TexImage2d { target: TargetKind::Planar2d, size: 64 },
            Cmd::BindTexture { target: TargetKind::Planar2d, index: 1 },
            Cmd::LimitMipLevels { target: TargetKind::Planar2d },
            Cmd::TexImage2d { target: TargetKind::Planar2d, size: 64 },
            Cmd::DeleteTextures { count: 2 },
            Cmd::Finish,
        ]
    );
}

#[test]
fn plan_for_storage() {
    let t = Test { target: TargetKind::Rectangle, alloc: Allocation::Storage };
    let plan = t.plan(1, 16);
    assert_eq!(
        plan,
        vec![
            Cmd::GenTextures { count: 1 },
            Cmd::BindTexture { target: TargetKind::Rectangle, index: 0 },
            Cmd::TexStorage2d { target: TargetKind::Rectangle, size: 16 },
            Cmd::DeleteTextures { count: 1 },
            Cmd::Finish,
        ]
    );
}

#[test]
fn plan_tears_everything_down() {
    for t in all_tests() {
        let plan = t.plan(3, 32);
        let n = plan.len();
        assert_eq!(plan[0], Cmd::GenTextures { count: 3 });
        assert_eq!(plan[n - 2], Cmd::DeleteTextures { count: 3 });
        assert_eq!(plan[n - 1], Cmd::Finish);
    }
}
