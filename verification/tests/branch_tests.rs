use hook_engine::branch::{
    build_jmp_rax, build_mov_rax_i64, calc_displacment, generate_absolute_branch,
    generate_relative_branch, is_displacement_in_range, RelJump, ABSOLUTE_BRANCH_SIZE,
    REL_JMP_SIZE,
};
use hook_engine::error::HookError;

#[test]
fn absolute_branch_loads_address_and_jumps() {
    let code = generate_absolute_branch(0x1122_3344_5566_7788).unwrap();
    assert_eq!(
        code,
        vec![0x48, 0xb8, 0x88, 0x77, 0x66, 0x55, 0x44, 0x33, 0x22, 0x11, 0xff, 0xe0]
    );
    assert_eq!(code.len(), ABSOLUTE_BRANCH_SIZE);
}

#[test]
fn absolute_branch_to_zero_and_to_top() {
    assert_eq!(
        generate_absolute_branch(0).unwrap(),
        vec![0x48, 0xb8, 0, 0, 0, 0, 0, 0, 0, 0, 0xff, 0xe0]
    );
    assert_eq!(
        generate_absolute_branch(u64::MAX).unwrap(),
        vec![0x48, 0xb8, 0xff, 0xff, 0xff, 0xff, 0xff, 0xff, 0xff, 0xff, 0xff, 0xe0]
    );
}

#[test]
fn mov_rax_and_jmp_rax_bytes() {
    assert_eq!(
        build_mov_rax_i64(0x0102_0304_0506_0708),
        vec![0x48, 0xb8, 0x08, 0x07, 0x06, 0x05, 0x04, 0x03, 0x02, 0x01]
    );
    assert_eq!(build_jmp_rax(), vec![0xff, 0xe0]);
}

#[test]
fn relative_jump_forward() {
    // 0x1000 + 5 + 0x10 = 0x1015
    let code = generate_relative_branch(0x1000, 0x1015, false).unwrap();
    assert_eq!(code, vec![0xE9, 0x10, 0x00, 0x00, 0x00]);
    assert_eq!(code.len(), REL_JMP_SIZE);
}

#[test]
fn relative_call_backward() {
    // 0x2000 - (0x3000 + 5) = -0x1005
    let code = generate_relative_branch(0x3000, 0x2000, true).unwrap();
    assert_eq!(code, vec![0xE8, 0xFB, 0xEF, 0xFF, 0xFF]);
}

#[test]
fn relative_jump_to_itself_is_minus_five() {
    for at in [0u64, 0x40_0000, 0x7fff_ffff_f000, u64::MAX] {
        assert_eq!(
            generate_relative_branch(at, at, false).unwrap(),
            vec![0xE9, 0xFB, 0xFF, 0xFF, 0xFF]
        );
    }
}

#[test]
fn displacement_limits() {
    let from = 0x1_0000_0000u64;
    // largest forward distance
    assert_eq!(calc_displacment(from, from + 5 + 0x7fff_ffff, 5), Ok(0x7fff_ffff));
    // one more does not fit
    assert_eq!(
        calc_displacment(from, from + 5 + 0x8000_0000, 5),
        Err(HookError::DisplacementOutOfRange)
    );
    // largest backward distance
    assert_eq!(calc_displacment(from, from + 5 - 0x8000_0000, 5), Ok(0x8000_0000));
    // one more does not fit
    assert_eq!(
        calc_displacment(from, from + 5 - 0x8000_0001, 5),
        Err(HookError::DisplacementOutOfRange)
    );
}

#[test]
fn displacement_out_of_range_comes_out_of_the_generator() {
    assert_eq!(
        generate_relative_branch(0, 0x1_0000_0000, false),
        Err(HookError::DisplacementOutOfRange)
    );
}

#[test]
fn displacement_wraps_like_the_processor() {
    // from the last bytes of the address space to its first
    assert_eq!(calc_displacment(u64::MAX - 4, 0, 5), Ok(0));
    assert_eq!(calc_displacment(0, u64::MAX, 5), Ok(0xffff_fffa));
}

#[test]
fn range_check_on_signed_distances() {
    assert!(is_displacement_in_range(0));
    assert!(is_displacement_in_range(i32::MAX as i64));
    assert!(is_displacement_in_range(i32::MIN as i64));
    assert!(!is_displacement_in_range(i32::MAX as i64 + 1));
    assert!(!is_displacement_in_range(i32::MIN as i64 - 1));
}

#[test]
fn rel_jump_layout_is_opcode_then_little_endian_offset() {
    let jump = RelJump { opcode: 0xE9, displacement: 0x1234_5678 };
    assert_eq!(jump.to_bytes(), vec![0xE9, 0x78, 0x56, 0x34, 0x12]);
}

#[test]
fn every_error_has_its_text() {
    assert_eq!(HookError::DisplacementOutOfRange.message(), "Displacement is too big");
    assert_eq!(
        HookError::PatchTooLarge.message(),
        "Hook patch is too big for given actual_patch_size"
    );
    assert_eq!(HookError::MemoryProtectionFailed.message(), "Could not mprotect.");
    assert_eq!(
        HookError::LockEncodingFailed.message(),
        "Lock size is too big for atomic locking"
    );
    assert_eq!(HookError::HookNotFound.message(), "Hook was not found");
    assert_eq!(HookError::HookConstructionFailed.message(), "Hook could not be constructed");
}
