use hook_engine::arena::Arena;
use hook_engine::branch::generate_absolute_branch;
use hook_engine::error::HookError;
use hook_engine::hook::{DetourHook, DynamicTrampoline, Trampoline};
use hook_engine::page::{align_down, page_span, PAGE_SIZE};
use hook_engine::patcher::{
    patch_and_unlock, patch_result, write_atomic_patch, PatchAction, Patcher,
};

const LOCK_WORD: u64 = 0x9090_90FF_FFFF_FBE9;

fn code(n: usize) -> Vec<u8> {
    (0..n).map(|i| 0x10 + i as u8).collect()
}

#[test]
fn patch_longer_than_region_is_refused() {
    let r = Patcher::new(0x1000, vec![0; 13], vec![0; 12]);
    assert!(matches!(r, Err(HookError::PatchTooLarge)));
}

#[test]
fn patch_as_long_as_region_is_accepted() {
    let p = Patcher::new(0x1000, vec![1; 12], vec![2; 12]).unwrap();
    assert_eq!(p.target(), 0x1000);
    assert_eq!(p.patch_bytes(), &vec![1; 12]);
    assert_eq!(p.saved_bytes(), &vec![2; 12]);
}

#[test]
fn lock_word_is_a_jump_to_self_padded_with_nops() {
    let p = Patcher::new(0x1000, vec![], vec![]).unwrap();
    assert_eq!(p.lock_function(), Ok(LOCK_WORD));
    assert_eq!(LOCK_WORD.to_le_bytes(), [0xE9, 0xFB, 0xFF, 0xFF, 0xFF, 0x90, 0x90, 0x90]);
}

#[test]
fn plan_of_a_twelve_byte_patch() {
    let patch: Vec<u8> = (1..=12).collect();
    let p = Patcher::new(0x1000, patch, code(14)).unwrap();
    let plan = p.enable().unwrap();
    assert_eq!(
        plan,
        vec![
            PatchAction::MakeWritable { len: 14 },
            PatchAction::StoreWord { word: LOCK_WORD },
            PatchAction::StoreByte { offset: 11, value: 12 },
            PatchAction::StoreByte { offset: 10, value: 11 },
            PatchAction::StoreByte { offset: 9, value: 10 },
            PatchAction::StoreByte { offset: 8, value: 9 },
            PatchAction::StoreWord { word: 0x0807_0605_0403_0201 },
            PatchAction::MakeExecutable { len: 14 },
        ]
    );
}

#[test]
fn plan_of_a_restore_writes_the_whole_region() {
    let p = Patcher::new(0x1000, vec![0xAA; 12], code(14)).unwrap();
    let plan = p.disable().unwrap();
    assert_eq!(plan.len(), 2 + 6 + 1 + 1);
    assert_eq!(plan[2], PatchAction::StoreByte { offset: 13, value: 0x10 + 13 });
    assert_eq!(plan[7], PatchAction::StoreByte { offset: 8, value: 0x18 });
    assert_eq!(plan[8], PatchAction::StoreWord { word: 0x1716_1514_1312_1110 });
}

#[test]
fn plan_of_a_short_patch_keeps_the_rest_of_the_spin_word() {
    let p = Patcher::new(0x1000, vec![0xC3], code(8)).unwrap();
    let plan = p.enable().unwrap();
    assert_eq!(
        plan,
        vec![
            PatchAction::MakeWritable { len: 8 },
            PatchAction::StoreWord { word: LOCK_WORD },
            PatchAction::StoreWord { word: 0x9090_90FF_FFFF_FBC3 },
            PatchAction::MakeExecutable { len: 8 },
        ]
    );
}

#[test]
fn plan_of_an_empty_patch_has_no_unlocking_store() {
    let p = Patcher::new(0x1000, vec![], vec![]).unwrap();
    assert_eq!(
        p.toggle_hook(true).unwrap(),
        vec![
            PatchAction::MakeWritable { len: 8 },
            PatchAction::StoreWord { word: LOCK_WORD },
            PatchAction::MakeExecutable { len: 8 },
        ]
    );
}

#[test]
fn enable_then_disable_restores_memory() {
    let mut memory = code(32);
    let before = memory.clone();
    let target = 0x4000u64 + 4;
    let original = memory[4..4 + 14].to_vec();
    let patch = generate_absolute_branch(0xdead_beef).unwrap();
    let p = Patcher::new(target, patch.clone(), original).unwrap();

    let mut arena = Arena::new(0x4000, std::mem::take(&mut memory)).unwrap();
    assert!(arena.patch(target, &p.enable().unwrap()));
    let hooked = arena.read(0x4000, 32).unwrap();
    assert_eq!(&hooked[4..16], &patch[..]);
    assert_eq!(&hooked[..4], &before[..4]);
    assert_eq!(&hooked[16..], &before[16..]);

    assert!(arena.patch(target, &p.disable().unwrap()));
    assert_eq!(arena.read(0x4000, 32).unwrap(), before);
}

#[test]
fn every_state_during_a_patch_is_old_locked_or_new() {
    let before = code(20);
    let patch = generate_absolute_branch(0x1234_5678_9abc_def0).unwrap();
    let p = Patcher::new(0x8000, patch.clone(), before[..14].to_vec()).unwrap();
    let plan = p.enable().unwrap();
    let mut after = before.clone();
    after[..12].copy_from_slice(&patch);
    for k in 0..=plan.len() {
        let mut arena = Arena::new(0x8000, before.clone()).unwrap();
        assert!(arena.patch(0x8000, &plan[..k].to_vec()));
        let now = arena.read(0x8000, 20).unwrap();
        let locked = now[..5] == [0xE9, 0xFB, 0xFF, 0xFF, 0xFF];
        assert!(now == before || locked || now == after, "state after {} steps", k);
    }
}

#[test]
fn a_failed_step_is_a_protection_failure() {
    assert_eq!(patch_result(None), Ok(()));
    assert_eq!(
        patch_result(Some(PatchAction::MakeWritable { len: 12 })),
        Err(HookError::MemoryProtectionFailed)
    );
    assert_eq!(
        patch_result(Some(PatchAction::MakeExecutable { len: 12 })),
        Err(HookError::MemoryProtectionFailed)
    );
}

#[test]
fn arena_refuses_a_patch_that_leaves_it() {
    let mut arena = Arena::new(0x1000, vec![0; 8]).unwrap();
    assert!(!arena.patch(0x1004, &vec![PatchAction::StoreWord { word: 1 }]));
    assert!(!arena.patch(0x0fff, &vec![]));
    assert!(!arena.patch(0x1000, &vec![PatchAction::StoreByte { offset: 8, value: 1 }]));
    assert_eq!(arena.read(0x1000, 8).unwrap(), vec![0; 8]);
}

#[test]
fn trampoline_is_the_prefix_and_a_branch_behind_it() {
    let original = code(14);
    let t = DynamicTrampoline::build(&original, 0x40_1000).unwrap();
    let mut expected = original.clone();
    expected.extend_from_slice(&generate_absolute_branch(0x40_1000 + 14).unwrap());
    assert_eq!(t.slide(), &expected);
    assert_eq!(t.slide().len(), 14 + 12);
    assert_eq!(t.start_address(0x7000), 0x7008);
}

#[test]
fn trampoline_call_carries_the_twelve_slots() {
    let t = DynamicTrampoline::build(&code(12), 0x1000).unwrap();
    let call = t.call(1, 2, 3, 4, 5, 6, 7, 8, 9, 10, 11, 12);
    assert_eq!(call.arguments, vec![1, 2, 3, 4, 5, 6, 7, 8, 9, 10, 11, 12]);
}

#[test]
fn hook_needs_room_for_an_absolute_branch() {
    let r = DetourHook::<DynamicTrampoline>::new(0x1000, 0x2000, code(11));
    assert!(matches!(r, Err(HookError::PatchTooLarge)));
    assert!(DetourHook::<DynamicTrampoline>::new(0x1000, 0x2000, code(12)).is_ok());
}

#[test]
fn hook_patches_in_a_branch_to_the_callback() {
    let hook = DetourHook::<DynamicTrampoline>::new(0x1000, 0x2000, code(14)).unwrap();
    assert_eq!(hook.target(), 0x1000);
    assert_eq!(hook.callback(), 0x2000);
    let mut arena = Arena::new(0x1000, code(14)).unwrap();
    assert!(arena.patch(0x1000, &hook.enable().unwrap()));
    let mut expected = generate_absolute_branch(0x2000).unwrap();
    expected.extend_from_slice(&code(14)[12..]);
    assert_eq!(arena.read(0x1000, 14).unwrap(), expected);
    assert!(arena.patch(0x1000, &hook.toggle(false).unwrap()));
    assert_eq!(arena.read(0x1000, 14).unwrap(), code(14));
    assert_eq!(hook.disable().unwrap(), hook.toggle(false).unwrap());
    assert_eq!(hook.trampoline_code().len(), 26);
}

#[test]
fn hook_call_trampoline_passes_arguments_in_order() {
    let hook = DetourHook::<DynamicTrampoline>::new(0x1000, 0x2000, code(14)).unwrap();
    let call = hook.call_trampoline(12, 11, 10, 9, 8, 7, 6, 5, 4, 3, 2, 1);
    assert_eq!(call.arguments, vec![12, 11, 10, 9, 8, 7, 6, 5, 4, 3, 2, 1]);
}

#[test]
fn arena_write_then_read_gives_back_the_bytes() {
    let mut arena = Arena::new(0x5000, vec![0; 16]).unwrap();
    assert!(arena.write(0x5003, &[0xFF, 0xFF]));
    assert_eq!(arena.read(0x5003, 2).unwrap(), vec![0xFF, 0xFF]);
    assert_eq!(
        arena.read(0x5000, 16).unwrap(),
        vec![0, 0, 0, 0xFF, 0xFF, 0, 0, 0, 0, 0, 0, 0, 0, 0, 0, 0]
    );
}

#[test]
fn arena_bounds() {
    let mut arena = Arena::new(0x5000, vec![7; 4]).unwrap();
    assert!(arena.read(0x4fff, 1).is_none());
    assert!(arena.read(0x5000, 5).is_none());
    assert!(arena.read(0x5004, 1).is_none());
    assert_eq!(arena.read(0x5004, 0).unwrap(), Vec::<u8>::new());
    assert!(!arena.write(0x5003, &[1, 2]));
    assert_eq!(arena.read(0x5000, 4).unwrap(), vec![7; 4]);
    assert!(Arena::new(u64::MAX, vec![0; 1]).is_none());
    assert!(Arena::new(u64::MAX, vec![]).is_some());
}

#[test]
fn addresses_are_aligned_down_to_pages() {
    assert_eq!(align_down(0x1234, PAGE_SIZE), 0x1000);
    assert_eq!(align_down(0x1000, PAGE_SIZE), 0x1000);
    assert_eq!(align_down(0x0fff, PAGE_SIZE), 0);
    assert_eq!(align_down(u64::MAX, PAGE_SIZE), 0xffff_ffff_ffff_f000);
    assert_eq!(align_down(0x1237, 8), 0x1230);
    assert_eq!(align_down(0x1237, 1), 0x1237);
    assert_eq!(page_span(0x1ffa, 12), (0x1000, 0xffa + 12));
    assert_eq!(page_span(0x2000, 14), (0x2000, 14));
    assert_eq!(page_span(0, 0), (0, 0));
}

#[test]
fn last_store_merges_patch_and_memory() {
    let dest = [0xE9, 0xFB, 0xFF, 0xFF, 0xFF, 0x90, 0x90, 0x90];
    assert_eq!(write_atomic_patch(&dest, &[0xC3]), 0x9090_90FF_FFFF_FBC3);
    assert_eq!(write_atomic_patch(&dest, &[1, 2, 3, 4, 5, 6, 7]), 0x9007_0605_0403_0201);
    assert_eq!(write_atomic_patch(&dest, &[1, 2, 3, 4, 5, 6, 7, 8]), 0x0807_0605_0403_0201);
    assert_eq!(
        write_atomic_patch(&dest, &[1, 2, 3, 4, 5, 6, 7, 8, 9, 10]),
        0x0807_0605_0403_0201
    );
    assert_eq!(write_atomic_patch(&dest, &[]), LOCK_WORD);
}

#[test]
fn stores_run_from_the_highest_offset_down_to_the_first_word() {
    let dest = [0xE9, 0xFB, 0xFF, 0xFF, 0xFF, 0x90, 0x90, 0x90];
    let mut actions = vec![PatchAction::MakeWritable { len: 10 }];
    patch_and_unlock(&dest, &[1, 2, 3, 4, 5, 6, 7, 8, 9, 10], &mut actions);
    assert_eq!(
        actions,
        vec![
            PatchAction::MakeWritable { len: 10 },
            PatchAction::StoreByte { offset: 9, value: 10 },
            PatchAction::StoreByte { offset: 8, value: 9 },
            PatchAction::StoreWord { word: 0x0807_0605_0403_0201 },
        ]
    );
    let mut none = Vec::new();
    patch_and_unlock(&dest, &[], &mut none);
    assert!(none.is_empty());
}
