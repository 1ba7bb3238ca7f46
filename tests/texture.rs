use rust_game::share::find_memory_type;
use rust_game::texture::{
    layout_transition, LayoutBarrier, ACCESS_SHADER_READ, ACCESS_TRANSFER_WRITE,
    LAYOUT_SHADER_READ_ONLY_OPTIMAL, LAYOUT_TRANSFER_DST_OPTIMAL, LAYOUT_UNDEFINED,
    STAGE_FRAGMENT_SHADER, STAGE_TOP_OF_PIPE, STAGE_TRANSFER,
};

#[test]
fn upload_transitions() {
    assert_eq!(
        layout_transition(LAYOUT_UNDEFINED, LAYOUT_TRANSFER_DST_OPTIMAL),
        Some(LayoutBarrier {
            src_access: 0,
            dst_access: ACCESS_TRANSFER_WRITE,
            src_stage: STAGE_TOP_OF_PIPE,
            dst_stage: STAGE_TRANSFER,
        })
    );
    assert_eq!(
        layout_transition(LAYOUT_TRANSFER_DST_OPTIMAL, LAYOUT_SHADER_READ_ONLY_OPTIMAL),
        Some(LayoutBarrier {
            src_access: 0x1000,
            dst_access: ACCESS_SHADER_READ,
            src_stage: 0x1000,
            dst_stage: STAGE_FRAGMENT_SHADER,
        })
    );
}

#[test]
fn other_transitions_are_unsupported() {
    assert_eq!(layout_transition(LAYOUT_UNDEFINED, LAYOUT_SHADER_READ_ONLY_OPTIMAL), None);
    assert_eq!(layout_transition(LAYOUT_SHADER_READ_ONLY_OPTIMAL, LAYOUT_TRANSFER_DST_OPTIMAL), None);
}

#[test]
fn memory_type_needs_filter_bit_and_flags() {
    // host visible = 0x2, host coherent = 0x4, device local = 0x1
    let flags = vec![0x1, 0x6, 0x7, 0x6];
    assert_eq!(find_memory_type(0b1111, 0x6, &flags), Some(1));
    assert_eq!(find_memory_type(0b1101, 0x6, &flags), Some(2));
    assert_eq!(find_memory_type(0b0001, 0x6, &flags), None);
    assert_eq!(find_memory_type(0b1000, 0x1, &flags), None);
    assert_eq!(find_memory_type(u32::MAX, 0, &vec![]), None);
}
