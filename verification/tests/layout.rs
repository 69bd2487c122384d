use std::mem::size_of;

use eldenring::menu_man::{
    indexed_state_word_offset, CS_MENU_MAN_INDEXED_STATE_WORD_COUNT,
    INDEXED_STATE_WORD_COUNT, INDEXED_STATE_WORD_FIRST_OFFSET, INDEXED_STATE_WORD_LAST_OFFSET,
};
use eldenring::msg_repository::MsgRepositoryImp;

#[test]
fn indexed_state_word_offsets_match_native_setter() {
    assert_eq!(0x15f, INDEXED_STATE_WORD_COUNT);
    assert_eq!(Some(0xdc), indexed_state_word_offset(0));
    assert_eq!(Some(0xe0), indexed_state_word_offset(1));
    assert_eq!(Some(0x654), indexed_state_word_offset(0x15e));
    assert_eq!(None, indexed_state_word_offset(0x15f));
}

#[test]
fn msg_repository_layout_offsets_match_static_re() {
    let repository = MsgRepositoryImp { vftable: 0 };
    let base = std::ptr::from_ref(&repository).addr();
    let field = std::ptr::from_ref(&repository.vftable).addr();
    assert_eq!(0x0, field - base);
    assert_eq!(0x8, size_of::<MsgRepositoryImp>());
}

#[test]
fn indexed_state_table_bounds_and_spacing() {
    assert_eq!(CS_MENU_MAN_INDEXED_STATE_WORD_COUNT, INDEXED_STATE_WORD_COUNT);
    assert_eq!(0xdc, INDEXED_STATE_WORD_FIRST_OFFSET);
    assert_eq!(0x654, INDEXED_STATE_WORD_LAST_OFFSET);
    let mut previous = None;
    for index in 0..INDEXED_STATE_WORD_COUNT {
        let offset = indexed_state_word_offset(index).unwrap();
        assert_eq!(INDEXED_STATE_WORD_FIRST_OFFSET + 4 * index, offset);
        if let Some(p) = previous {
            assert_eq!(p + 4, offset);
        }
        previous = Some(offset);
    }
    assert_eq!(Some(INDEXED_STATE_WORD_LAST_OFFSET), previous);
    assert_eq!(None, indexed_state_word_offset(usize::MAX));
}
